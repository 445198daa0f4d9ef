//! The security profiles an endpoint can ask for: the algorithm suite that
//! protects a session (the policy) and what is done to each message (the
//! mode). Both are written down by name in a configuration; this module
//! holds the legal names and the closed types they stand for.

use vstd::prelude::*;
use crate::text::str_eq;

verus! {

/// The algorithm suite that protects a session, or none.
#[derive(Clone, Copy, Debug, PartialEq, Eq, Structural)]
pub enum SecurityPolicy {
    NoSecurity,
    Basic128Rsa15,
    Basic256,
    Basic256Sha256,
}

/// What is done to the messages of a session.
#[derive(Clone, Copy, Debug, PartialEq, Eq, Structural)]
pub enum MessageSecurityMode {
    NoSecurity,
    Sign,
    SignAndEncrypt,
}

/// The name under which both "no policy" and "no mode" are written.
pub open spec fn name_none() -> Seq<char> {
    "None"@
}

impl SecurityPolicy {
    /// The name under which the policy is written in a configuration.
    pub open spec fn spec_name(self) -> Seq<char> {
        match self {
            SecurityPolicy::NoSecurity => "None"@,
            SecurityPolicy::Basic128Rsa15 => "Basic128Rsa15"@,
            SecurityPolicy::Basic256 => "Basic256"@,
            SecurityPolicy::Basic256Sha256 => "Basic256Sha256"@,
        }
    }

    /// The policy that a name stands for, if it is one of the four legal names.
    pub open spec fn spec_from_name(name: Seq<char>) -> Option<SecurityPolicy> {
        if name == "None"@ {
            Some(SecurityPolicy::NoSecurity)
        } else if name == "Basic128Rsa15"@ {
            Some(SecurityPolicy::Basic128Rsa15)
        } else if name == "Basic256"@ {
            Some(SecurityPolicy::Basic256)
        } else if name == "Basic256Sha256"@ {
            Some(SecurityPolicy::Basic256Sha256)
        } else {
            None
        }
    }

    /// The name under which the policy is written in a configuration.
    pub fn name(self) -> (name: &'static str)
        ensures
            name@ == self.spec_name(),
    {
        match self {
            SecurityPolicy::NoSecurity => "None",
            SecurityPolicy::Basic128Rsa15 => "Basic128Rsa15",
            SecurityPolicy::Basic256 => "Basic256",
            SecurityPolicy::Basic256Sha256 => "Basic256Sha256",
        }
    }

    /// Reads a policy from its name. Any text but the four legal names gives
    /// `None`.
    pub fn from_name(name: &str) -> (policy: Option<SecurityPolicy>)
        ensures
            policy == SecurityPolicy::spec_from_name(name@),
    {
        if str_eq(name, "None") {
            Some(SecurityPolicy::NoSecurity)
        } else if str_eq(name, "Basic128Rsa15") {
            Some(SecurityPolicy::Basic128Rsa15)
        } else if str_eq(name, "Basic256") {
            Some(SecurityPolicy::Basic256)
        } else if str_eq(name, "Basic256Sha256") {
            Some(SecurityPolicy::Basic256Sha256)
        } else {
            None
        }
    }

    /// Every policy is read back from its own name.
    pub proof fn lemma_name_round_trip(self)
        ensures
            SecurityPolicy::spec_from_name(self.spec_name()) == Some(self),
    {
        reveal_strlit("None");
        reveal_strlit("Basic128Rsa15");
        reveal_strlit("Basic256");
        reveal_strlit("Basic256Sha256");
        assert("None"@.len() == 4);
        assert("Basic128Rsa15"@.len() == 13);
        assert("Basic256"@.len() == 8);
        assert("Basic256Sha256"@.len() == 14);
    }

    /// A name that is read as a policy is that policy's name.
    pub proof fn lemma_from_name_is_name(name: Seq<char>)
        ensures
            SecurityPolicy::spec_from_name(name) matches Some(policy) ==> policy.spec_name() == name,
    {
    }
}

impl MessageSecurityMode {
    /// The name under which the mode is written in a configuration.
    pub open spec fn spec_name(self) -> Seq<char> {
        match self {
            MessageSecurityMode::NoSecurity => "None"@,
            MessageSecurityMode::Sign => "Sign"@,
            MessageSecurityMode::SignAndEncrypt => "SignAndEncrypt"@,
        }
    }

    /// The mode that a name stands for, if it is one of the three legal names.
    pub open spec fn spec_from_name(name: Seq<char>) -> Option<MessageSecurityMode> {
        if name == "None"@ {
            Some(MessageSecurityMode::NoSecurity)
        } else if name == "Sign"@ {
            Some(MessageSecurityMode::Sign)
        } else if name == "SignAndEncrypt"@ {
            Some(MessageSecurityMode::SignAndEncrypt)
        } else {
            None
        }
    }

    /// The name under which the mode is written in a configuration.
    pub fn name(self) -> (name: &'static str)
        ensures
            name@ == self.spec_name(),
    {
        match self {
            MessageSecurityMode::NoSecurity => "None",
            MessageSecurityMode::Sign => "Sign",
            MessageSecurityMode::SignAndEncrypt => "SignAndEncrypt",
        }
    }

    /// Reads a mode from its name. Any text but the three legal names gives
    /// `None`.
    pub fn from_name(name: &str) -> (mode: Option<MessageSecurityMode>)
        ensures
            mode == MessageSecurityMode::spec_from_name(name@),
    {
        if str_eq(name, "None") {
            Some(MessageSecurityMode::NoSecurity)
        } else if str_eq(name, "Sign") {
            Some(MessageSecurityMode::Sign)
        } else if str_eq(name, "SignAndEncrypt") {
            Some(MessageSecurityMode::SignAndEncrypt)
        } else {
            None
        }
    }

    /// Every mode is read back from its own name.
    pub proof fn lemma_name_round_trip(self)
        ensures
            MessageSecurityMode::spec_from_name(self.spec_name()) == Some(self),
    {
        reveal_strlit("None");
        reveal_strlit("Sign");
        reveal_strlit("SignAndEncrypt");
        assert("None"@[0] == 'N');
        assert("Sign"@[0] == 'S');
        assert("SignAndEncrypt"@.len() == 14);
        assert("Sign"@.len() == 4);
    }

    /// A name that is read as a mode is that mode's name.
    pub proof fn lemma_from_name_is_name(name: Seq<char>)
        ensures
            MessageSecurityMode::spec_from_name(name) matches Some(mode) ==> mode.spec_name() == name,
    {
    }
}

} // verus!
