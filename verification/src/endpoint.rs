//! One endpoint of the server: a path a client may connect through, the
//! security it asks for and the ways a client may identify itself; and the
//! rules that say when an endpoint is legal.

use vstd::prelude::*;
use vstd::std_specs::cmp::PartialEqSpecImpl;
use vstd::utf8::{decode_utf8, valid_utf8};
use crate::security::{name_none, MessageSecurityMode, SecurityPolicy};
use crate::text::{opt_string_clone, opt_string_eq, opt_text, str_eq, text_from_utf8};

verus! {

broadcast use vstd::utf8::encode_utf8_valid_utf8;

/// One access path of the server, as written in a configuration.
///
/// The security policy and mode are kept as the names they were written
/// with, so that an illegal name can be held and reported.
#[derive(Debug)]
pub struct ServerEndpoint {
    /// Name for the endpoint
    pub name: String,
    /// Endpoint path
    pub path: String,
    /// Security policy
    pub security_policy: String,
    /// Security mode
    pub security_mode: String,
    /// Allow anonymous access (absent means no)
    pub anonymous: Option<bool>,
    /// User name, where access by user name and password is allowed
    pub user: Option<String>,
    /// Password that goes with the user name
    pub pass: Option<String>,
}

/// What an endpoint holds, as mathematical values.
pub struct ServerEndpointView {
    pub name: Seq<char>,
    pub path: Seq<char>,
    pub security_policy: Seq<char>,
    pub security_mode: Seq<char>,
    pub anonymous: Option<bool>,
    pub user: Option<Seq<char>>,
    pub pass: Option<Seq<char>>,
}

impl View for ServerEndpoint {
    type V = ServerEndpointView;

    open spec fn view(&self) -> ServerEndpointView {
        ServerEndpointView {
            name: self.name@,
            path: self.path@,
            security_policy: self.security_policy@,
            security_mode: self.security_mode@,
            anonymous: self.anonymous,
            user: opt_text(self.user),
            pass: opt_text(self.pass),
        }
    }
}

/// A rule that an endpoint breaks.
#[derive(Clone, Copy, Debug, PartialEq, Eq, Structural)]
pub enum EndpointViolation {
    /// Only one of user name and password is set.
    IncompleteCredentials,
    /// The security policy is none of the legal names.
    UnknownSecurityPolicy,
    /// The security mode is none of the legal names.
    UnknownSecurityMode,
    /// One of policy and mode says "no security" and the other does not.
    SecurityMismatch,
    /// Policy and mode say "no security", yet anonymous access is not enabled.
    AnonymousNotEnabled,
}

/// The one-element list of `violation` if `broken`, else the empty list.
pub open spec fn reported<T>(broken: bool, violation: T) -> Seq<T> {
    if broken {
        seq![violation]
    } else {
        Seq::empty()
    }
}

impl ServerEndpointView {
    /// User name and password are both set or both unset.
    pub open spec fn credentials_paired(self) -> bool {
        self.user is Some <==> self.pass is Some
    }

    /// The security policy, where its name is legal.
    pub open spec fn policy(self) -> Option<SecurityPolicy> {
        SecurityPolicy::spec_from_name(self.security_policy)
    }

    /// The security mode, where its name is legal.
    pub open spec fn mode(self) -> Option<MessageSecurityMode> {
        MessageSecurityMode::spec_from_name(self.security_mode)
    }

    /// The policy says "no security".
    pub open spec fn no_policy(self) -> bool {
        self.security_policy == name_none()
    }

    /// The mode says "no security".
    pub open spec fn no_mode(self) -> bool {
        self.security_mode == name_none()
    }

    /// Policy and mode agree on whether there is security.
    pub open spec fn security_agrees(self) -> bool {
        self.no_policy() <==> self.no_mode()
    }

    /// Without any security, anonymous access is enabled.
    pub open spec fn anonymous_where_unsecured(self) -> bool {
        self.no_policy() && self.no_mode() ==> self.anonymous == Some(true)
    }

    /// The endpoint keeps every rule.
    pub open spec fn valid(self) -> bool {
        &&& self.credentials_paired()
        &&& self.policy() is Some
        &&& self.mode() is Some
        &&& self.security_agrees()
        &&& self.anonymous_where_unsecured()
    }

    /// The rules that the endpoint breaks, each once, in the order in which
    /// they are checked.
    pub open spec fn violations(self) -> Seq<EndpointViolation> {
        reported(!self.credentials_paired(), EndpointViolation::IncompleteCredentials)
            + reported(self.policy() is None, EndpointViolation::UnknownSecurityPolicy)
            + reported(self.mode() is None, EndpointViolation::UnknownSecurityMode)
            + reported(!self.security_agrees(), EndpointViolation::SecurityMismatch)
            + reported(!self.anonymous_where_unsecured(), EndpointViolation::AnonymousNotEnabled)
    }

    /// The endpoint that `ServerEndpoint::new` makes of its arguments: the
    /// password is read from `pass` as UTF-8, and both user name and password
    /// are left out where the user name is empty.
    pub open spec fn spec_new(
        name: Seq<char>,
        path: Seq<char>,
        anonymous: bool,
        user: Seq<char>,
        pass: Seq<u8>,
        security_policy: Seq<char>,
        security_mode: Seq<char>,
    ) -> ServerEndpointView {
        ServerEndpointView {
            name,
            path,
            security_policy,
            security_mode,
            anonymous: Some(anonymous),
            user: if user.len() == 0 { None } else { Some(user) },
            pass: if user.len() == 0 { None } else { Some(decode_utf8(pass)) },
        }
    }

    /// The endpoint with the default name and path.
    pub open spec fn spec_new_default(
        anonymous: bool,
        user: Seq<char>,
        pass: Seq<u8>,
        security_policy: Seq<char>,
        security_mode: Seq<char>,
    ) -> ServerEndpointView {
        Self::spec_new("Default"@, "/"@, anonymous, user, pass, security_policy, security_mode)
    }

    /// An endpoint keeps every rule exactly when the list of the rules it
    /// breaks is empty.
    pub proof fn lemma_valid_iff_no_violations(self)
        ensures
            self.valid() <==> self.violations().len() == 0,
    {
    }

    /// The list of broken rules holds a rule exactly when the endpoint
    /// breaks it, and holds it once.
    pub proof fn lemma_violations_complete(self, violation: EndpointViolation)
        ensures
            self.violations().contains(violation) <==> match violation {
                EndpointViolation::IncompleteCredentials => !self.credentials_paired(),
                EndpointViolation::UnknownSecurityPolicy => self.policy() is None,
                EndpointViolation::UnknownSecurityMode => self.mode() is None,
                EndpointViolation::SecurityMismatch => !self.security_agrees(),
                EndpointViolation::AnonymousNotEnabled => !self.anonymous_where_unsecured(),
            },
            self.violations().no_duplicates(),
    {
        let a = reported(!self.credentials_paired(), EndpointViolation::IncompleteCredentials);
        let b = reported(self.policy() is None, EndpointViolation::UnknownSecurityPolicy);
        let c = reported(self.mode() is None, EndpointViolation::UnknownSecurityMode);
        let d = reported(!self.security_agrees(), EndpointViolation::SecurityMismatch);
        let e = reported(!self.anonymous_where_unsecured(), EndpointViolation::AnonymousNotEnabled);
        let all = self.violations();
        let (na, nb, nc, nd) = (a.len() as int, b.len() as int, c.len() as int, d.len() as int);
        assert(all == a + b + c + d + e);
        if a.len() > 0 {
            assert(all[0] == a[0]);
        }
        if b.len() > 0 {
            assert(all[na] == b[0]);
        }
        if c.len() > 0 {
            assert(all[na + nb] == c[0]);
        }
        if d.len() > 0 {
            assert(all[na + nb + nc] == d[0]);
        }
        if e.len() > 0 {
            assert(all[na + nb + nc + nd] == e[0]);
        }
    }
}

impl ServerEndpoint {
    /// An endpoint with the given name, path and security. Anonymous access
    /// is set as given. With an empty user name the endpoint has neither user
    /// name nor password, whatever `pass` holds; else it has both, the
    /// password being `pass` read as UTF-8.
    ///
    /// `pass` must be well-formed UTF-8 where a user name is given.
    pub fn new(
        name: &str,
        path: &str,
        anonymous: bool,
        user: &str,
        pass: &[u8],
        security_policy: &str,
        security_mode: &str,
    ) -> (endpoint: ServerEndpoint)
        requires
            user@.len() > 0 ==> valid_utf8(pass@),
        ensures
            endpoint@ == ServerEndpointView::spec_new(
                name@,
                path@,
                anonymous,
                user@,
                pass@,
                security_policy@,
                security_mode@,
            ),
            endpoint@.credentials_paired(),
    {
        let (user, pass) = if user.is_empty() {
            (None, None)
        } else {
            (Some(user.to_owned()), text_from_utf8(pass))
        };
        ServerEndpoint {
            name: name.to_owned(),
            path: path.to_owned(),
            anonymous: Some(anonymous),
            user,
            pass,
            security_policy: security_policy.to_owned(),
            security_mode: security_mode.to_owned(),
        }
    }

    /// An endpoint named "Default" at the path "/".
    ///
    /// `pass` must be well-formed UTF-8 where a user name is given.
    pub fn new_default(
        anonymous: bool,
        user: &str,
        pass: &[u8],
        security_policy: &str,
        security_mode: &str,
    ) -> (endpoint: ServerEndpoint)
        requires
            user@.len() > 0 ==> valid_utf8(pass@),
        ensures
            endpoint@ == ServerEndpointView::spec_new_default(
                anonymous,
                user@,
                pass@,
                security_policy@,
                security_mode@,
            ),
            endpoint@.credentials_paired(),
    {
        ServerEndpoint::new("Default", "/", anonymous, user, pass, security_policy, security_mode)
    }

    /// The default endpoint with no security, open to anonymous clients only.
    /// It keeps every rule.
    pub fn default_anonymous() -> (endpoint: ServerEndpoint)
        ensures
            endpoint@ == (ServerEndpointView {
                name: "Default"@,
                path: "/"@,
                security_policy: "None"@,
                security_mode: "None"@,
                anonymous: Some(true),
                user: None,
                pass: None,
            }),
            endpoint@.valid(),
    {
        let pass: [u8; 0] = [];
        let endpoint = ServerEndpoint::new_default(true, "", pass.as_slice(), "None", "None");
        proof {
            reveal_strlit("");
            reveal_strlit("None");
        }
        endpoint
    }

    /// The default endpoint with no security, for one user with a password
    /// and closed to anonymous clients.
    ///
    /// As it stands such an endpoint breaks one rule, and that one only:
    /// without security, anonymous access has to be enabled.
    ///
    /// `pass` must be well-formed UTF-8 where a user name is given.
    pub fn default_user_pass(user: &str, pass: &[u8]) -> (endpoint: ServerEndpoint)
        requires
            user@.len() > 0 ==> valid_utf8(pass@),
        ensures
            endpoint@ == ServerEndpointView::spec_new_default(
                false,
                user@,
                pass@,
                "None"@,
                "None"@,
            ),
            endpoint@.violations() == seq![EndpointViolation::AnonymousNotEnabled],
    {
        let endpoint = ServerEndpoint::new_default(false, user, pass, "None", "None");
        proof {
            reveal_strlit("None");
        }
        endpoint
    }

    /// An endpoint for sample code that wants everything available: no
    /// security, anonymous access, and the user "sample" with the password
    /// "sample1". It keeps every rule, and is not for production use.
    pub fn default_sample() -> (endpoint: ServerEndpoint)
        ensures
            endpoint@ == (ServerEndpointView {
                name: "Default"@,
                path: "/"@,
                security_policy: "None"@,
                security_mode: "None"@,
                anonymous: Some(true),
                user: Some("sample"@),
                pass: Some("sample1"@),
            }),
            endpoint@.valid(),
    {
        let endpoint = ServerEndpoint::new_default(
            true,
            "sample",
            "sample1".as_bytes(),
            "None",
            "None",
        );
        proof {
            reveal_strlit("sample");
            reveal_strlit("None");
            vstd::utf8::encode_utf8_decode_utf8("sample1"@);
        }
        endpoint
    }

    /// The security policy of the endpoint, where its name is legal.
    pub fn policy(&self) -> (policy: Option<SecurityPolicy>)
        ensures
            policy == self@.policy(),
    {
        SecurityPolicy::from_name(self.security_policy.as_str())
    }

    /// The security mode of the endpoint, where its name is legal.
    pub fn mode(&self) -> (mode: Option<MessageSecurityMode>)
        ensures
            mode == self@.mode(),
    {
        MessageSecurityMode::from_name(self.security_mode.as_str())
    }

    /// The rules that the endpoint breaks: every one of them, not the first
    /// only, each once and in the order in which they are checked.
    pub fn violations(&self) -> (found: Vec<EndpointViolation>)
        ensures
            found@ == self@.violations(),
    {
        let no_policy = str_eq(self.security_policy.as_str(), "None");
        let no_mode = str_eq(self.security_mode.as_str(), "None");
        let mut found: Vec<EndpointViolation> = Vec::new();
        if self.user.is_some() != self.pass.is_some() {
            found.push(EndpointViolation::IncompleteCredentials);
        }
        if self.policy().is_none() {
            found.push(EndpointViolation::UnknownSecurityPolicy);
        }
        if self.mode().is_none() {
            found.push(EndpointViolation::UnknownSecurityMode);
        }
        if no_policy != no_mode {
            found.push(EndpointViolation::SecurityMismatch);
        }
        if no_policy && no_mode && !matches!(self.anonymous, Some(true)) {
            found.push(EndpointViolation::AnonymousNotEnabled);
        }
        found
    }

    /// Whether the endpoint keeps every rule: user name and password are
    /// both set or both unset, policy and mode are legal names that agree on
    /// whether there is security, and without security anonymous access is
    /// enabled.
    pub fn is_valid(&self) -> (valid: bool)
        ensures
            valid == self@.valid(),
            valid == (self@.violations().len() == 0),
            (self@.user is Some) != (self@.pass is Some) ==> !valid,
            self@.security_policy == "None"@ && self@.security_mode != "None"@ ==> !valid,
            self@.security_policy == "None"@ && self@.security_mode == "None"@
                && self@.anonymous != Some(true) ==> !valid,
    {
        let no_policy = str_eq(self.security_policy.as_str(), "None");
        let no_mode = str_eq(self.security_mode.as_str(), "None");
        let mut valid = true;
        if self.user.is_some() != self.pass.is_some() {
            valid = false;
        }
        if self.policy().is_none() {
            valid = false;
        }
        if self.mode().is_none() {
            valid = false;
        }
        if no_policy != no_mode {
            valid = false;
        }
        if no_policy && no_mode && !matches!(self.anonymous, Some(true)) {
            valid = false;
        }
        valid
    }
}

impl PartialEq for ServerEndpoint {
    /// Two endpoints are equal when all their fields are.
    fn eq(&self, other: &ServerEndpoint) -> (same: bool) {
        let anonymous_same = match (self.anonymous, other.anonymous) {
            (Some(a), Some(b)) => a == b,
            (None, None) => true,
            _ => false,
        };
        str_eq(self.name.as_str(), other.name.as_str())
            && str_eq(self.path.as_str(), other.path.as_str())
            && str_eq(self.security_policy.as_str(), other.security_policy.as_str())
            && str_eq(self.security_mode.as_str(), other.security_mode.as_str())
            && anonymous_same
            && opt_string_eq(&self.user, &other.user)
            && opt_string_eq(&self.pass, &other.pass)
    }
}

impl PartialEqSpecImpl for ServerEndpoint {
    open spec fn obeys_eq_spec() -> bool {
        true
    }

    open spec fn eq_spec(&self, other: &ServerEndpoint) -> bool {
        self@ == other@
    }
}

impl Clone for ServerEndpoint {
    fn clone(&self) -> (copy: ServerEndpoint)
        ensures
            copy@ == self@,
    {
        ServerEndpoint {
            name: self.name.clone(),
            path: self.path.clone(),
            security_policy: self.security_policy.clone(),
            security_mode: self.security_mode.clone(),
            anonymous: self.anonymous,
            user: opt_string_clone(&self.user),
            pass: opt_string_clone(&self.pass),
        }
    }
}

} // verus!
