use opcua_server::endpoint::{EndpointViolation, ServerEndpoint};
use opcua_server::security::{MessageSecurityMode, SecurityPolicy};

fn endpoint(
    policy: &str,
    mode: &str,
    anonymous: Option<bool>,
    user: Option<&str>,
    pass: Option<&str>,
) -> ServerEndpoint {
    ServerEndpoint {
        name: "Test".to_string(),
        path: "/test".to_string(),
        security_policy: policy.to_string(),
        security_mode: mode.to_string(),
        anonymous,
        user: user.map(|u| u.to_string()),
        pass: pass.map(|p| p.to_string()),
    }
}

#[test]
fn new_sets_every_field() {
    let e = ServerEndpoint::new("Main", "/main", false, "alice", b"secret", "Basic256", "Sign");
    assert_eq!(e.name, "Main");
    assert_eq!(e.path, "/main");
    assert_eq!(e.anonymous, Some(false));
    assert_eq!(e.user, Some("alice".to_string()));
    assert_eq!(e.pass, Some("secret".to_string()));
    assert_eq!(e.security_policy, "Basic256");
    assert_eq!(e.security_mode, "Sign");
}

#[test]
fn new_without_user_has_no_credentials() {
    let e = ServerEndpoint::new("Main", "/main", true, "", b"ignored", "None", "None");
    assert_eq!(e.user, None);
    assert_eq!(e.pass, None);
    assert_eq!(e.anonymous, Some(true));
}

#[test]
fn new_without_user_takes_any_bytes() {
    let e = ServerEndpoint::new("Main", "/main", true, "", &[0xff, 0xfe], "None", "None");
    assert_eq!(e.user, None);
    assert_eq!(e.pass, None);
}

#[test]
fn new_reads_the_password_as_utf8() {
    let bytes = [0x70, 0xc3, 0xa4, 0x73, 0x73, 0xe2, 0x82, 0xac];
    let e = ServerEndpoint::new("Main", "/main", false, "bob", &bytes, "None", "None");
    assert_eq!(e.pass, Some("p\u{e4}ss\u{20ac}".to_string()));
    assert_eq!(e.pass.as_ref().map(|p| p.chars().count()), Some(5));
}

#[test]
fn new_with_user_and_empty_password() {
    let e = ServerEndpoint::new("Main", "/main", false, "bob", b"", "None", "None");
    assert_eq!(e.user, Some("bob".to_string()));
    assert_eq!(e.pass, Some(String::new()));
}

#[test]
fn new_default_is_named_default_at_root() {
    let e = ServerEndpoint::new_default(true, "carol", b"pw", "Basic128Rsa15", "SignAndEncrypt");
    assert_eq!(e.name, "Default");
    assert_eq!(e.path, "/");
    assert_eq!(e.anonymous, Some(true));
    assert_eq!(e.user, Some("carol".to_string()));
    assert_eq!(e.pass, Some("pw".to_string()));
    assert_eq!(e.security_policy, "Basic128Rsa15");
    assert_eq!(e.security_mode, "SignAndEncrypt");
}

#[test]
fn endpoint_default_anonymous() {
    let e = ServerEndpoint::default_anonymous();
    assert_eq!(e.name, "Default");
    assert_eq!(e.path, "/");
    assert_eq!(e.security_policy, "None");
    assert_eq!(e.security_mode, "None");
    assert_eq!(e.anonymous, Some(true));
    assert_eq!(e.user, None);
    assert_eq!(e.pass, None);
    assert!(e.is_valid());
    assert_eq!(e.violations(), vec![]);
}

#[test]
fn endpoint_default_user_pass() {
    let e = ServerEndpoint::default_user_pass("dave", b"hunter2");
    assert_eq!(e.name, "Default");
    assert_eq!(e.path, "/");
    assert_eq!(e.security_policy, "None");
    assert_eq!(e.security_mode, "None");
    assert_eq!(e.anonymous, Some(false));
    assert_eq!(e.user, Some("dave".to_string()));
    assert_eq!(e.pass, Some("hunter2".to_string()));
    assert!(!e.is_valid());
    assert_eq!(e.violations(), vec![EndpointViolation::AnonymousNotEnabled]);
}

#[test]
fn endpoint_default_sample() {
    let e = ServerEndpoint::default_sample();
    assert_eq!(e.name, "Default");
    assert_eq!(e.path, "/");
    assert_eq!(e.security_policy, "None");
    assert_eq!(e.security_mode, "None");
    assert_eq!(e.anonymous, Some(true));
    assert_eq!(e.user, Some("sample".to_string()));
    assert_eq!(e.pass, Some("sample1".to_string()));
    assert!(e.is_valid());
}

#[test]
fn user_without_password_is_invalid() {
    let e = endpoint("None", "None", Some(true), Some("alice"), None);
    assert!(!e.is_valid());
    assert_eq!(e.violations(), vec![EndpointViolation::IncompleteCredentials]);
}

#[test]
fn password_without_user_is_invalid() {
    let e = endpoint("None", "None", Some(true), None, Some("secret"));
    assert!(!e.is_valid());
    assert_eq!(e.violations(), vec![EndpointViolation::IncompleteCredentials]);
}

#[test]
fn unpaired_credentials_are_invalid_under_any_security() {
    let e = endpoint("Basic256Sha256", "SignAndEncrypt", None, Some("alice"), None);
    assert!(!e.is_valid());
    assert_eq!(e.violations(), vec![EndpointViolation::IncompleteCredentials]);
}

#[test]
fn no_policy_with_a_mode_is_invalid() {
    for mode in ["Sign", "SignAndEncrypt"] {
        let e = endpoint("None", mode, Some(true), None, None);
        assert!(!e.is_valid());
        assert_eq!(e.violations(), vec![EndpointViolation::SecurityMismatch]);
    }
}

#[test]
fn a_policy_with_no_mode_is_invalid() {
    let e = endpoint("Basic256", "None", Some(true), None, None);
    assert!(!e.is_valid());
    assert_eq!(e.violations(), vec![EndpointViolation::SecurityMismatch]);
    for policy in ["Basic128Rsa15", "Basic256Sha256"] {
        assert!(!endpoint(policy, "None", Some(true), None, None).is_valid());
    }
}

#[test]
fn no_security_without_anonymous_is_invalid() {
    for anonymous in [None, Some(false)] {
        let e = endpoint("None", "None", anonymous, Some("alice"), Some("secret"));
        assert!(!e.is_valid());
        assert_eq!(e.violations(), vec![EndpointViolation::AnonymousNotEnabled]);
    }
}

#[test]
fn no_security_with_anonymous_is_valid() {
    assert!(endpoint("None", "None", Some(true), None, None).is_valid());
    assert!(endpoint("None", "None", Some(true), Some("alice"), Some("secret")).is_valid());
}

#[test]
fn secured_endpoints_need_no_anonymous_access() {
    for policy in ["Basic128Rsa15", "Basic256", "Basic256Sha256"] {
        for mode in ["Sign", "SignAndEncrypt"] {
            for anonymous in [None, Some(false), Some(true)] {
                let e = endpoint(policy, mode, anonymous, Some("alice"), Some("secret"));
                assert!(e.is_valid());
                assert_eq!(e.violations(), vec![]);
            }
        }
    }
}

#[test]
fn unknown_policy_is_invalid() {
    let e = endpoint("Basic512", "Sign", None, None, None);
    assert!(!e.is_valid());
    assert_eq!(e.violations(), vec![EndpointViolation::UnknownSecurityPolicy]);
}

#[test]
fn unknown_mode_is_invalid() {
    let e = endpoint("Basic256", "Encrypt", None, None, None);
    assert!(!e.is_valid());
    assert_eq!(e.violations(), vec![EndpointViolation::UnknownSecurityMode]);
}

#[test]
fn names_are_matched_by_case() {
    let e = endpoint("none", "none", Some(true), None, None);
    assert!(!e.is_valid());
    assert_eq!(
        e.violations(),
        vec![EndpointViolation::UnknownSecurityPolicy, EndpointViolation::UnknownSecurityMode]
    );
    assert!(!endpoint("", "", Some(true), None, None).is_valid());
}

#[test]
fn every_broken_rule_is_reported_in_order() {
    let e = endpoint("None", "Bogus", None, Some("alice"), None);
    assert!(!e.is_valid());
    assert_eq!(
        e.violations(),
        vec![
            EndpointViolation::IncompleteCredentials,
            EndpointViolation::UnknownSecurityMode,
            EndpointViolation::SecurityMismatch,
        ]
    );
    let e = endpoint("Bogus", "None", Some(false), None, Some("secret"));
    assert_eq!(
        e.violations(),
        vec![
            EndpointViolation::IncompleteCredentials,
            EndpointViolation::UnknownSecurityPolicy,
            EndpointViolation::SecurityMismatch,
        ]
    );
    let e = endpoint("None", "None", Some(false), Some("alice"), None);
    assert_eq!(
        e.violations(),
        vec![EndpointViolation::IncompleteCredentials, EndpointViolation::AnonymousNotEnabled]
    );
    let e = endpoint("Bogus", "Bogus", None, None, Some("secret"));
    assert_eq!(
        e.violations(),
        vec![
            EndpointViolation::IncompleteCredentials,
            EndpointViolation::UnknownSecurityPolicy,
            EndpointViolation::UnknownSecurityMode,
        ]
    );
}

#[test]
fn is_valid_agrees_with_violations() {
    let policies = ["None", "Basic128Rsa15", "Basic256", "Basic256Sha256", "Other"];
    let modes = ["None", "Sign", "SignAndEncrypt", "Other"];
    let mut seen: usize = 0;
    for policy in policies {
        for mode in modes {
            for anonymous in [None, Some(false), Some(true)] {
                for user in [None, Some("u")] {
                    for pass in [None, Some("p")] {
                        let e = endpoint(policy, mode, anonymous, user, pass);
                        assert_eq!(e.is_valid(), e.violations().is_empty());
                        seen += 1;
                    }
                }
            }
        }
    }
    assert_eq!(seen, 240);
}

#[test]
fn endpoint_policy_and_mode() {
    let e = endpoint("Basic256Sha256", "SignAndEncrypt", None, None, None);
    assert_eq!(e.policy(), Some(SecurityPolicy::Basic256Sha256));
    assert_eq!(e.mode(), Some(MessageSecurityMode::SignAndEncrypt));
    let e = endpoint("None", "None", Some(true), None, None);
    assert_eq!(e.policy(), Some(SecurityPolicy::NoSecurity));
    assert_eq!(e.mode(), Some(MessageSecurityMode::NoSecurity));
    let e = endpoint("Sign", "Basic256", None, None, None);
    assert_eq!(e.policy(), None);
    assert_eq!(e.mode(), None);
}

#[test]
fn endpoints_are_equal_field_by_field() {
    let a = endpoint("None", "None", Some(true), Some("alice"), Some("secret"));
    assert_eq!(a, endpoint("None", "None", Some(true), Some("alice"), Some("secret")));
    assert_ne!(a, endpoint("Basic256", "None", Some(true), Some("alice"), Some("secret")));
    assert_ne!(a, endpoint("None", "Sign", Some(true), Some("alice"), Some("secret")));
    assert_ne!(a, endpoint("None", "None", Some(false), Some("alice"), Some("secret")));
    assert_ne!(a, endpoint("None", "None", None, Some("alice"), Some("secret")));
    assert_ne!(a, endpoint("None", "None", Some(true), Some("bob"), Some("secret")));
    assert_ne!(a, endpoint("None", "None", Some(true), None, Some("secret")));
    assert_ne!(a, endpoint("None", "None", Some(true), Some("alice"), Some("other")));
    assert_ne!(a, endpoint("None", "None", Some(true), Some("alice"), None));
    let mut b = endpoint("None", "None", Some(true), Some("alice"), Some("secret"));
    b.name = "Other".to_string();
    assert_ne!(a, b);
    let mut c = endpoint("None", "None", Some(true), Some("alice"), Some("secret"));
    c.path = "/other".to_string();
    assert_ne!(a, c);
}

#[test]
fn endpoint_clone_is_equal() {
    let a = endpoint("Basic256", "Sign", Some(false), Some("alice"), Some("secret"));
    let b = a.clone();
    assert_eq!(a, b);
    assert_eq!(b.user, Some("alice".to_string()));
    let c = endpoint("None", "None", None, None, None);
    assert_eq!(c.clone(), c);
}
