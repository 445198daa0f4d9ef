use opcua_server::security::{MessageSecurityMode, SecurityPolicy};

#[test]
fn policy_names() {
    assert_eq!(SecurityPolicy::NoSecurity.name(), "None");
    assert_eq!(SecurityPolicy::Basic128Rsa15.name(), "Basic128Rsa15");
    assert_eq!(SecurityPolicy::Basic256.name(), "Basic256");
    assert_eq!(SecurityPolicy::Basic256Sha256.name(), "Basic256Sha256");
}

#[test]
fn policy_from_name() {
    assert_eq!(SecurityPolicy::from_name("None"), Some(SecurityPolicy::NoSecurity));
    assert_eq!(SecurityPolicy::from_name("Basic128Rsa15"), Some(SecurityPolicy::Basic128Rsa15));
    assert_eq!(SecurityPolicy::from_name("Basic256"), Some(SecurityPolicy::Basic256));
    assert_eq!(SecurityPolicy::from_name("Basic256Sha256"), Some(SecurityPolicy::Basic256Sha256));
}

#[test]
fn policy_from_other_text() {
    for name in ["", "none", "NONE", "Basic", "Basic256 ", " Basic256", "Basic256Sha25", "Sign"] {
        assert_eq!(SecurityPolicy::from_name(name), None);
    }
}

#[test]
fn policy_name_round_trip() {
    let all = [
        SecurityPolicy::NoSecurity,
        SecurityPolicy::Basic128Rsa15,
        SecurityPolicy::Basic256,
        SecurityPolicy::Basic256Sha256,
    ];
    for policy in all {
        assert_eq!(SecurityPolicy::from_name(policy.name()), Some(policy));
    }
}

#[test]
fn mode_names() {
    assert_eq!(MessageSecurityMode::NoSecurity.name(), "None");
    assert_eq!(MessageSecurityMode::Sign.name(), "Sign");
    assert_eq!(MessageSecurityMode::SignAndEncrypt.name(), "SignAndEncrypt");
}

#[test]
fn mode_from_name() {
    assert_eq!(MessageSecurityMode::from_name("None"), Some(MessageSecurityMode::NoSecurity));
    assert_eq!(MessageSecurityMode::from_name("Sign"), Some(MessageSecurityMode::Sign));
    assert_eq!(
        MessageSecurityMode::from_name("SignAndEncrypt"),
        Some(MessageSecurityMode::SignAndEncrypt)
    );
}

#[test]
fn mode_from_other_text() {
    for name in ["", "none", "sign", "Signed", "SignAndEncrypt2", "Basic256", "Sign\n"] {
        assert_eq!(MessageSecurityMode::from_name(name), None);
    }
}

#[test]
fn mode_name_round_trip() {
    let all = [
        MessageSecurityMode::NoSecurity,
        MessageSecurityMode::Sign,
        MessageSecurityMode::SignAndEncrypt,
    ];
    for mode in all {
        assert_eq!(MessageSecurityMode::from_name(mode.name()), Some(mode));
    }
}
