use opcua_server::text::{opt_string_clone, opt_string_eq, str_eq, text_from_utf8};

#[test]
fn str_eq_compares_characters() {
    assert!(str_eq("", ""));
    assert!(str_eq("None", "None"));
    assert!(!str_eq("None", "none"));
    assert!(!str_eq("None", "Non"));
    assert!(!str_eq("Non", "None"));
    assert!(!str_eq("", "x"));
    assert!(str_eq("gr\u{fc}n", "gr\u{fc}n"));
    assert!(!str_eq("gr\u{fc}n", "grun"));
}

#[test]
fn opt_string_eq_compares_presence_and_text() {
    let a = Some("a".to_string());
    let b = Some("b".to_string());
    assert!(opt_string_eq(&a, &Some("a".to_string())));
    assert!(!opt_string_eq(&a, &b));
    assert!(!opt_string_eq(&a, &None));
    assert!(!opt_string_eq(&None, &b));
    assert!(opt_string_eq(&None, &None));
    assert!(!opt_string_eq(&Some(String::new()), &None));
}

#[test]
fn opt_string_clone_copies() {
    assert_eq!(opt_string_clone(&Some("abc".to_string())), Some("abc".to_string()));
    assert_eq!(opt_string_clone(&None), None);
}

#[test]
fn text_from_utf8_reads_well_formed_bytes() {
    assert_eq!(text_from_utf8(b""), Some(String::new()));
    assert_eq!(text_from_utf8(b"sample1"), Some("sample1".to_string()));
    assert_eq!(text_from_utf8(&[0xe2, 0x82, 0xac]), Some("\u{20ac}".to_string()));
    assert_eq!(text_from_utf8(&[0xf0, 0x9f, 0x94, 0x91]), Some("\u{1f511}".to_string()));
}

#[test]
fn text_from_utf8_refuses_ill_formed_bytes() {
    assert_eq!(text_from_utf8(&[0xff]), None);
    assert_eq!(text_from_utf8(&[0x61, 0x80]), None);
    assert_eq!(text_from_utf8(&[0xe2, 0x82]), None);
    assert_eq!(text_from_utf8(&[0xc0, 0xaf]), None);
    assert_eq!(text_from_utf8(&[0xed, 0xa0, 0x80]), None);
    assert_eq!(text_from_utf8(&[0xf4, 0x90, 0x80, 0x80]), None);
}
