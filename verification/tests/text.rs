use schminput::text::{decimal_string, split_once, str_eq, strip_prefix};

#[test]
fn strip_prefix_agrees_with_std() {
    let cases = [
        ("/gamepad/0", "/gamepad"),
        ("/gamepad", "/gamepad"),
        ("/game", "/gamepad"),
        ("", "/gamepad"),
        ("abc", ""),
        ("/keyboard/a", "/gamepad"),
        ("/gamepäd/ü", "/gamep"),
    ];
    for (s, prefix) in cases {
        assert_eq!(strip_prefix(s, prefix), s.strip_prefix(prefix), "{s} {prefix}");
    }
}

#[test]
fn split_once_agrees_with_std() {
    for s in ["0/thumbstick/left", "*", "", "/", "a/", "/b", "ü/ö/ä"] {
        assert_eq!(split_once(s, '/'), s.split_once('/'), "{s}");
    }
}

#[test]
fn str_eq_compares_characters() {
    assert!(str_eq("dpad", "dpad"));
    assert!(str_eq("", ""));
    assert!(!str_eq("dpad", "dpa"));
    assert!(!str_eq("dpad", "dpab"));
    assert!(!str_eq("", "x"));
}

#[test]
fn decimal_string_writes_every_byte() {
    assert_eq!(decimal_string(0), "0");
    assert_eq!(decimal_string(9), "9");
    assert_eq!(decimal_string(10), "10");
    assert_eq!(decimal_string(99), "99");
    assert_eq!(decimal_string(100), "100");
    assert_eq!(decimal_string(255), "255");
    for n in 0..=255u8 {
        assert_eq!(decimal_string(n), n.to_string());
    }
}
