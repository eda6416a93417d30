use native_api_1c::ffi::string_utils::{
    from_os_string, get_str, os_string, os_string_nil, str_equal, units_equal,
};

fn std_units(s: &str) -> Vec<u16> {
    s.encode_utf16().collect()
}

#[test]
fn os_string_encodes_as_std_does() {
    for s in ["", "a", "Hello", "Привет", "a\u{0}b", "\u{FFFF}", "\u{10000}", "\u{1F600}x\u{10FFFF}"] {
        assert_eq!(os_string(s), std_units(s), "{:?}", s);
    }
}

#[test]
fn os_string_exact_units() {
    assert_eq!(os_string("hi"), vec![0x68, 0x69]);
    assert_eq!(os_string("\u{1F600}"), vec![0xD83D, 0xDE00]);
    assert_eq!(os_string("\u{10000}"), vec![0xD800, 0xDC00]);
    assert_eq!(os_string("\u{10FFFF}"), vec![0xDBFF, 0xDFFF]);
    assert_eq!(os_string("\u{FFFF}"), vec![0xFFFF]);
}

#[test]
fn os_string_has_no_terminator() {
    assert_eq!(os_string(""), Vec::<u16>::new());
    assert_eq!(os_string("1C").len(), 2);
}

#[test]
fn os_string_nil_appends_one_terminator() {
    assert_eq!(os_string_nil(""), vec![0]);
    assert_eq!(os_string_nil("hi"), vec![0x68, 0x69, 0]);
    let mut expected = std_units("МоеСвойство");
    expected.push(0);
    assert_eq!(os_string_nil("МоеСвойство"), expected);
}

#[test]
fn from_os_string_decodes_as_std_does() {
    let inputs: Vec<Vec<u16>> = vec![
        vec![],
        vec![0x68, 0x69],
        vec![0xD83D, 0xDE00],
        vec![0xD800],
        vec![0xDC00],
        vec![0xD800, 0x41],
        vec![0xD800, 0xD800, 0xDC00],
        vec![0xDC00, 0xD800],
        vec![0xDBFF, 0xDFFF, 0x61],
        vec![0x41, 0xDFFF, 0x42],
    ];
    for units in inputs {
        let expected = String::from_utf16_lossy(&units);
        assert_eq!(from_os_string(&units), expected, "{:?}", units);
    }
}

#[test]
fn from_os_string_replaces_lone_surrogates() {
    assert_eq!(from_os_string(&[0xD800]), "\u{FFFD}");
    assert_eq!(from_os_string(&[0x61, 0xDC00, 0x62]), "a\u{FFFD}b");
    assert_eq!(from_os_string(&[0xD800, 0x41]), "\u{FFFD}A");
}

#[test]
fn from_os_string_drops_trailing_zeros_only() {
    assert_eq!(from_os_string(&[0x68, 0x69, 0]), "hi");
    assert_eq!(from_os_string(&[0x68, 0x69, 0, 0, 0]), "hi");
    assert_eq!(from_os_string(&[0, 0]), "");
    assert_eq!(from_os_string(&[0x68, 0, 0x69]), "h\u{0}i");
    assert_eq!(from_os_string(&[0, 0x68]), "\u{0}h");
}

#[test]
fn from_os_string_undoes_os_string_nil() {
    for s in ["", "MyProp", "Свойство", "\u{1F600}"] {
        assert_eq!(from_os_string(&os_string_nil(s)), s);
        assert_eq!(from_os_string(&os_string(s)), s);
    }
}

#[test]
fn get_str_takes_through_the_terminator() {
    assert_eq!(get_str(&[0x61, 0x62, 0, 0x63, 0]), &[0x61, 0x62, 0]);
    assert_eq!(get_str(&[0, 0x61]), &[0]);
    assert_eq!(get_str(&[0x61, 0]), &[0x61, 0]);
}

#[test]
fn get_str_without_terminator_is_everything() {
    assert_eq!(get_str(&[0x61, 0x62]), &[0x61, 0x62]);
    assert_eq!(get_str(&[]), &[] as &[u16]);
}

#[test]
fn units_equal_compares_contents() {
    assert!(units_equal(&[], &[]));
    assert!(units_equal(&[1, 2, 3], &[1, 2, 3]));
    assert!(!units_equal(&[1, 2, 3], &[1, 2]));
    assert!(!units_equal(&[1, 2, 3], &[1, 2, 4]));
    assert!(!units_equal(&[1, 2], &[1, 2, 0]));
}

#[test]
fn str_equal_compares_characters() {
    assert!(str_equal("", ""));
    assert!(str_equal("Bool", "Bool"));
    assert!(!str_equal("Bool", "Blob"));
    assert!(!str_equal("Int", "Integer"));
    assert!(str_equal("Свойство", "Свойство"));
}
