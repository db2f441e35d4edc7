use pathstr::{InvalidUtf8Error, OptionPathStrExt, PathStrExt};

#[test]
fn should_handle_invalid_utf8() {
    let invalid_path: Vec<u8> = vec![0xF0, 0x90, 0x80];
    let invalid_path_display: String = format!("{}", String::from_utf8_lossy(&invalid_path));

    match invalid_path.as_slice().try_to_str() {
        Err(e) => assert_eq!(e.0, invalid_path_display),
        Ok(v) => panic!("unexpected text: {:?}", v),
    }
}

#[test]
fn invalid_fragment_is_an_error() {
    let invalid: Vec<u8> = vec![0xF0, 0x90, 0x80];
    match Some(invalid.as_slice()).try_to_str() {
        Err(e) => assert_eq!(e.0, "\u{FFFD}"),
        Ok(v) => panic!("unexpected text: {:?}", v),
    }
}

#[test]
fn absent_bytes_are_no_error() {
    let none: Option<&[u8]> = None;
    assert!(matches!(none.try_to_str(), Ok(None)));
}

#[test]
fn empty_bytes_are_empty_text() {
    let empty: &[u8] = &[];
    assert_eq!(empty.try_to_str().unwrap(), "");
    assert_eq!(Some(empty).try_to_str().unwrap(), Some(""));
}

#[test]
fn bytes_of_text_give_the_text_back() {
    for text in ["a", "abc/def/ghi.xyz", "caf\u{e9}", "\u{7ff}\u{800}\u{ffff}\u{10000}\u{10ffff}", "tab\there\n"] {
        assert_eq!(text.as_bytes().try_to_str().unwrap(), text);
        assert_eq!(Some(text.as_bytes()).try_to_str().unwrap(), Some(text));
    }
}

#[test]
fn text_is_a_view_of_the_bytes() {
    let bytes: Vec<u8> = vec![b'x', 0xE2, 0x82, 0xAC, b'y'];
    let text = bytes.as_slice().try_to_str().unwrap();
    assert_eq!(text, "x\u{20AC}y");
    assert_eq!(text.as_ptr(), bytes.as_ptr());
    assert_eq!(text.as_bytes(), bytes.as_slice());
}

#[test]
fn rendering_keeps_what_is_well_formed() {
    let bytes: Vec<u8> = vec![b'a', b'b', 0xFF, b'c', b'd'];
    let e = bytes.as_slice().try_to_str().unwrap_err();
    assert_eq!(e.0, "ab\u{FFFD}cd");
    assert_ne!(e.0.as_bytes(), bytes.as_slice());
}

#[test]
fn ill_formed_bytes_are_refused() {
    // a lone continuation byte
    assert_eq!([0x80u8].as_slice().try_to_str().unwrap_err().0, "\u{FFFD}");
    // a leading byte with nothing after it
    assert_eq!([b'a', 0xC3].as_slice().try_to_str().unwrap_err().0, "a\u{FFFD}");
    // an overlong encoding of '/'
    assert_eq!([0xC0u8, 0xAF].as_slice().try_to_str().unwrap_err().0, "\u{FFFD}\u{FFFD}");
    // a surrogate
    assert_eq!(
        [0xEDu8, 0xA0, 0x80].as_slice().try_to_str().unwrap_err().0,
        "\u{FFFD}\u{FFFD}\u{FFFD}"
    );
    // beyond the last scalar value
    assert_eq!(
        [0xF4u8, 0x90, 0x80, 0x80].as_slice().try_to_str().unwrap_err().0,
        "\u{FFFD}\u{FFFD}\u{FFFD}\u{FFFD}"
    );
}

#[test]
fn message_names_the_rendering() {
    let invalid: Vec<u8> = vec![b'd', b'i', b'r', b'/', 0xF0, 0x90, 0x80];
    let e = invalid.as_slice().try_to_str().unwrap_err();
    assert_eq!(e.0, "dir/\u{FFFD}");
    assert_eq!(e.message(), "Invalid utf-8 encoding: dir/\u{FFFD}");

    let made = InvalidUtf8Error(String::from("x"));
    assert_eq!(made.message(), "Invalid utf-8 encoding: x");
    assert_eq!(InvalidUtf8Error(String::new()).message(), "Invalid utf-8 encoding: ");
}

#[test]
fn converting_bytes_twice_gives_the_same() {
    let valid: Vec<u8> = vec![b'o', b'k'];
    assert_eq!(valid.as_slice().try_to_str().unwrap(), valid.as_slice().try_to_str().unwrap());
    assert_eq!(valid, vec![b'o', b'k']);

    let invalid: Vec<u8> = vec![0xF0, 0x90, 0x80];
    let first = invalid.as_slice().try_to_str().unwrap_err();
    let second = invalid.as_slice().try_to_str().unwrap_err();
    assert_eq!(first.0, second.0);
    assert_eq!(first.message(), second.message());
    assert_eq!(invalid, vec![0xF0, 0x90, 0x80]);
}

#[test]
fn error_is_shown_for_debugging() {
    let e = InvalidUtf8Error(String::from("p"));
    assert_eq!(format!("{:?}", e), "InvalidUtf8Error(\"p\")");
}
