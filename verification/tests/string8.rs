use waddle::{IntoString8Error, String8};

#[test]
fn fixed_string_round_trip() {
    for text in ["", "-", "STONE2", "MFLR8_1", "ABCDEFGH", "caf\u{e9}"] {
        let name = String8::new(text).unwrap();
        assert_eq!(name.try_as_str().unwrap(), text);
        let same = String8::from_bytes(text.as_bytes()).unwrap();
        assert_eq!(same, name);
        assert_eq!(String8::from_str(text).unwrap(), name);
    }
}

#[test]
fn fixed_string_is_padded_with_nul() {
    let name = String8::new("AB").unwrap();
    assert_eq!(name.as_raw_parts(), [b'A', b'B', 0, 0, 0, 0, 0, 0]);
    assert_eq!(String8::default().as_raw_parts(), [0; 8]);
    assert_eq!(String8::default().try_as_str().unwrap(), "");
}

#[test]
fn nine_bytes_are_too_long() {
    assert_eq!(
        String8::new("ABCDEFGHI"),
        Err(IntoString8Error::TooLong { length: 9 })
    );
    assert_eq!(
        String8::from_bytes(&[1; 20]),
        Err(IntoString8Error::TooLong { length: 20 })
    );
    assert!(String8::new("ABCDEFGH").is_ok());
}

#[test]
fn interior_nul_is_refused() {
    assert_eq!(
        String8::from_bytes(b"a\0b"),
        Err(IntoString8Error::InteriorNul { position: 1 })
    );
    assert_eq!(
        String8::from_bytes(b"\0ab\0\0"),
        Err(IntoString8Error::InteriorNul { position: 2 })
    );
    assert_eq!(
        String8::from_bytes(b"a\0\0b"),
        Err(IntoString8Error::InteriorNul { position: 1 })
    );
    assert_eq!(
        String8::new("\0x"),
        Err(IntoString8Error::InteriorNul { position: 1 })
    );
}

#[test]
fn trailing_nul_is_padding() {
    let name = String8::from_bytes(b"ab\0\0").unwrap();
    assert_eq!(name, String8::new("ab").unwrap());
    assert_eq!(name.try_as_str().unwrap(), "ab");
    assert_eq!(String8::from_bytes(b"\0\0").unwrap(), String8::default());
}

#[test]
fn unchecked_constructors_copy_the_bytes() {
    assert_eq!(String8::new_unchecked("STONE2"), String8::new("STONE2").unwrap());
    assert_eq!(String8::from_str_unchecked("-"), String8::new("-").unwrap());
    let odd = String8::from_bytes_unchecked(b"a\0b");
    assert_eq!(odd.as_raw_parts(), [b'a', 0, b'b', 0, 0, 0, 0, 0]);
    assert_eq!(odd.try_as_str().unwrap(), "a");
    assert_eq!(
        String8::from_raw_parts([b'x', b'y', 0, b'z', 0, 0, 0, 0]).try_as_str().unwrap(),
        "xy"
    );
}

#[test]
fn bytes_that_are_not_utf8_have_no_text() {
    let name = String8::from_bytes(&[0xff, 0xfe]).unwrap();
    assert!(name.try_as_str().is_err());
    let full = String8::from_raw_parts([b'a'; 8]);
    assert_eq!(full.try_as_str().unwrap(), "aaaaaaaa");
}

#[test]
fn fixed_string_error_messages() {
    assert_eq!(
        IntoString8Error::InteriorNul { position: 3 }.to_text(),
        "Inner null byte at position 3"
    );
    assert_eq!(
        IntoString8Error::TooLong { length: 12 }.to_text(),
        "Longer than 8 bytes (12 bytes)"
    );
}
