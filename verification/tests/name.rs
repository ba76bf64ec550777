use ni::{Error, Name};

#[test]
fn code() -> Result<(), Error> {
    let s = b"hello";
    let name = Name::encode(s)?;
    assert_eq!(name.decode().as_slice(), s);
    assert_eq!(name.len(), 5);
    Ok(())
}

#[test]
fn code_const() {
    let orig = "hellowo";
    let name = Name::literal(orig.as_bytes());
    let string = name.decode();
    assert_eq!(string.as_str(), orig);
}

#[test]
fn cases() {
    let tests = [
        "a",
        "z",
        "0",
        "9",
        "a_",
        "99",
        "999",
        "999_",
        "hi",
        "some_key",
        "lol________",
        "0123456789",
        "abcdefxyz",
        "a1b2c3d_e_f9",
        "small_strings_rule",
        "123__qwe__456_xyz__098__",
    ];

    for test in tests {
        let name = Name::encode(test.as_bytes()).expect("encode name");
        assert_eq!(name.decode().as_str(), test);
        assert_eq!(name.len(), test.len());
    }
}

#[test]
fn code_long() -> Result<(), Error> {
    let s = b"999999999999999999999999";
    assert_eq!(s.len(), 24);
    let name = Name::encode(s)?;
    assert_eq!(name.decode().as_slice(), s);
    assert_eq!(name.len(), 24);
    Ok(())
}

#[test]
fn encode_char() -> Result<(), Error> {
    let name = Name::encode_char('a')?;
    assert_eq!(name.decode().as_str(), "a");
    assert_eq!(name.len(), 1);
    Ok(())
}

#[test]
fn encode_invalid_char() {
    assert_eq!(Name::encode_char('\u{44e}'), Err(Error::InvalidChar));
}

#[test]
fn zero_len() {
    let empty = b"";
    assert_eq!(Name::encode(empty), Err(Error::Empty));
}

#[test]
fn too_long() {
    let long = b"9999999999999999999999999";
    assert_eq!(long.len(), Name::MAXLEN + 1);
    assert_eq!(Name::encode(long), Err(Error::TooLong));
}

#[test]
fn leading_underscore() {
    let underscored = b"_hello";
    assert_eq!(Name::encode(underscored), Err(Error::LeadingUnderscore));
}

#[test]
fn invalid_char() {
    let s = b"HELLO";
    assert_eq!(Name::encode(s), Err(Error::InvalidChar));
}

#[test]
fn invalid_char_mixed() {
    // One bad byte poisons the whole string, valid neighbours or not.
    assert_eq!(Name::encode(b"ABC"), Err(Error::InvalidChar));
    assert_eq!(Name::encode(b"abCde"), Err(Error::InvalidChar));
}

#[test]
fn encode_char_matches_encode() {
    for c in ['a', 'z', '0', '9', 'q'] {
        let mut buf = [0u8; 4];
        let s = c.encode_utf8(&mut buf);
        assert_eq!(Name::encode_char(c), Name::encode(s.as_bytes()));
    }
    // A lone underscore goes down the same path and hits the leading check.
    assert_eq!(Name::encode_char('_'), Err(Error::LeadingUnderscore));
    assert_eq!(Name::encode_char('A'), Err(Error::InvalidChar));
}

#[test]
fn distinct_names() {
    let a = Name::encode(b"a").unwrap();
    let b = Name::encode(b"b").unwrap();
    let a_underscore = Name::encode(b"a_").unwrap();
    assert_ne!(a, b);
    assert_ne!(a, a_underscore);
    assert_eq!(a, Name::encode(b"a").unwrap());
}

#[test]
fn never_empty() {
    let name = Name::encode(b"x").unwrap();
    assert!(!name.is_empty());
}

#[test]
fn error_messages() {
    assert_eq!(Error::Empty.as_str(), "the name is empty");
    assert_eq!(Error::TooLong.as_str(), "the name is too long");
    assert_eq!(Error::LeadingUnderscore.as_str(), "the name starts with `_`");
    assert_eq!(Error::InvalidChar.as_str(), "the name contains an invalid char");
}
