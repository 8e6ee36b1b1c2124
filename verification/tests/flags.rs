use xattr_shim::flags::{XattrFlags, XATTR_CREATE, XATTR_REPLACE};

#[test]
fn unrestricted_word_parses_to_empty_flags() {
    let flags = XattrFlags::from_raw(0).unwrap();
    assert_eq!(flags.bits(), 0);
    assert!(!flags.create_only());
    assert!(!flags.replace_only());
    assert_eq!(flags, XattrFlags::empty());
}

#[test]
fn create_only_word_parses() {
    let flags = XattrFlags::from_raw(1).unwrap();
    assert_eq!(flags.bits(), 1);
    assert!(flags.create_only());
    assert!(!flags.replace_only());
}

#[test]
fn replace_only_word_parses() {
    let flags = XattrFlags::from_raw(2).unwrap();
    assert_eq!(flags.bits(), 2);
    assert!(!flags.create_only());
    assert!(flags.replace_only());
}

#[test]
fn both_bits_are_a_recognized_pattern() {
    let flags = XattrFlags::from_raw(3).unwrap();
    assert_eq!(flags.bits(), 3);
    assert!(flags.create_only());
    assert!(flags.replace_only());
}

#[test]
fn unknown_bits_are_rejected() {
    assert_eq!(XattrFlags::from_raw(4), None);
    assert_eq!(XattrFlags::from_raw(5), None);
    assert_eq!(XattrFlags::from_raw(0x100), None);
    assert_eq!(XattrFlags::from_raw(i32::MAX), None);
    assert_eq!(XattrFlags::from_bits(4), None);
    assert_eq!(XattrFlags::from_bits(u32::MAX), None);
    assert_eq!(XattrFlags::from_bits(0x8000_0001), None);
}

#[test]
fn negative_words_are_rejected() {
    assert_eq!(XattrFlags::from_raw(-1), None);
    assert_eq!(XattrFlags::from_raw(-2), None);
    assert_eq!(XattrFlags::from_raw(i32::MIN), None);
}

#[test]
fn every_small_word_is_decided_by_its_bits() {
    let mut raw: i32 = -8;
    while raw <= 16 {
        let parsed = XattrFlags::from_raw(raw);
        assert_eq!(parsed.is_some(), (0..=3).contains(&raw));
        if let Some(flags) = parsed {
            assert_eq!(flags.bits(), raw as u32);
        }
        raw += 1;
    }
}

#[test]
fn strict_parse_keeps_the_word() {
    assert_eq!(XattrFlags::from_raw_strict(0).bits(), 0);
    assert_eq!(XattrFlags::from_raw_strict(1).bits(), 1);
    assert_eq!(XattrFlags::from_raw_strict(2).bits(), 2);
    assert_eq!(XattrFlags::from_raw_strict(3).bits(), 3);
}

#[test]
fn from_bits_agrees_with_from_raw() {
    for bits in 0u32..=3 {
        assert_eq!(XattrFlags::from_bits(bits), XattrFlags::from_raw(bits as i32));
        assert_eq!(XattrFlags::from_bits(bits).unwrap().bits(), bits);
    }
}

#[test]
fn flag_bits_match_the_system_interface() {
    assert_eq!(XATTR_CREATE, rustix::fs::XattrFlags::CREATE.bits());
    assert_eq!(XATTR_REPLACE, rustix::fs::XattrFlags::REPLACE.bits());
    assert_eq!(XATTR_CREATE, 1);
    assert_eq!(XATTR_REPLACE, 2);
    assert_eq!(XATTR_CREATE, libc::XATTR_CREATE as u32);
    assert_eq!(XATTR_REPLACE, libc::XATTR_REPLACE as u32);
}

#[test]
fn parsed_flags_convert_to_the_system_flags() {
    let flags = XattrFlags::from_raw(1).unwrap();
    let outside = rustix::fs::XattrFlags::from_bits_retain(flags.bits());
    assert_eq!(outside, rustix::fs::XattrFlags::CREATE);
    let flags = XattrFlags::from_raw(2).unwrap();
    let outside = rustix::fs::XattrFlags::from_bits_retain(flags.bits());
    assert_eq!(outside, rustix::fs::XattrFlags::REPLACE);
    let flags = XattrFlags::from_raw(0).unwrap();
    assert!(rustix::fs::XattrFlags::from_bits_retain(flags.bits()).is_empty());
}
