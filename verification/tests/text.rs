use std::time::Duration;

use plenum::text::{
    eq_ignore_ascii_case, is_white_space, push_decimal, replace, starts_with, to_ascii_uppercase,
    trim,
};
use plenum::transport::{IoError, IoErrorKind, TransportError};
use plenum::wire::{push_be, read_be};

#[test]
fn white_space_is_what_the_standard_says() {
    for code in 0..=0x10_FFFFu32 {
        if let Some(c) = char::from_u32(code) {
            assert_eq!(is_white_space(c), c.is_whitespace(), "{code:x}");
        }
    }
}

#[test]
fn text_helpers_agree_with_the_standard() {
    for s in ["", " ", "a", " a b\t\n", "\u{3000}x\u{2003}", "ÄbZ09"] {
        assert_eq!(trim(s), s.trim());
        assert_eq!(to_ascii_uppercase(s), s.to_ascii_uppercase());
        assert_eq!(starts_with(s, " a"), s.starts_with(" a"));
        assert_eq!(replace(s, "a", "bb"), s.replace("a", "bb"));
    }
    assert!(eq_ignore_ascii_case("aBc", "AbC"));
    assert!(!eq_ignore_ascii_case("ä", "Ä"));
    assert_eq!(replace("aaa", "aa", "b"), "ba");
    let mut out = "n=".to_string();
    push_decimal(&mut out, u64::MAX);
    push_decimal(&mut out, 0);
    assert_eq!(out, "n=184467440737095516150");
}

#[test]
fn numbers_on_the_wire_are_big_endian() {
    let mut out = Vec::new();
    push_be(&mut out, 0x0102_0304, 2);
    assert_eq!(out, vec![3, 4]);
    assert_eq!(read_be(&[9, 1, 2, 3], 1, 3), 0x01_0203);
}

#[test]
fn failures_are_sorted_by_kind() {
    let failure = |kind| IoError { kind, message: "m".to_string() };
    assert!(matches!(
        TransportError::from_io("read", failure(IoErrorKind::ConnectionReset)),
        TransportError::ConnectionReset { operation: "read" }
    ));
    assert!(matches!(
        TransportError::from_io("read", failure(IoErrorKind::BrokenPipe)),
        TransportError::BrokenPipe { operation: "read" }
    ));
    assert!(matches!(
        TransportError::from_io("read", failure(IoErrorKind::PermissionDenied)),
        TransportError::Io { kind: IoErrorKind::PermissionDenied, .. }
    ));
    let timeout = Duration::from_secs(30);
    assert!(matches!(
        TransportError::from_write_io("write", timeout, failure(IoErrorKind::TimedOut)),
        TransportError::WriteTimedOut { operation: "write", .. }
    ));
}
