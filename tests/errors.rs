use bfd::bfd::{Endian, Format};
use bfd::error::NAMED_ERROR_CODES;
use bfd::{BfdError, BfdErrorType};

#[test]
fn error_codes_map_to_reasons() {
    assert_eq!(BfdErrorType::from_code(0), BfdErrorType::NoError);
    assert_eq!(BfdErrorType::from_code(1), BfdErrorType::SystemCall);
    assert_eq!(BfdErrorType::from_code(3), BfdErrorType::WrongFormat);
    assert_eq!(BfdErrorType::from_code(12), BfdErrorType::FileNotRecognized);
    assert_eq!(BfdErrorType::from_code(20), BfdErrorType::OnInput);
    assert_eq!(BfdErrorType::from_code(21), BfdErrorType::Unknown(21));
    assert_eq!(BfdErrorType::from_code(u32::MAX), BfdErrorType::Unknown(u32::MAX));
}

#[test]
fn error_codes_round_trip() {
    for c in 0..(NAMED_ERROR_CODES + 5) {
        assert_eq!(BfdErrorType::from_code(c).code(), c);
    }
    assert_eq!(BfdErrorType::MalformedArchive.code(), 10);
}

#[test]
fn error_descriptions() {
    assert_eq!(BfdErrorType::NoError.description(), "No error");
    assert_eq!(BfdErrorType::FileAmbiguouslyRecognized.description(), "File ambiguously recognized");
    assert_eq!(BfdErrorType::MissingDso.description(), "Missing dso");
    assert_eq!(BfdErrorType::Unknown(99).description(), "#<Invalid error code>");
}

#[test]
fn system_call_failure_is_io() {
    let e = BfdError::from_codes(1, 2);
    assert_eq!(e, BfdError::Io(2));
    assert!(e.is_io());
    let e = BfdError::from_codes(3, 2);
    assert_eq!(e, BfdError::Bfd(BfdErrorType::WrongFormat));
    assert!(!e.is_io());
    assert_eq!(BfdError::last_bfd_error(1), BfdError::Bfd(BfdErrorType::SystemCall));
    assert_eq!(BfdError::last_bfd_error(42), BfdError::Bfd(BfdErrorType::Unknown(42)));
}

#[test]
fn format_codes() {
    assert_eq!(Format::from_raw(0), Format::Unknown);
    assert_eq!(Format::from_raw(1), Format::Object);
    assert_eq!(Format::from_raw(2), Format::Archive);
    assert_eq!(Format::from_raw(3), Format::Core);
    assert_eq!(Format::from_raw(4), Format::Unknown);
    for f in [Format::Unknown, Format::Object, Format::Archive, Format::Core] {
        assert_eq!(Format::from_raw(f.to_raw()), f);
    }
    assert_eq!(Format::Object.to_raw(), 1);
    assert_ne!(Endian::Big, Endian::Little);
}
