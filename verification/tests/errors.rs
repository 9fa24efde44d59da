use coreaudio::errors::check_status;
use coreaudio::{CoreAudioError, ErrorKind};

fn status(code: &[u8; 4]) -> i32 {
    i32::from_be_bytes(*code)
}

#[test]
fn status_codes_map_to_kinds() {
    let cases: [(&[u8; 4], ErrorKind); 12] = [
        (b"stop", ErrorKind::NotRunning),
        (b"what", ErrorKind::Unspecified),
        (b"who?", ErrorKind::UnknownProperty),
        (b"!siz", ErrorKind::BadPropertySize),
        (b"nope", ErrorKind::IllegalOperation),
        (b"!obj", ErrorKind::BadObject),
        (b"!dev", ErrorKind::BadDevice),
        (b"!str", ErrorKind::BadStream),
        (b"unop", ErrorKind::UnsupportedOperation),
        (b"nrdy", ErrorKind::NotReady),
        (b"!dat", ErrorKind::UnsupportedFormat),
        (b"!hog", ErrorKind::Permissions),
    ];
    for (code, kind) in cases {
        let e = CoreAudioError::from(status(code));
        assert_eq!(e.kind(), kind);
        assert_eq!(e.code(), status(code));
    }
    let e = CoreAudioError::from(-50);
    assert_eq!(e.kind(), ErrorKind::Unknown);
    assert_eq!(e.code(), -50);
    assert_eq!(CoreAudioError::from_os_status(status(b"!hog")).as_tuple(), (ErrorKind::Permissions, 0x21686F67));
}

#[test]
fn errors_without_a_status_have_code_minus_one() {
    let e = CoreAudioError::from_error_kind(ErrorKind::ListenerTimeout);
    assert_eq!(e.as_tuple(), (ErrorKind::ListenerTimeout, -1));
}

#[test]
fn status_codes_read_as_four_characters() {
    assert_eq!(CoreAudioError::from(status(b"!dat")).stringify_code(), "!dat");
    assert_eq!(CoreAudioError::from(0x7768_6F3F).stringify_code(), "who?");
    assert_eq!(CoreAudioError::from(1).stringify_code(), "\0\0\0\u{1}");
    assert_eq!(CoreAudioError::from_error_kind(ErrorKind::Unknown).stringify_code(), "\u{FFFD}\u{FFFD}\u{FFFD}\u{FFFD}");
}

#[test]
fn checking_statuses() {
    assert!(check_status(0).is_ok());
    let e = check_status(status(b"nrdy")).unwrap_err();
    assert_eq!(e.kind(), ErrorKind::NotReady);
    assert_eq!(e.code(), status(b"nrdy"));
}

#[test]
fn display_text_names_kind_and_code() {
    let e = CoreAudioError::from_os_status(status(b"!dat"));
    assert_eq!(e.display_text(), "UnsupportedFormat (code: '!dat' | 560226676)");
    let e = CoreAudioError::from_error_kind(ErrorKind::ListenerTimeout);
    assert_eq!(
        e.display_text(),
        "ListenerTimeout (code: '\u{FFFD}\u{FFFD}\u{FFFD}\u{FFFD}' | -1)"
    );
    let e = CoreAudioError::from_os_status(i32::MIN);
    assert_eq!(e.kind(), ErrorKind::Unknown);
    assert!(e.display_text().ends_with("| -2147483648)"));
    let e = CoreAudioError::from_os_status(7);
    assert!(e.display_text().starts_with("Unknown (code: '"));
    assert!(e.display_text().ends_with("| 7)"));
}
