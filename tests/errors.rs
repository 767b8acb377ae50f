use voicevox_core_rs::error::is_known_status_code;
use voicevox_core_rs::{i32_to_result, VoicevoxError};

#[test]
fn codes_round_trip() {
    for code in -2..40 {
        if let Some(e) = VoicevoxError::try_from_code(code) {
            assert_eq!(e.code(), code);
            assert_eq!(VoicevoxError::from_code(code), e);
        }
    }
    assert_eq!(VoicevoxError::StyleNotFound.code(), 6);
    assert_eq!(VoicevoxError::InvalidModelData.code(), 27);
}

#[test]
fn unknown_codes() {
    assert_eq!(VoicevoxError::try_from_code(0), None);
    assert_eq!(VoicevoxError::try_from_code(2), None);
    assert_eq!(VoicevoxError::try_from_code(19), None);
    assert!(is_known_status_code(0));
    assert!(is_known_status_code(26));
    assert!(!is_known_status_code(5));
}

#[test]
fn status_to_result() {
    assert_eq!(i32_to_result(0), Ok(()));
    assert_eq!(i32_to_result(22), Err(VoicevoxError::UserDictWordNotFound));
    assert_eq!(i32_to_result(18), Err(VoicevoxError::ModelAlreadyLoaded));
}
