use mic_manager::device::{AudioError, AudioFormat, DeviceRole, DeviceState, SystemError};
use mic_manager::ffi::{
    c_string_text, clear_last_error, error_code_for, set_last_error, status_code, AudioFormatDto,
    ErrorCode, LastError, MicEngine,
};

fn system_error() -> SystemError {
    SystemError { code: -2147221008, message: "CoInitialize has not been called.".to_string() }
}

#[test]
fn test_error_code_conversion() {
    assert_eq!(
        ErrorCode::from(AudioError::DeviceNotFound {
            device_id: "test".to_string()
        }),
        ErrorCode::DeviceNotFound
    );
}

#[test]
fn every_audio_error_has_its_code() {
    assert_eq!(ErrorCode::from(AudioError::NoDefaultDevice), ErrorCode::ComError);
    assert_eq!(ErrorCode::from(AudioError::ComInitFailed(system_error())), ErrorCode::ComError);
    assert_eq!(ErrorCode::from(AudioError::EnumerationFailed(system_error())), ErrorCode::ComError);
    assert_eq!(ErrorCode::from(AudioError::SetDefaultFailed(system_error())), ErrorCode::ComError);
    assert_eq!(ErrorCode::from(AudioError::VolumeNotAvailable), ErrorCode::VolumeNotAvailable);
    assert_eq!(ErrorCode::from(AudioError::MeterNotAvailable), ErrorCode::ComError);
    assert_eq!(ErrorCode::from(AudioError::WindowsError(system_error())), ErrorCode::ComError);
    assert_eq!(ErrorCode::from(AudioError::StringConversion("x".to_string())), ErrorCode::ComError);
    assert_eq!(error_code_for(&AudioError::VolumeNotAvailable), ErrorCode::VolumeNotAvailable);
}

#[test]
fn codes_have_their_integers() {
    assert_eq!(ErrorCode::Success.code(), 0);
    assert_eq!(ErrorCode::InvalidHandle.code(), -1);
    assert_eq!(ErrorCode::InvalidArgument.code(), -2);
    assert_eq!(ErrorCode::DeviceNotFound.code(), -3);
    assert_eq!(ErrorCode::ComError.code(), -4);
    assert_eq!(ErrorCode::JsonError.code(), -5);
    assert_eq!(ErrorCode::VolumeNotAvailable.code(), -6);
    assert_eq!(ErrorCode::Panic.code(), -99);
}

#[test]
fn status_of_an_operation() {
    assert_eq!(status_code(&Ok(())), 0);
    assert_eq!(status_code(&Err(AudioError::VolumeNotAvailable)), -6);
    assert_eq!(
        status_code(&Err(AudioError::DeviceNotFound { device_id: "{0.0.1}".to_string() })),
        -3
    );
    assert_eq!(status_code(&Err(AudioError::SetDefaultFailed(system_error()))), -4);
}

#[test]
fn last_error_is_set_replaced_and_cleared() {
    let mut last = LastError::new();
    assert_eq!(last.code_value(), 0);
    assert!(last.message().is_none());
    set_last_error(&mut last, ErrorCode::InvalidArgument, "Invalid role".to_string());
    assert_eq!(last.code_value(), -2);
    assert_eq!(last.message().map(|m| m.as_str()), Some("Invalid role"));
    set_last_error(&mut last, ErrorCode::Panic, "Panic during set mute".to_string());
    assert_eq!(last.code_value(), -99);
    assert_eq!(last.message().map(|m| m.as_str()), Some("Panic during set mute"));
    clear_last_error(&mut last);
    assert_eq!(last.code_value(), 0);
    assert!(last.message().is_none());
}

#[test]
fn c_strings_drop_text_with_nul() {
    assert_eq!(c_string_text("{\"devices\":[]}"), "{\"devices\":[]}");
    assert_eq!(c_string_text(""), "");
    assert_eq!(c_string_text("ab\0cd"), "");
    assert_eq!(c_string_text("\0"), "");
    assert_eq!(c_string_text("Mikrofon (Ger\u{e4}t)"), "Mikrofon (Ger\u{e4}t)");
}

#[test]
fn roles_by_index() {
    assert_eq!(DeviceRole::from_index(0), Some(DeviceRole::Console));
    assert_eq!(DeviceRole::from_index(1), Some(DeviceRole::Multimedia));
    assert_eq!(DeviceRole::from_index(2), Some(DeviceRole::Communications));
    assert_eq!(DeviceRole::from_index(3), None);
    assert_eq!(DeviceRole::from_index(u32::MAX), None);
    assert_eq!(DeviceRole::Communications.index(), 2);
    assert_eq!(DeviceRole::Console.index(), 0);
    assert_eq!(DeviceRole::Multimedia.index(), 1);
}

#[test]
fn roles_from_notifications() {
    assert_eq!(DeviceRole::from_notification(0), DeviceRole::Console);
    assert_eq!(DeviceRole::from_notification(1), DeviceRole::Multimedia);
    assert_eq!(DeviceRole::from_notification(2), DeviceRole::Communications);
    assert_eq!(DeviceRole::from_notification(7), DeviceRole::Multimedia);
}

#[test]
fn states_from_flags() {
    assert_eq!(DeviceState::from_flag(1), DeviceState::Active);
    assert_eq!(DeviceState::from_flag(2), DeviceState::Disabled);
    assert_eq!(DeviceState::from_flag(4), DeviceState::NotPresent);
    assert_eq!(DeviceState::from_flag(8), DeviceState::Unplugged);
    assert_eq!(DeviceState::from_flag(0), DeviceState::NotPresent);
    assert_eq!(DeviceState::from_flag(16), DeviceState::NotPresent);
}

#[test]
fn format_reported_unchanged() {
    let f = AudioFormat { sample_rate: 48000, bit_depth: 24, channels: 2 };
    let dto = AudioFormatDto::from(f);
    assert_eq!(dto, AudioFormatDto { sample_rate: 48000, bit_depth: 24, channels: 2 });
}

#[test]
fn engine_is_created() {
    let _engine = MicEngine::new();
}
