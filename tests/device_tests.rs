use live_transcribe::device::{
    create_coreaudio_system_device, parse_audio_device, request_screen_recording_permission,
    AudioDevice, AudioTranscriptionEngine, DeviceType,
};

#[test]
fn device_names_carry_their_direction() {
    let d = AudioDevice::from_name("Built-in Mic (input)").unwrap();
    assert_eq!(d.name, "Built-in Mic");
    assert_eq!(d.device_type, DeviceType::Input);
    let d = parse_audio_device("Speakers (OUTPUT)").unwrap();
    assert_eq!(d.name, "Speakers (OUTPUT)");
    assert_eq!(d.device_type, DeviceType::Output);
    let d = AudioDevice::from_name("  Headset (output)  ".trim()).unwrap();
    assert_eq!(d.name, "Headset");
    assert_eq!(d.display_name(), "Headset (output)");
}

#[test]
fn device_names_without_direction_are_refused() {
    assert!(AudioDevice::from_name("   ").is_err());
    assert!(AudioDevice::from_name("Mic").is_err());
    assert!(parse_audio_device("").is_err());
}

#[test]
fn platform_helpers() {
    assert!(request_screen_recording_permission().is_ok());
    assert!(create_coreaudio_system_device().is_err());
    assert_eq!(AudioTranscriptionEngine::default(), AudioTranscriptionEngine::WhisperLargeV3Turbo);
    assert_eq!(AudioTranscriptionEngine::WhisperDistilLargeV3.label(), "WhisperLarge");
    let d = AudioDevice::new("x".to_string(), DeviceType::Input);
    assert_eq!(d.display_name(), "x (input)");
}
