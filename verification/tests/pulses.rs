use media_remote::pulse::{
    back, play_pause, send_siri, skip, volume_down, volume_up, KeyPulse, LONG_PRESS_HOLD_MS,
    REPORT_PACING_MS,
};
use media_remote::report::{InputReport, MediaKey};

#[test]
fn play_pause_reports_in_order() {
    let p = play_pause();
    assert_eq!(p.hold_ms, 0);
    let reports = p.reports();
    assert_eq!(reports.len(), 2);
    assert_eq!(reports[0].bytes(), [0x08, 0x00]);
    assert_eq!(reports[1].bytes(), [0x00, 0x00]);
}

#[test]
fn send_siri_holds_long_press() {
    let p = send_siri();
    assert_eq!(p.hold_ms, LONG_PRESS_HOLD_MS);
    assert_eq!(p.hold_ms, 500);
    let reports = p.reports();
    assert_eq!(reports.len(), 2);
    assert_eq!(reports[0].bytes(), [0x80, 0x00]);
    assert_eq!(reports[1].bytes(), [0x00, 0x00]);
}

#[test]
fn tap_pulses_set_one_bit_each() {
    let cases: Vec<(KeyPulse, u8)> = vec![
        (skip(), 0x01),
        (back(), 0x02),
        (play_pause(), 0x08),
        (volume_up(), 0x20),
        (volume_down(), 0x40),
    ];
    for (pulse, mask) in cases {
        assert_eq!(pulse.down.keys, mask);
        assert_eq!(pulse.down.reserved, 0);
        assert_eq!(pulse.hold_ms, 0);
    }
}

#[test]
fn every_key_has_its_report_bit() {
    let keys = vec![
        (MediaKey::NextTrack, 0x01),
        (MediaKey::PrevTrack, 0x02),
        (MediaKey::Stop, 0x04),
        (MediaKey::PlayPause, 0x08),
        (MediaKey::Mute, 0x10),
        (MediaKey::VolumeUp, 0x20),
        (MediaKey::VolumeDown, 0x40),
        (MediaKey::VoiceAssistant, 0x80),
    ];
    for (key, mask) in keys {
        assert_eq!(key.mask(), mask);
        let down = InputReport::key_down(key);
        assert_eq!(down.keys, mask);
        assert_eq!(down.reserved, 0);
        let pulse = KeyPulse::of_key(key);
        assert_eq!(pulse.down, down);
        if key == MediaKey::VoiceAssistant {
            assert_eq!(pulse.hold_ms, LONG_PRESS_HOLD_MS);
        } else {
            assert_eq!(pulse.hold_ms, 0);
        }
    }
}

#[test]
fn release_report_is_all_zero() {
    assert_eq!(InputReport::release().bytes(), [0x00, 0x00]);
}

#[test]
fn pacing_delay_is_seven_ms() {
    assert_eq!(REPORT_PACING_MS, 7);
}
