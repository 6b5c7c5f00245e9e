//! Key pulses: every key action is one key-down report followed by
//! one release report, with a hold time in between (zero for a tap,
//! long for the voice-assistant gesture).

use vstd::prelude::*;
use crate::report::{key_mask, InputReport, MediaKey};

verus! {

/// Delay after every report notification, for HID pacing, in ms.
pub const REPORT_PACING_MS: u32 = 7;
/// Hold time of the voice-assistant long press, in ms.
pub const LONG_PRESS_HOLD_MS: u32 = 500;

/// A synthesized press-and-release of one key: the key-down report,
/// the time the key is held before release, and the release report.
#[derive(Clone, Copy, PartialEq, Eq, Structural, Debug)]
pub struct KeyPulse {
    /// The key-down report, with exactly one key bit set.
    pub down: InputReport,
    /// How long the key stays down before the release report, in ms.
    pub hold_ms: u32,
}

/// What the pulse of a key must look like: its key-down report sets
/// exactly that key's bit, the reserved byte is zero, and the hold
/// time is zero for every key but the voice assistant, which holds
/// for the long-press time.
pub open spec fn pulse_of(k: MediaKey) -> KeyPulse {
    KeyPulse {
        down: InputReport { keys: key_mask(k), reserved: 0 },
        hold_ms: if k is VoiceAssistant { LONG_PRESS_HOLD_MS } else { 0 },
    }
}

impl KeyPulse {
    /// The pulse of one key.
    pub fn of_key(k: MediaKey) -> (r: KeyPulse)
        ensures
            r == pulse_of(k),
    {
        let hold: u32 = match k {
            MediaKey::VoiceAssistant => LONG_PRESS_HOLD_MS,
            _ => 0,
        };
        KeyPulse { down: InputReport::key_down(k), hold_ms: hold }
    }

    /// The complete report sequence of the pulse, in send order: the
    /// key-down report, then the release report, and nothing else.
    pub fn reports(&self) -> (r: Vec<InputReport>)
        ensures
            r@ == seq![self.down, InputReport { keys: 0, reserved: 0 }],
    {
        let mut r: Vec<InputReport> = Vec::new();
        r.push(self.down);
        r.push(InputReport::release());
        proof {
            assert(r@ =~= seq![self.down, InputReport { keys: 0, reserved: 0 }]);
        }
        r
    }
}

/// The play/pause pulse: reports `[0x08, 0x00]` then `[0x00, 0x00]`,
/// held for no extra time.
pub fn play_pause() -> (r: KeyPulse)
    ensures
        r == pulse_of(MediaKey::PlayPause),
        r.down.keys == 0x08,
        r.down.reserved == 0,
        r.hold_ms == 0,
{
    KeyPulse::of_key(MediaKey::PlayPause)
}

/// The next-track pulse: reports `[0x01, 0x00]` then `[0x00, 0x00]`.
pub fn skip() -> (r: KeyPulse)
    ensures
        r == pulse_of(MediaKey::NextTrack),
        r.down.keys == 0x01,
        r.down.reserved == 0,
        r.hold_ms == 0,
{
    KeyPulse::of_key(MediaKey::NextTrack)
}

/// The previous-track pulse: reports `[0x02, 0x00]` then `[0x00, 0x00]`.
pub fn back() -> (r: KeyPulse)
    ensures
        r == pulse_of(MediaKey::PrevTrack),
        r.down.keys == 0x02,
        r.down.reserved == 0,
        r.hold_ms == 0,
{
    KeyPulse::of_key(MediaKey::PrevTrack)
}

/// The volume-increment pulse: reports `[0x20, 0x00]` then `[0x00, 0x00]`.
pub fn volume_up() -> (r: KeyPulse)
    ensures
        r == pulse_of(MediaKey::VolumeUp),
        r.down.keys == 0x20,
        r.down.reserved == 0,
        r.hold_ms == 0,
{
    KeyPulse::of_key(MediaKey::VolumeUp)
}

/// The volume-decrement pulse: reports `[0x40, 0x00]` then `[0x00, 0x00]`.
pub fn volume_down() -> (r: KeyPulse)
    ensures
        r == pulse_of(MediaKey::VolumeDown),
        r.down.keys == 0x40,
        r.down.reserved == 0,
        r.hold_ms == 0,
{
    KeyPulse::of_key(MediaKey::VolumeDown)
}

/// The voice-assistant pulse: report `[0x80, 0x00]`, the long-press
/// hold, then `[0x00, 0x00]`.
pub fn send_siri() -> (r: KeyPulse)
    ensures
        r == pulse_of(MediaKey::VoiceAssistant),
        r.down.keys == 0x80,
        r.down.reserved == 0,
        r.hold_ms == LONG_PRESS_HOLD_MS,
{
    KeyPulse::of_key(MediaKey::VoiceAssistant)
}

} // verus!
