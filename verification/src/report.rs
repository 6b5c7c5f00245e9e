//! The consumer-control input report: one bitmask byte and one
//! reserved byte, sent as a notification for every key event.

use vstd::prelude::*;

verus! {

/// Bit assigned to "scan next track" in the input report bitmask.
pub const NEXT_TRACK_MASK: u8 = 0x01;
/// Bit assigned to "scan previous track".
pub const PREV_TRACK_MASK: u8 = 0x02;
/// Bit assigned to "stop".
pub const STOP_MASK: u8 = 0x04;
/// Bit assigned to "play/pause".
pub const PLAY_PAUSE_MASK: u8 = 0x08;
/// Bit assigned to "mute".
pub const MUTE_MASK: u8 = 0x10;
/// Bit assigned to "volume increment".
pub const VOLUME_UP_MASK: u8 = 0x20;
/// Bit assigned to "volume decrement".
pub const VOLUME_DOWN_MASK: u8 = 0x40;
/// Bit assigned to the voice-assistant key.
pub const VOICE_ASSISTANT_MASK: u8 = 0x80;

/// One media key of the remote, in report-bit order.
#[derive(Clone, Copy, PartialEq, Eq, Structural, Debug)]
pub enum MediaKey {
    /// Scan next track (bit 0).
    NextTrack,
    /// Scan previous track (bit 1).
    PrevTrack,
    /// Stop (bit 2).
    Stop,
    /// Play/pause (bit 3).
    PlayPause,
    /// Mute (bit 4).
    Mute,
    /// Volume increment (bit 5).
    VolumeUp,
    /// Volume decrement (bit 6).
    VolumeDown,
    /// Voice assistant (bit 7).
    VoiceAssistant,
}

/// The report bit that a key occupies, as a one-bit mask.
pub open spec fn key_mask(k: MediaKey) -> u8 {
    match k {
        MediaKey::NextTrack => NEXT_TRACK_MASK,
        MediaKey::PrevTrack => PREV_TRACK_MASK,
        MediaKey::Stop => STOP_MASK,
        MediaKey::PlayPause => PLAY_PAUSE_MASK,
        MediaKey::Mute => MUTE_MASK,
        MediaKey::VolumeUp => VOLUME_UP_MASK,
        MediaKey::VolumeDown => VOLUME_DOWN_MASK,
        MediaKey::VoiceAssistant => VOICE_ASSISTANT_MASK,
    }
}

impl MediaKey {
    /// The one-bit mask of this key.
    pub fn mask(&self) -> (r: u8)
        ensures
            r == key_mask(*self),
    {
        match self {
            MediaKey::NextTrack => NEXT_TRACK_MASK,
            MediaKey::PrevTrack => PREV_TRACK_MASK,
            MediaKey::Stop => STOP_MASK,
            MediaKey::PlayPause => PLAY_PAUSE_MASK,
            MediaKey::Mute => MUTE_MASK,
            MediaKey::VolumeUp => VOLUME_UP_MASK,
            MediaKey::VolumeDown => VOLUME_DOWN_MASK,
            MediaKey::VoiceAssistant => VOICE_ASSISTANT_MASK,
        }
    }
}

/// A two-byte input report: the key bitmask and a reserved byte that
/// is always zero on the wire.
#[derive(Clone, Copy, PartialEq, Eq, Structural, Debug)]
pub struct InputReport {
    /// Bitmask of pressed keys, one bit per key.
    pub keys: u8,
    /// Reserved trailing byte, always zero.
    pub reserved: u8,
}

impl InputReport {
    /// The key-down report of a single key: exactly that key's bit set.
    pub fn key_down(k: MediaKey) -> (r: InputReport)
        ensures
            r.keys == key_mask(k),
            r.reserved == 0,
    {
        InputReport { keys: k.mask(), reserved: 0 }
    }

    /// The all-keys-up (release) report: both bytes zero.
    pub fn release() -> (r: InputReport)
        ensures
            r.keys == 0,
            r.reserved == 0,
    {
        InputReport { keys: 0, reserved: 0 }
    }

    /// The wire form of the report, ready to hand to a notification.
    pub fn bytes(&self) -> (r: [u8; 2])
        ensures
            r@ == seq![self.keys, self.reserved],
    {
        let r = [self.keys, self.reserved];
        proof {
            assert(r@ =~= seq![self.keys, self.reserved]);
        }
        r
    }
}

} // verus!
