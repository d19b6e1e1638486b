//! Channel-voice events and their wire framing.
use midly::live::LiveEvent;
use midly::MidiMessage;
use vstd::prelude::*;

verus! {

/// The message of a channel-voice event.
#[derive(PartialEq, Eq, Structural, Clone, Copy, Debug)]
pub enum Message {
    NoteOn { key: u8, vel: u8 },
    NoteOff { key: u8, vel: u8 },
    /// Any other channel-voice message (aftertouch, controller, program change, pitch bend).
    Other,
}

/// A channel-voice event: the channel nibble and the message.
#[derive(PartialEq, Eq, Structural, Clone, Copy, Debug)]
pub struct ChannelEvent {
    pub channel: u8,
    pub message: Message,
}

/// What one raw buffer from the input device turned out to be.
#[derive(PartialEq, Eq, Structural, Clone, Copy, Debug)]
pub enum Incoming {
    /// A channel-voice event.
    Voice(ChannelEvent),
    /// A system common, system exclusive or system real-time message.
    System,
    /// Bytes that do not frame a message.
    Malformed,
}

/// A status byte of a note-off (`0x8n`) or note-on (`0x9n`) message.
pub open spec fn is_note_status(b: u8) -> bool {
    0x80 <= b < 0xA0
}

/// The event that a note-off or note-on buffer frames, if its two data bytes are there and
/// in range.
pub open spec fn note_event_of(b: Seq<u8>) -> Option<ChannelEvent> {
    if b.len() >= 3 && is_note_status(b[0]) && b[1] < 128 && b[2] < 128 {
        let message = if b[0] < 0x90 {
            Message::NoteOff { key: b[1], vel: b[2] }
        } else {
            Message::NoteOn { key: b[1], vel: b[2] }
        };
        Some(ChannelEvent { channel: (b[0] % 16) as u8, message })
    } else {
        None
    }
}

/// The three bytes of a note event with an explicit status byte.
pub open spec fn note_bytes(e: ChannelEvent) -> Seq<u8> {
    match e.message {
        Message::NoteOn { key, vel } => seq![(0x90 + e.channel) as u8, key, vel],
        Message::NoteOff { key, vel } => seq![(0x80 + e.channel) as u8, key, vel],
        Message::Other => Seq::empty(),
    }
}

/// Relies on midly's `LiveEvent::parse`: a status byte in `0x80..=0xEF` gives a channel
/// message on channel `status & 0x0F`; note-off and note-on need two data bytes below `0x80`
/// and fail otherwise; a status in `0xF8..=0xFF` is a real-time message; an empty buffer fails.
#[verifier::external_body]
pub(crate) fn parse_live(bytes: &[u8]) -> (r: Incoming)
    ensures
        bytes@.len() == 0 ==> r == Incoming::Malformed,
        bytes@.len() > 0 && is_note_status(bytes@[0]) ==> r == match note_event_of(bytes@) {
            Some(e) => Incoming::Voice(e),
            None => Incoming::Malformed,
        },
        bytes@.len() > 0 && bytes@[0] >= 0xF8 ==> r == Incoming::System,
        r is Voice ==> bytes@.len() > 0 && 0x80 <= bytes@[0] <= 0xEF && r->Voice_0.channel
            == bytes@[0] % 16,
{
    match LiveEvent::parse(bytes) {
        Ok(LiveEvent::Midi { channel, message }) => {
            let message = match message {
                MidiMessage::NoteOn { key, vel } => Message::NoteOn { key: key.as_int(), vel: vel.as_int() },
                MidiMessage::NoteOff { key, vel } => Message::NoteOff { key: key.as_int(), vel: vel.as_int() },
                _ => Message::Other,
            };
            Incoming::Voice(ChannelEvent { channel: channel.as_int(), message })
        },
        Ok(_) => Incoming::System,
        Err(_) => Incoming::Malformed,
    }
}

/// Whether a note event starts or ends the note.
#[derive(PartialEq, Eq, Structural, Clone, Copy, Debug)]
pub enum NoteKind {
    On,
    Off,
}

/// The event that starts or ends `key` at `vel` on `channel`.
pub open spec fn note_event(kind: NoteKind, channel: u8, key: u8, vel: u8) -> ChannelEvent {
    ChannelEvent {
        channel,
        message: match kind {
            NoteKind::On => Message::NoteOn { key, vel },
            NoteKind::Off => Message::NoteOff { key, vel },
        },
    }
}

/// Relies on midly's `LiveEvent::write` into a `Vec<u8>`: a note event is written as its
/// status byte (`0x8n` or `0x9n`), key and velocity; writing into a vector cannot fail.
#[verifier::external_body]
pub(crate) fn write_live(kind: NoteKind, channel: u8, key: u8, vel: u8) -> (r: Vec<u8>)
    requires
        channel < 16,
        key < 128,
        vel < 128,
    ensures
        r@ == note_bytes(note_event(kind, channel, key, vel)),
{
    let message = match kind {
        NoteKind::On => MidiMessage::NoteOn { key: key.into(), vel: vel.into() },
        NoteKind::Off => MidiMessage::NoteOff { key: key.into(), vel: vel.into() },
    };
    let mut out = Vec::new();
    let _ = LiveEvent::Midi { channel: channel.into(), message }.write(&mut out);
    out
}

} // verus!
