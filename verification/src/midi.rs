//! Decoding of raw 1–3 byte MIDI messages into discrete events, and a
//! human-readable spelling of note numbers.

use vstd::prelude::*;
use vstd::string::StringExecFns;

verus! {

/// A decoded MIDI message: either addressed to a channel or to the whole
/// system.
#[derive(Debug, PartialEq, Eq, Structural)]
pub enum Message {
    ChannelMessage { channel: u8, kind: ChannelMessageKind },
    SystemMessage { kind: SystemMessageKind },
}

/// The channel-message kinds; only note-on and note-off carry their
/// payload, the rest are recognised but unused by the engine.
#[derive(Debug, PartialEq, Eq, Structural)]
pub enum ChannelMessageKind {
    NoteOff { key_number: u8, velocity: u8 },
    NoteOn { key_number: u8, velocity: u8 },
    PolyphonicKeyPressure,
    ControlChange,
    ProgramChange,
    ChannelPressure,
    PitchBend,
}

/// The system-message kinds the engine recognises.
#[derive(Debug, PartialEq, Eq, Structural)]
pub enum SystemMessageKind {
    ActiveSensing,
}

/// A decoded MIDI event: the message plus the channel it arrived on.
#[derive(Debug, PartialEq, Eq, Structural)]
pub struct Midi {
    pub message: Message,
    pub channel: u8,
}

/// Why a byte sequence failed to decode.
#[derive(Debug, PartialEq, Eq, Structural)]
pub enum ParseError {
    NoData,
    ByteSequenceTooLong,
    InvalidStatusByte,
    UnimplementedStatusByte(u8),
}

/// What decoding yields for any byte sequence: exactly one error case per
/// malformed shape, and for a well-formed sequence the message determined
/// by the status byte's high nibble, with the channel in its low nibble.
pub open spec fn spec_parse(bytes: Seq<u8>) -> Result<Midi, ParseError> {
    if bytes.len() == 0 {
        Err(ParseError::NoData)
    } else if bytes.len() > 3 {
        Err(ParseError::ByteSequenceTooLong)
    } else {
        let status = bytes[0];
        if status / 128 != 1 {
            Err(ParseError::InvalidStatusByte)
        } else {
            let hi = status / 16;
            let channel = status % 16;
            if 8 <= hi <= 14 {
                let kind = if hi == 8 {
                    ChannelMessageKind::NoteOff { key_number: bytes[1], velocity: bytes[2] }
                } else if hi == 9 {
                    ChannelMessageKind::NoteOn { key_number: bytes[1], velocity: bytes[2] }
                } else if hi == 10 {
                    ChannelMessageKind::PolyphonicKeyPressure
                } else if hi == 11 {
                    ChannelMessageKind::ControlChange
                } else if hi == 12 {
                    ChannelMessageKind::ProgramChange
                } else if hi == 13 {
                    ChannelMessageKind::ChannelPressure
                } else {
                    ChannelMessageKind::PitchBend
                };
                Ok(
                    Midi {
                        message: Message::ChannelMessage { channel: channel as u8, kind },
                        channel: channel as u8,
                    },
                )
            } else if channel == 14 {
                Ok(
                    Midi {
                        message: Message::SystemMessage { kind: SystemMessageKind::ActiveSensing },
                        channel: channel as u8,
                    },
                )
            } else {
                Err(ParseError::UnimplementedStatusByte(status))
            }
        }
    }
}

impl Midi {
    /// Decode a raw byte sequence.
    ///
    /// Note-on and note-off messages carry a two-byte payload; a sequence
    /// whose status byte announces one must be three bytes long.
    pub fn try_from(value: &[u8]) -> (r: Result<Midi, ParseError>)
        requires
            (1 <= value@.len() <= 3 && (value@[0] / 16 == 8 || value@[0] / 16 == 9))
                ==> value@.len() == 3,
        ensures
            r == spec_parse(value@),
    {
        if value.len() == 0 {
            return Err(ParseError::NoData);
        }
        if value.len() > 3 {
            return Err(ParseError::ByteSequenceTooLong);
        }
        let status = value[0];
        proof {
            assert(status >> 7u8 == status / 128) by (bit_vector);
            assert(status >> 4u8 == status / 16) by (bit_vector);
            assert(status & 0xF == status % 16) by (bit_vector);
        }
        if status >> 7u8 != 1 {
            return Err(ParseError::InvalidStatusByte);
        }
        let hi = status >> 4u8;
        let channel = status & 0xF;
        let message = if 8 <= hi && hi <= 0xE {
            let kind = match hi {
                0x8 => ChannelMessageKind::NoteOff { key_number: value[1], velocity: value[2] },
                0x9 => ChannelMessageKind::NoteOn { key_number: value[1], velocity: value[2] },
                0xA => ChannelMessageKind::PolyphonicKeyPressure,
                0xB => ChannelMessageKind::ControlChange,
                0xC => ChannelMessageKind::ProgramChange,
                0xD => ChannelMessageKind::ChannelPressure,
                _ => ChannelMessageKind::PitchBend,
            };
            Message::ChannelMessage { channel, kind }
        } else {
            match status & 0xF {
                0xE => Message::SystemMessage { kind: SystemMessageKind::ActiveSensing },
                _ => {
                    return Err(ParseError::UnimplementedStatusByte(status));
                },
            }
        };
        Ok(Self { message, channel })
    }
}

/// The pitch-class spelling used by `note_number_to_human`.
pub open spec fn spec_note_name(pc: int) -> Seq<char> {
    if pc == 0 {
        "C"@
    } else if pc == 1 {
        "C#/Db"@
    } else if pc == 2 {
        "D"@
    } else if pc == 3 {
        "D#/Eb"@
    } else if pc == 4 {
        "E"@
    } else if pc == 5 {
        "F"@
    } else if pc == 6 {
        "F#/Gb"@
    } else if pc == 7 {
        "G"@
    } else if pc == 8 {
        "G#/Ab"@
    } else if pc == 9 {
        "A"@
    } else if pc == 10 {
        "A#/Bb"@
    } else {
        "B"@
    }
}

/// One decimal digit as text.
pub open spec fn spec_digit(d: int) -> Seq<char> {
    if d == 0 {
        "0"@
    } else if d == 1 {
        "1"@
    } else if d == 2 {
        "2"@
    } else if d == 3 {
        "3"@
    } else if d == 4 {
        "4"@
    } else if d == 5 {
        "5"@
    } else if d == 6 {
        "6"@
    } else if d == 7 {
        "7"@
    } else if d == 8 {
        "8"@
    } else {
        "9"@
    }
}

/// The decimal spelling of an octave number (two digits at most: a `u8`
/// note number never reaches octave 22).
pub open spec fn spec_octave(o: int) -> Seq<char> {
    if o < 10 {
        spec_digit(o)
    } else {
        spec_digit(o / 10) + spec_digit(o % 10)
    }
}

fn note_name_str(pc: u8) -> (r: &'static str)
    requires
        pc < 12,
    ensures
        r@ == spec_note_name(pc as int),
{
    match pc {
        0 => "C",
        1 => "C#/Db",
        2 => "D",
        3 => "D#/Eb",
        4 => "E",
        5 => "F",
        6 => "F#/Gb",
        7 => "G",
        8 => "G#/Ab",
        9 => "A",
        10 => "A#/Bb",
        _ => "B",
    }
}

fn digit_str(d: u8) -> (r: &'static str)
    requires
        d < 10,
    ensures
        r@ == spec_digit(d as int),
{
    match d {
        0 => "0",
        1 => "1",
        2 => "2",
        3 => "3",
        4 => "4",
        5 => "5",
        6 => "6",
        7 => "7",
        8 => "8",
        _ => "9",
    }
}

/// The human spelling of a note number: its pitch-class name followed by
/// its octave number, e.g. 57 is spelled A4.
pub fn note_number_to_human(num: u8) -> (r: String)
    ensures
        r@ == spec_note_name((num % 12) as int) + spec_octave((num / 12) as int),
{
    let name = String::from_str(note_name_str(num % 12));
    let octave = num / 12;
    if octave < 10 {
        name.concat(digit_str(octave))
    } else {
        name.concat(digit_str(octave / 10)).concat(digit_str(octave % 10))
    }
}

} // verus!
