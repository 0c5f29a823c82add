//! The event codec: an 8-byte device record becomes a typed event.
//!
//! A record is laid out little-endian:
//!
//! | bytes | field                                             |
//! |-------|---------------------------------------------------|
//! | 0..4  | `time`, unsigned                                  |
//! | 4..6  | `value`, signed                                   |
//! | 6     | type byte; its two low bits are the event type    |
//! | 7     | `number`, the button or axis index                |
//!
//! The six high bits of the type byte flag synthetic events that the
//! device emits when it is opened. They do not change what an event is.

use vstd::prelude::*;

verus! {

/// Length of a device record in bytes.
pub const RECORD_LEN: usize = 8;

/// Event type of a button press or release.
pub const BUTTON_EVENT_TYPE: u8 = 1;

/// Event type of an axis movement.
pub const ANALOG_EVENT_TYPE: u8 = 2;

/// The bits of the type byte that hold the event type.
pub const EVENT_TYPE_MASK: u8 = 0b0000_0011;

/// One input change reported by the device.
#[derive(Debug, Clone, Copy, PartialEq, Eq)]
pub enum JoystickEvent {
    /// An axis moved to `value`.
    Analog { time: u32, value: i16, axis: u8 },
    /// A button went down (`pressed`) or up.
    Button { time: u32, pressed: bool, button: u8 },
}

/// Why a poll produced no event.
#[derive(Debug, Clone, Copy, PartialEq, Eq)]
pub enum JoystickError {
    /// Nothing is queued right now.
    NoEvent,
    /// The producing side of the handoff is gone for good.
    Disconnected,
    /// A record whose event type is neither button nor analog; carries
    /// the masked type.
    UnknownEventType(u8),
}

/// The timestamp field: bytes 0 to 3, little-endian, unsigned.
pub open spec fn record_time(record: Seq<u8>) -> u32
    recommends
        record.len() == RECORD_LEN,
{
    (record[0] + 256 * record[1] + 65536 * record[2] + 16777216 * record[3]) as u32
}

/// The value field: bytes 4 and 5, little-endian, two's complement.
pub open spec fn record_value(record: Seq<u8>) -> i16
    recommends
        record.len() == RECORD_LEN,
{
    let raw = record[4] + 256 * record[5];
    if raw < 32768 {
        raw as i16
    } else {
        (raw - 65536) as i16
    }
}

/// The event type: the two low bits of byte 6.
pub open spec fn record_event_type(record: Seq<u8>) -> u8
    recommends
        record.len() == RECORD_LEN,
{
    record[6] & EVENT_TYPE_MASK
}

/// The button or axis index: byte 7.
pub open spec fn record_number(record: Seq<u8>) -> u8
    recommends
        record.len() == RECORD_LEN,
{
    record[7]
}

/// What an 8-byte record means.
pub open spec fn decode_spec(record: Seq<u8>) -> Result<JoystickEvent, JoystickError>
    recommends
        record.len() == RECORD_LEN,
{
    let event_type = record_event_type(record);
    if event_type == BUTTON_EVENT_TYPE {
        Ok(
            JoystickEvent::Button {
                time: record_time(record),
                pressed: record_value(record) == 1,
                button: record_number(record),
            },
        )
    } else if event_type == ANALOG_EVENT_TYPE {
        Ok(
            JoystickEvent::Analog {
                time: record_time(record),
                value: record_value(record),
                axis: record_number(record),
            },
        )
    } else {
        Err(JoystickError::UnknownEventType(event_type))
    }
}

/// Reads bytes 0 to 3 as a little-endian `u32`.
fn read_time(record: &[u8; 8]) -> (time: u32)
    ensures
        time == record_time(record@),
{
    let b0: u32 = record[0] as u32;
    let b1: u32 = record[1] as u32;
    let b2: u32 = record[2] as u32;
    let b3: u32 = record[3] as u32;
    b0 + 256 * b1 + 65536 * b2 + 16777216 * b3
}

/// Reads bytes 4 and 5 as a little-endian `i16`.
fn read_value(record: &[u8; 8]) -> (value: i16)
    ensures
        value == record_value(record@),
{
    let low: i32 = record[4] as i32;
    let high: i32 = record[5] as i32;
    let raw: i32 = low + 256 * high;
    if raw < 32768 {
        raw as i16
    } else {
        (raw - 65536) as i16
    }
}

/// Decodes one device record.
///
/// A record of type 1 is a button event, pressed exactly when its value
/// is 1; a record of type 2 is an analog event. Any other type is
/// reported as `UnknownEventType` with the masked type. The result
/// depends on the record alone.
pub fn decode(record: &[u8; 8]) -> (res: Result<JoystickEvent, JoystickError>)
    ensures
        res == decode_spec(record@),
{
    let time: u32 = read_time(record);
    let value: i16 = read_value(record);
    let event_type: u8 = record[6] & EVENT_TYPE_MASK;
    let number: u8 = record[7];
    if event_type == BUTTON_EVENT_TYPE {
        Ok(JoystickEvent::Button { time, pressed: value == 1, button: number })
    } else if event_type == ANALOG_EVENT_TYPE {
        Ok(JoystickEvent::Analog { time, value, axis: number })
    } else {
        Err(JoystickError::UnknownEventType(event_type))
    }
}

/// The record that holds the four fields, byte by byte.
pub open spec fn record_bytes(time: u32, value: i16, type_byte: u8, number: u8) -> Seq<u8> {
    let raw = if value < 0 {
        value + 65536
    } else {
        value as int
    };
    seq![
        (time % 256) as u8,
        (time / 256 % 256) as u8,
        (time / 65536 % 256) as u8,
        (time / 16777216) as u8,
        (raw % 256) as u8,
        (raw / 256) as u8,
        type_byte,
        number,
    ]
}

/// Whether `outcome` is what decoding some record gives.
pub open spec fn is_decoded_record(outcome: Result<JoystickEvent, JoystickError>) -> bool {
    exists|record: Seq<u8>| record.len() == RECORD_LEN && #[trigger] decode_spec(record) == outcome
}

/// The fields read back from `record_bytes` are the fields put in.
pub proof fn lemma_fields_round_trip(time: u32, value: i16, type_byte: u8, number: u8)
    ensures
        record_bytes(time, value, type_byte, number).len() == RECORD_LEN,
        record_time(record_bytes(time, value, type_byte, number)) == time,
        record_value(record_bytes(time, value, type_byte, number)) == value,
        record_event_type(record_bytes(time, value, type_byte, number)) == type_byte
            & EVENT_TYPE_MASK,
        record_number(record_bytes(time, value, type_byte, number)) == number,
{
}

/// Every record is the layout of its own fields: decoding loses nothing
/// but what the type byte holds above the event type.
pub proof fn lemma_record_is_its_fields(record: Seq<u8>)
    requires
        record.len() == RECORD_LEN,
    ensures
        record_bytes(record_time(record), record_value(record), record[6], record[7]) == record,
{
    assert(record_bytes(record_time(record), record_value(record), record[6], record[7])
        =~= record);
}

/// An analog event written into the record layout decodes to itself,
/// whatever the flag bits of the type byte hold.
pub proof fn lemma_analog_round_trip(time: u32, value: i16, axis: u8, type_byte: u8)
    requires
        type_byte & EVENT_TYPE_MASK == ANALOG_EVENT_TYPE,
    ensures
        decode_spec(record_bytes(time, value, type_byte, axis)) == Ok::<
            JoystickEvent,
            JoystickError,
        >(JoystickEvent::Analog { time, value, axis }),
{
    lemma_fields_round_trip(time, value, type_byte, axis);
}

/// A button event written into the record layout, with value 1 for
/// pressed and 0 for released, decodes to itself, whatever the flag bits
/// of the type byte hold.
pub proof fn lemma_button_round_trip(time: u32, pressed: bool, button: u8, type_byte: u8)
    requires
        type_byte & EVENT_TYPE_MASK == BUTTON_EVENT_TYPE,
    ensures
        decode_spec(
            record_bytes(
                time,
                if pressed {
                    1i16
                } else {
                    0i16
                },
                type_byte,
                button,
            ),
        ) == Ok::<JoystickEvent, JoystickError>(JoystickEvent::Button { time, pressed, button }),
{
    let value: i16 = if pressed {
        1
    } else {
        0
    };
    lemma_fields_round_trip(time, value, type_byte, button);
}

/// A button record is pressed exactly when its value is 1: every other
/// value, negative ones included, reads as released.
pub proof fn lemma_button_pressed_iff_value_is_one(
    time: u32,
    value: i16,
    button: u8,
    type_byte: u8,
)
    requires
        type_byte & EVENT_TYPE_MASK == BUTTON_EVENT_TYPE,
    ensures
        decode_spec(record_bytes(time, value, type_byte, button)) == Ok::<
            JoystickEvent,
            JoystickError,
        >(JoystickEvent::Button { time, pressed: value == 1, button }),
{
    lemma_fields_round_trip(time, value, type_byte, button);
}

/// The six high bits of the type byte are ignored: two records that
/// differ only there decode alike.
pub proof fn lemma_flag_bits_are_ignored(record: Seq<u8>, type_byte: u8)
    requires
        record.len() == RECORD_LEN,
        type_byte & EVENT_TYPE_MASK == record[6] & EVENT_TYPE_MASK,
    ensures
        decode_spec(record.update(6, type_byte)) == decode_spec(record),
{
}

/// A record is a button event exactly when the two low bits of its type
/// byte are 01, and an analog event exactly when they are 10.
pub proof fn lemma_event_kind_by_type_bits(record: Seq<u8>)
    requires
        record.len() == RECORD_LEN,
    ensures
        record[6] & EVENT_TYPE_MASK == BUTTON_EVENT_TYPE <==> (decode_spec(record) matches Ok(
            event,
        ) && event is Button),
        record[6] & EVENT_TYPE_MASK == ANALOG_EVENT_TYPE <==> (decode_spec(record) matches Ok(
            event,
        ) && event is Analog),
{
}

/// A record whose two low type bits are 00 or 11 is refused with exactly
/// those bits, and no other record is refused.
pub proof fn lemma_unknown_type(record: Seq<u8>)
    requires
        record.len() == RECORD_LEN,
    ensures
        (record[6] & EVENT_TYPE_MASK == 0 || record[6] & EVENT_TYPE_MASK == 3) <==> decode_spec(
            record,
        ) is Err,
        decode_spec(record) is Err ==> decode_spec(record) == Err::<JoystickEvent, JoystickError>(
            JoystickError::UnknownEventType(record[6] & EVENT_TYPE_MASK),
        ),
        decode_spec(record) != Err::<JoystickEvent, JoystickError>(JoystickError::NoEvent),
        decode_spec(record) != Err::<JoystickEvent, JoystickError>(JoystickError::Disconnected),
{
    let type_byte = record[6];
    assert(type_byte & 3 == 0 || type_byte & 3 == 1 || type_byte & 3 == 2 || type_byte & 3 == 3)
        by (bit_vector);
}

/// What decoding can give: every event, and `UnknownEventType` with 0
/// or 3. It gives no other error.
pub proof fn lemma_what_decoding_gives(outcome: Result<JoystickEvent, JoystickError>)
    ensures
        is_decoded_record(outcome) <==> (outcome is Ok || outcome == Err::<
            JoystickEvent,
            JoystickError,
        >(JoystickError::UnknownEventType(0)) || outcome == Err::<JoystickEvent, JoystickError>(
            JoystickError::UnknownEventType(3),
        )),
{
    if is_decoded_record(outcome) {
        let record = choose|record: Seq<u8>|
            record.len() == RECORD_LEN && #[trigger] decode_spec(record) == outcome;
        lemma_unknown_type(record);
    }
    assert(0u8 & 3 == 0 && 1u8 & 3 == 1 && 2u8 & 3 == 2 && 3u8 & 3 == 3) by (bit_vector);
    match outcome {
        Ok(JoystickEvent::Analog { time, value, axis }) => {
            let record = record_bytes(time, value, ANALOG_EVENT_TYPE, axis);
            lemma_analog_round_trip(time, value, axis, ANALOG_EVENT_TYPE);
            assert(record.len() == RECORD_LEN && decode_spec(record) == outcome);
        },
        Ok(JoystickEvent::Button { time, pressed, button }) => {
            let value: i16 = if pressed {
                1
            } else {
                0
            };
            let record = record_bytes(time, value, BUTTON_EVENT_TYPE, button);
            lemma_button_round_trip(time, pressed, button, BUTTON_EVENT_TYPE);
            assert(record.len() == RECORD_LEN && decode_spec(record) == outcome);
        },
        Err(JoystickError::UnknownEventType(event_type)) => {
            if event_type == 0 || event_type == 3 {
                let record = record_bytes(0, 0, event_type, 0);
                lemma_fields_round_trip(0, 0, event_type, 0);
                assert(record.len() == RECORD_LEN && decode_spec(record) == outcome);
            }
        },
        Err(_) => {},
    }
}

} // verus!
