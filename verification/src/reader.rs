//! The consumer handle.
//!
//! The poller pushes every record it reads into a channel of
//! `std::sync::mpsc`; a `JoystickReader` owns the receiving end and
//! turns what arrives there into events. What arrives, and when, is up
//! to the other side of the channel, so nothing is claimed about it
//! here: the two receiving calls are trusted to return, no more. What
//! becomes of each possible outcome is decided by `event_from_recv` and
//! `event_from_try_recv`, which are verified for every outcome.

use crate::codec::{decode, decode_spec, is_decoded_record, JoystickError, JoystickEvent};
use vstd::prelude::*;

verus! {

/// `std::sync::mpsc::Receiver`, the receiving end of a channel. Nothing
/// inside it is visible to the verifier.
#[verifier::external_type_specification]
#[verifier::external_body]
#[verifier::reject_recursive_types(T)]
pub struct ExReceiver<T>(std::sync::mpsc::Receiver<T>);

/// `std::sync::mpsc::RecvError`, the error of a blocking receive: every
/// sender is gone and the channel is drained. It carries no data.
#[verifier::external_type_specification]
#[verifier::external_body]
pub struct ExRecvError(std::sync::mpsc::RecvError);

/// Why a non-blocking receive gave no record.
#[derive(Debug, Clone, Copy, PartialEq, Eq)]
pub enum TryRecvFailure {
    /// The channel holds nothing right now; a sender is still alive.
    Empty,
    /// Every sender is gone and the channel is drained.
    Disconnected,
}

/// Calls `std::sync::mpsc::Receiver::recv`, which blocks until a record
/// is queued or every sender is gone. Trusted, and nothing is assumed of
/// what it returns.
#[verifier::external_body]
fn recv_record(receiver: &std::sync::mpsc::Receiver<[u8; 8]>) -> (received: Result<
    [u8; 8],
    std::sync::mpsc::RecvError,
>) {
    receiver.recv()
}

/// Calls `std::sync::mpsc::Receiver::try_recv`, which never blocks, and
/// renames the two variants of `std::sync::mpsc::TryRecvError`. Trusted,
/// and nothing is assumed of what it returns.
#[verifier::external_body]
fn try_recv_record(receiver: &std::sync::mpsc::Receiver<[u8; 8]>) -> (received: Result<
    [u8; 8],
    TryRecvFailure,
>) {
    match receiver.try_recv() {
        Ok(record) => Ok(record),
        Err(std::sync::mpsc::TryRecvError::Empty) => Err(TryRecvFailure::Empty),
        Err(std::sync::mpsc::TryRecvError::Disconnected) => Err(TryRecvFailure::Disconnected),
    }
}

/// What a blocking receive amounts to: a record is decoded, and a
/// channel without senders is reported as `Disconnected`.
pub open spec fn event_from_recv_spec(
    received: Result<[u8; 8], std::sync::mpsc::RecvError>,
) -> Result<JoystickEvent, JoystickError> {
    match received {
        Ok(record) => decode_spec(record@),
        Err(_) => Err(JoystickError::Disconnected),
    }
}

/// What a non-blocking receive amounts to: a record is decoded, an empty
/// channel is reported as `NoEvent`, and a channel without senders as
/// `Disconnected`.
pub open spec fn event_from_try_recv_spec(received: Result<[u8; 8], TryRecvFailure>) -> Result<
    JoystickEvent,
    JoystickError,
> {
    match received {
        Ok(record) => decode_spec(record@),
        Err(TryRecvFailure::Empty) => Err(JoystickError::NoEvent),
        Err(TryRecvFailure::Disconnected) => Err(JoystickError::Disconnected),
    }
}

/// Turns the outcome of a blocking receive into the event or the error
/// that the caller sees.
pub fn event_from_recv(received: Result<[u8; 8], std::sync::mpsc::RecvError>) -> (res: Result<
    JoystickEvent,
    JoystickError,
>)
    ensures
        res == event_from_recv_spec(received),
{
    match received {
        Ok(record) => decode(&record),
        Err(_) => Err(JoystickError::Disconnected),
    }
}

/// Turns the outcome of a non-blocking receive into the event or the
/// error that the caller sees.
pub fn event_from_try_recv(received: Result<[u8; 8], TryRecvFailure>) -> (res: Result<
    JoystickEvent,
    JoystickError,
>)
    ensures
        res == event_from_try_recv_spec(received),
{
    match received {
        Ok(record) => decode(&record),
        Err(TryRecvFailure::Empty) => Err(JoystickError::NoEvent),
        Err(TryRecvFailure::Disconnected) => Err(JoystickError::Disconnected),
    }
}

/// The caller's handle on the stream of events: the receiving end of the
/// handoff.
pub struct JoystickReader {
    receiver: std::sync::mpsc::Receiver<[u8; 8]>,
}

impl JoystickReader {
    /// The channel end that this reader takes its records from.
    pub closed spec fn receiver(&self) -> std::sync::mpsc::Receiver<[u8; 8]> {
        self.receiver
    }

    /// Makes a reader of the receiving end of a handoff.
    pub fn new(receiver: std::sync::mpsc::Receiver<[u8; 8]>) -> (reader: Self)
        ensures
            reader.receiver() == receiver,
    {
        JoystickReader { receiver }
    }

    /// Waits for the next record and decodes it.
    ///
    /// Whatever the channel gives, the result is the decoding of some
    /// record or `Disconnected`, never `NoEvent`.
    pub fn read_event(&mut self) -> (res: Result<JoystickEvent, JoystickError>)
        ensures
            *final(self) == *old(self),
            res == Err::<JoystickEvent, JoystickError>(JoystickError::Disconnected)
                || is_decoded_record(res),
            res != Err::<JoystickEvent, JoystickError>(JoystickError::NoEvent),
    {
        let received = recv_record(&self.receiver);
        event_from_recv(received)
    }

    /// Decodes the next record if one is queued, without waiting.
    ///
    /// Whatever the channel gives, the result is the decoding of some
    /// record, `NoEvent` or `Disconnected`.
    pub fn read_event_now(&mut self) -> (res: Result<JoystickEvent, JoystickError>)
        ensures
            *final(self) == *old(self),
            res == Err::<JoystickEvent, JoystickError>(JoystickError::NoEvent) || res == Err::<
                JoystickEvent,
                JoystickError,
            >(JoystickError::Disconnected) || is_decoded_record(res),
    {
        let received = try_recv_record(&self.receiver);
        event_from_try_recv(received)
    }

    /// Decodes `buffer`. The reader plays no part in it and is left as it was.
    pub fn read_event_from_bytes(&mut self, buffer: &[u8; 8]) -> (res: Result<
        JoystickEvent,
        JoystickError,
    >)
        ensures
            *final(self) == *old(self),
            res == decode_spec(buffer@),
    {
        decode(buffer)
    }
}

} // verus!
