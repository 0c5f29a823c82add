//! Reading a joystick character device: decoding its fixed-size event
//! records, the decisions of the reconnecting device poller, and the
//! consumer handle that turns delivered records into events.

pub mod codec;
pub mod poller;
pub mod reader;
