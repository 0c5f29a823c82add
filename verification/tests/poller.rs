use joystick_reader::codec::{JoystickError, JoystickEvent};
use joystick_reader::poller::{start, step, PollerAction, PollerEvent, PollerState, Transition};
use joystick_reader::reader::JoystickReader;
use std::sync::mpsc::channel;

const WAITING: Transition = Transition {
    state: PollerState::WaitingForDevice,
    action: PollerAction::OpenDevice,
};

const READING: Transition = Transition {
    state: PollerState::Connected,
    action: PollerAction::ReadRecord,
};

#[test]
fn poller_starts_by_opening_the_device() {
    assert_eq!(start(), WAITING);
}

#[test]
fn open_failure_keeps_waiting() {
    assert_eq!(step(PollerState::WaitingForDevice, PollerEvent::OpenFailed), WAITING);
}

#[test]
fn open_success_connects() {
    assert_eq!(step(PollerState::WaitingForDevice, PollerEvent::Opened), READING);
}

#[test]
fn record_read_while_connected_is_delivered_unchanged() {
    let record: [u8; 8] = [9, 8, 7, 6, 5, 4, 3, 2];
    assert_eq!(
        step(PollerState::Connected, PollerEvent::RecordRead(record)),
        Transition {
            state: PollerState::Connected,
            action: PollerAction::Deliver([9, 8, 7, 6, 5, 4, 3, 2]),
        }
    );
}

#[test]
fn delivery_is_followed_by_the_next_read() {
    assert_eq!(step(PollerState::Connected, PollerEvent::Delivered), READING);
}

#[test]
fn failed_read_drops_the_connection() {
    let taken = step(PollerState::Connected, PollerEvent::ReadFailed);
    assert_eq!(taken, WAITING);
    assert!(!matches!(taken.action, PollerAction::Deliver(_)));
}

#[test]
fn lost_consumer_drops_the_connection() {
    assert_eq!(step(PollerState::Connected, PollerEvent::ConsumerGone), WAITING);
}

#[test]
fn nothing_is_delivered_while_waiting() {
    let record: [u8; 8] = [1, 1, 1, 1, 1, 1, 1, 1];
    assert_eq!(step(PollerState::WaitingForDevice, PollerEvent::RecordRead(record)), WAITING);
    assert_eq!(step(PollerState::WaitingForDevice, PollerEvent::Delivered), WAITING);
    assert_eq!(step(PollerState::WaitingForDevice, PollerEvent::ReadFailed), WAITING);
    assert_eq!(step(PollerState::WaitingForDevice, PollerEvent::ConsumerGone), WAITING);
}

#[test]
fn failures_reported_while_connected_disconnect() {
    assert_eq!(step(PollerState::Connected, PollerEvent::OpenFailed), WAITING);
    assert_eq!(step(PollerState::Connected, PollerEvent::Opened), READING);
}

#[test]
fn device_opens_after_repeated_failures() {
    let mut current = start();
    let mut attempt: u32 = 0;
    while attempt < 1000 {
        assert_eq!(current.action, PollerAction::OpenDevice);
        current = step(current.state, PollerEvent::OpenFailed);
        assert_eq!(current.state, PollerState::WaitingForDevice);
        attempt += 1;
    }
    current = step(current.state, PollerEvent::Opened);
    assert_eq!(current, READING);

    let first: [u8; 8] = [1, 0, 0, 0, 1, 0, 1, 0];
    let second: [u8; 8] = [2, 0, 0, 0, 0, 0, 1, 0];
    current = step(current.state, PollerEvent::RecordRead(first));
    assert_eq!(current.action, PollerAction::Deliver(first));
    current = step(current.state, PollerEvent::Delivered);
    assert_eq!(current, READING);
    current = step(current.state, PollerEvent::RecordRead(second));
    assert_eq!(current.action, PollerAction::Deliver(second));
    current = step(current.state, PollerEvent::Delivered);
    assert_eq!(current, READING);
}

#[test]
fn disconnect_during_read_delivers_nothing() {
    let mut delivered: Vec<[u8; 8]> = Vec::new();
    let script = [
        PollerEvent::Opened,
        PollerEvent::RecordRead([1, 0, 0, 0, 0, 0, 2, 0]),
        PollerEvent::Delivered,
        PollerEvent::ReadFailed,
        PollerEvent::OpenFailed,
        PollerEvent::Opened,
        PollerEvent::RecordRead([2, 0, 0, 0, 0, 0, 2, 0]),
        PollerEvent::Delivered,
    ];
    let mut current = start();
    let mut states: Vec<PollerState> = Vec::new();
    for event in script {
        current = step(current.state, event);
        states.push(current.state);
        if let PollerAction::Deliver(record) = current.action {
            delivered.push(record);
        }
    }
    assert_eq!(
        states,
        vec![
            PollerState::Connected,
            PollerState::Connected,
            PollerState::Connected,
            PollerState::WaitingForDevice,
            PollerState::WaitingForDevice,
            PollerState::Connected,
            PollerState::Connected,
            PollerState::Connected,
        ]
    );
    assert_eq!(delivered, vec![[1, 0, 0, 0, 0, 0, 2, 0], [2, 0, 0, 0, 0, 0, 2, 0]]);
}

/// What a scripted device does when the poller asks for something.
enum Scripted {
    OpenFails,
    Opens,
    Reads([u8; 8]),
    ReadFails,
}

#[test]
fn driven_poller_feeds_the_reader_in_order() {
    let script = vec![
        Scripted::OpenFails,
        Scripted::OpenFails,
        Scripted::OpenFails,
        Scripted::Opens,
        Scripted::Reads([10, 0, 0, 0, 1, 0, 0x81, 2]),
        Scripted::Reads([11, 0, 0, 0, 0x00, 0x80, 0x02, 1]),
        Scripted::ReadFails,
        Scripted::OpenFails,
        Scripted::Opens,
        Scripted::Reads([12, 0, 0, 0, 0, 0, 0x03, 9]),
        Scripted::Reads([13, 0, 0, 0, 0, 0, 0x01, 2]),
    ];
    let (sender, receiver) = channel::<[u8; 8]>();
    let mut reader = JoystickReader::new(receiver);
    assert_eq!(reader.read_event_now(), Err(JoystickError::NoEvent));

    let mut current = start();
    let mut connected = false;
    for outcome in script {
        let event = match (current.action, outcome) {
            (PollerAction::OpenDevice, Scripted::OpenFails) => {
                connected = false;
                PollerEvent::OpenFailed
            }
            (PollerAction::OpenDevice, Scripted::Opens) => {
                connected = true;
                PollerEvent::Opened
            }
            (PollerAction::ReadRecord, Scripted::Reads(record)) => PollerEvent::RecordRead(record),
            (PollerAction::ReadRecord, Scripted::ReadFails) => PollerEvent::ReadFailed,
            _ => panic!("the script does not answer the poller's action"),
        };
        current = step(current.state, event);
        if let PollerAction::Deliver(record) = current.action {
            assert!(connected);
            let sent = match sender.send(record) {
                Ok(()) => PollerEvent::Delivered,
                Err(_) => PollerEvent::ConsumerGone,
            };
            current = step(current.state, sent);
        }
        assert_eq!(current.state == PollerState::WaitingForDevice, current.action == PollerAction::OpenDevice);
    }
    assert_eq!(current, READING);

    assert_eq!(
        reader.read_event_now(),
        Ok(JoystickEvent::Button { time: 10, pressed: true, button: 2 })
    );
    assert_eq!(
        reader.read_event(),
        Ok(JoystickEvent::Analog { time: 11, value: -32768, axis: 1 })
    );
    assert_eq!(reader.read_event_now(), Err(JoystickError::UnknownEventType(3)));
    assert_eq!(
        reader.read_event_now(),
        Ok(JoystickEvent::Button { time: 13, pressed: false, button: 2 })
    );
    assert_eq!(reader.read_event_now(), Err(JoystickError::NoEvent));
}

#[test]
fn dropped_reader_sends_the_poller_back_to_waiting() {
    let (sender, receiver) = channel::<[u8; 8]>();
    let reader = JoystickReader::new(receiver);
    let mut current = step(start().state, PollerEvent::Opened);
    current = step(current.state, PollerEvent::RecordRead([0, 0, 0, 0, 0, 0, 1, 0]));
    drop(reader);
    let record = match current.action {
        PollerAction::Deliver(record) => record,
        _ => panic!("a record read while connected must be delivered"),
    };
    let sent = match sender.send(record) {
        Ok(()) => PollerEvent::Delivered,
        Err(_) => PollerEvent::ConsumerGone,
    };
    assert_eq!(sent, PollerEvent::ConsumerGone);
    current = step(current.state, sent);
    assert_eq!(current, WAITING);
}
