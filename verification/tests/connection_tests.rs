use skydaddy::header::{HeaderError, MAGIC};
use skydaddy::models::{ComputerData, DimensionId, WorldId};
use skydaddy::script::POLL_SCRIPT;
use skydaddy::server::{
    Action, Connection, ConnectionError, Event, Outcome, Server, POLL_TIMEOUT_SECS,
};

fn data() -> ComputerData {
    ComputerData { version: 1, world: WorldId(1), dimension: DimensionId(1), pos_x: -300, pos_z: -700 }
}

fn rest_of_header() -> Vec<u8> {
    let mut b = Vec::new();
    b.extend_from_slice(&1u32.to_be_bytes());
    b.extend_from_slice(&1u16.to_be_bytes());
    b.extend_from_slice(&1i16.to_be_bytes());
    b.extend_from_slice(&(-300i32).to_be_bytes());
    b.extend_from_slice(&(-700i32).to_be_bytes());
    b
}

fn registered() -> Connection {
    let (c, _) = Connection::open();
    let (c, _) = c.handle(Event::HeaderBytes(MAGIC.to_be_bytes().to_vec()));
    let (c, _) = c.handle(Event::HeaderBytes(rest_of_header()));
    let (c, a) = c.handle(Event::Registered(12));
    assert_eq!(a, Action::SendEval);
    c
}

#[test]
fn full_poll_round() {
    let (c, a) = Connection::open();
    assert_eq!(a, Action::ReadHeader(4));
    let (c, a) = c.handle(Event::HeaderBytes(MAGIC.to_be_bytes().to_vec()));
    assert_eq!(a, Action::ReadHeader(16));
    let (c, a) = c.handle(Event::HeaderBytes(rest_of_header()));
    assert_eq!(a, Action::Register(data()));
    let (c, a) = c.handle(Event::Registered(12));
    assert_eq!(a, Action::SendEval);
    let (c, a) = c.handle(Event::Sent);
    assert_eq!(a, Action::AwaitReply(POLL_TIMEOUT_SECS));
    assert_eq!(POLL_TIMEOUT_SECS, 5);
    let (c, a) = c.handle(Event::Replied(3));
    match a {
        Action::RecordPing(id) => assert_eq!(id.inner(), 12),
        other => panic!("unexpected {:?}", other),
    }
    let (c, a) = c.handle(Event::PingStored);
    assert_eq!(a, Action::SendEval);
    let (c, a) = c.handle(Event::Sent);
    assert_eq!(a, Action::AwaitReply(5));
    let (c, a) = c.handle(Event::TimedOut);
    assert_eq!(a, Action::Close(Outcome::Done));
    assert!(matches!(c, Connection::Closed { outcome: Outcome::Done }));
}

#[test]
fn whole_header_at_once() {
    let (c, _) = Connection::open();
    let mut all = MAGIC.to_be_bytes().to_vec();
    all.extend(rest_of_header());
    let (c, a) = c.handle(Event::HeaderBytes(all));
    assert_eq!(a, Action::Register(data()));
    assert!(matches!(c, Connection::Registering { .. }));
}

#[test]
fn bad_magic_closes_with_error() {
    let (c, _) = Connection::open();
    let (c, a) = c.handle(Event::HeaderBytes(vec![1, 2, 3, 4]));
    let expected = Outcome::Failed(ConnectionError::Header(HeaderError::BadMagic(0x01020304)));
    assert_eq!(a, Action::Close(expected));
    let (_, a) = c.handle(Event::Sent);
    assert_eq!(a, Action::Close(expected));
}

#[test]
fn partial_magic_asks_for_the_rest() {
    let (c, _) = Connection::open();
    let (c, a) = c.handle(Event::HeaderBytes(vec![0x6B]));
    assert_eq!(a, Action::ReadHeader(3));
    let (_, a) = c.handle(Event::HeaderBytes(vec![0x71, 0x09, 0xBA, 0, 0]));
    assert_eq!(a, Action::ReadHeader(14));
}

#[test]
fn failed_header_read_is_an_error() {
    let (c, _) = Connection::open();
    let (_, a) = c.handle(Event::ReadFailed);
    assert_eq!(a, Action::Close(Outcome::Failed(ConnectionError::ReadFailed)));
}

#[test]
fn failed_registration_is_an_error() {
    let (c, _) = Connection::open();
    let mut all = MAGIC.to_be_bytes().to_vec();
    all.extend(rest_of_header());
    let (c, _) = c.handle(Event::HeaderBytes(all));
    let (_, a) = c.handle(Event::StoreFailed);
    assert_eq!(a, Action::Close(Outcome::Failed(ConnectionError::StoreFailed)));
}

#[test]
fn failed_ping_is_an_error() {
    let c = registered();
    let (c, _) = c.handle(Event::Sent);
    let (c, _) = c.handle(Event::Replied(1));
    let (_, a) = c.handle(Event::StoreFailed);
    assert_eq!(a, Action::Close(Outcome::Failed(ConnectionError::StoreFailed)));
}

#[test]
fn closed_connection_ends_without_error() {
    let c = registered();
    let (c, _) = c.handle(Event::Sent);
    let (_, a) = c.handle(Event::Replied(0));
    assert_eq!(a, Action::Close(Outcome::Done));
}

#[test]
fn failed_read_ends_without_error() {
    let c = registered();
    let (c, _) = c.handle(Event::Sent);
    let (_, a) = c.handle(Event::ReplyFailed);
    assert_eq!(a, Action::Close(Outcome::Done));
}

#[test]
fn unrelated_event_repeats_the_request() {
    let c = registered();
    let (c, a) = c.handle(Event::PingStored);
    assert_eq!(a, Action::SendEval);
    let (c, a) = c.handle(Event::Sent);
    assert_eq!(a, Action::AwaitReply(5));
    let (_, a) = c.handle(Event::Registered(99));
    assert_eq!(a, Action::AwaitReply(5));
}

#[test]
fn registered_computer_keeps_its_data() {
    let c = registered();
    match c {
        Connection::Sending { computer } => {
            assert_eq!(computer.id.inner(), 12);
            assert_eq!(computer.data, data());
        }
        _ => panic!("not sending"),
    }
}

#[test]
fn server_polls_with_the_script() {
    let server = Server::new();
    let frame = server.eval_frame();
    let code = POLL_SCRIPT.as_bytes();
    assert_eq!(frame[0], 1);
    assert_eq!(frame[1..5], (code.len() as u32).to_be_bytes());
    assert_eq!(&frame[5..], code);
    assert!(POLL_SCRIPT.contains("robot.move(3)"));
}
