//! How the server handles one connection.
//!
//! A client first sends its header. The server registers the computer (or
//! finds it again) in the database, then polls it in a loop: it sends the
//! poll script as an `eval` response and waits up to five seconds for the
//! client to answer. Every answer is recorded as a ping and starts the next
//! round; a timeout, a closed or failing connection ends the exchange without
//! error, while a bad header or a failing database ends it with one.
//!
//! The I/O itself is not done here: [`Connection::handle`] takes the outcome
//! of the last requested operation as an [`Event`] and tells which operation
//! to perform next as an [`Action`].

use vstd::prelude::*;
use vstd::utf8::encode_utf8;

use crate::header::{
    be32, be32_bytes, header_bytes, header_result, lemma_header_roundtrip, parse_connection_header,
    HeaderError, HEADER_LEN, MAGIC, MAGIC_LEN,
};
use crate::models::{Computer, ComputerData, ComputerId};
use crate::response::{
    eval_payload, lemma_payload_carries_code, op_byte, EvalResponse, OpCode, Response,
};
use crate::script::{lemma_poll_script_len, lemma_utf8_len_bound, POLL_SCRIPT};

verus! {

/// How long the server waits for a client's answer to a poll, in seconds.
pub const POLL_TIMEOUT_SECS: u64 = 5;

/// Why a connection ended with an error.
#[derive(Debug, Clone, Copy, PartialEq, Eq, Structural)]
pub enum ConnectionError {
    /// The header was read but is not valid.
    Header(HeaderError),
    /// Reading the header off the connection failed.
    ReadFailed,
    /// Registering the computer or recording a ping failed.
    StoreFailed,
}

/// How a connection ended.
#[derive(Debug, Clone, Copy, PartialEq, Eq, Structural)]
pub enum Outcome {
    /// The exchange ended normally.
    Done,
    /// The exchange ended with an error.
    Failed(ConnectionError),
}

/// The next operation to perform on a connection.
#[derive(Debug, Clone, Copy, PartialEq, Eq, Structural)]
pub enum Action {
    /// Read exactly this many more header bytes, then report them with
    /// [`Event::HeaderBytes`] (or [`Event::ReadFailed`]).
    ReadHeader(usize),
    /// Insert or update the computer with this data in the database, then
    /// report its row id with [`Event::Registered`] (or [`Event::StoreFailed`]).
    Register(ComputerData),
    /// Send [`Server::eval_frame`], then report [`Event::Sent`] whether or not
    /// writing succeeded.
    SendEval,
    /// Read from the connection for at most this many seconds, then report
    /// [`Event::Replied`], [`Event::TimedOut`] or [`Event::ReplyFailed`].
    AwaitReply(u64),
    /// Record a ping of this computer at the current time, then report
    /// [`Event::PingStored`] (or [`Event::StoreFailed`]).
    RecordPing(ComputerId),
    /// Close the connection; the exchange ended this way.
    Close(Outcome),
}

/// The outcome of the operation last requested.
pub enum Event {
    /// These header bytes were read.
    HeaderBytes(Vec<u8>),
    /// Reading header bytes failed.
    ReadFailed,
    /// The computer is stored under this row id.
    Registered(i64),
    /// A database operation failed.
    StoreFailed,
    /// The poll was sent (its write may have failed; that is not checked).
    Sent,
    /// No answer came in time.
    TimedOut,
    /// A read of the answer returned this many bytes; zero means the client
    /// closed the connection.
    Replied(usize),
    /// Reading the answer failed.
    ReplyFailed,
    /// The ping was recorded.
    PingStored,
}

/// Where a connection stands.
pub enum Connection {
    /// Reading the header; these bytes of it have arrived.
    ReadingHeader { received: Vec<u8> },
    /// Registering the computer that announced `data`.
    Registering { data: ComputerData },
    /// Sending a poll to `computer`.
    Sending { computer: Computer },
    /// Waiting for `computer` to answer a poll.
    Waiting { computer: Computer },
    /// Recording a ping of `computer`.
    Recording { computer: Computer },
    /// The exchange is over.
    Closed { outcome: Outcome },
}

/// How many more header bytes to read once `received` has arrived: first
/// the magic value, then the rest of the header.
pub open spec fn header_bytes_needed(received: Seq<u8>) -> int {
    if received.len() < MAGIC_LEN {
        MAGIC_LEN - received.len()
    } else if received.len() < HEADER_LEN {
        HEADER_LEN - received.len()
    } else {
        0
    }
}

/// The operation a connection waits on while it stands at `c`.
pub open spec fn pending_action(c: Connection) -> Action {
    match c {
        Connection::ReadingHeader { received } => Action::ReadHeader(
            header_bytes_needed(received@) as usize,
        ),
        Connection::Registering { data } => Action::Register(data),
        Connection::Sending { .. } => Action::SendEval,
        Connection::Waiting { .. } => Action::AwaitReply(POLL_TIMEOUT_SECS),
        Connection::Recording { computer } => Action::RecordPing(computer.id),
        Connection::Closed { outcome } => Action::Close(outcome),
    }
}

/// The registered computer of a connection at `c`, once there is one.
pub open spec fn computer_of(c: Connection) -> Option<Computer> {
    match c {
        Connection::Sending { computer } => Some(computer),
        Connection::Waiting { computer } => Some(computer),
        Connection::Recording { computer } => Some(computer),
        _ => None,
    }
}

/// `t` and `a` end the exchange with `outcome`.
pub open spec fn closes(t: Connection, a: Action, outcome: Outcome) -> bool {
    t == Connection::Closed { outcome } && a == Action::Close(outcome)
}

/// `t` and `a` leave the connection at `c`, waiting on the same operation.
pub open spec fn stays(c: Connection, t: Connection, a: Action) -> bool {
    t == c && a == pending_action(c)
}

/// A connection at `c` that receives `e` moves to `t` and asks for `a`.
/// An event that does not answer the pending operation leaves the connection
/// as it was and asks for that operation again.
pub open spec fn handled(c: Connection, e: Event, t: Connection, a: Action) -> bool {
    match c {
        Connection::ReadingHeader { received } => match e {
            Event::HeaderBytes(bytes) => {
                let all = received@ + bytes@;
                match header_result(all) {
                    Ok(data) => t == Connection::Registering { data } && a == Action::Register(data),
                    Err(HeaderError::UnexpectedEnd) => {
                        &&& t matches Connection::ReadingHeader { received: now } && now@ == all
                        &&& a == Action::ReadHeader(header_bytes_needed(all) as usize)
                    },
                    Err(err) => closes(t, a, Outcome::Failed(ConnectionError::Header(err))),
                }
            },
            Event::ReadFailed => closes(t, a, Outcome::Failed(ConnectionError::ReadFailed)),
            _ => stays(c, t, a),
        },
        Connection::Registering { data } => match e {
            Event::Registered(row_id) => {
                &&& t matches Connection::Sending { computer }
                &&& computer.id@ == row_id as u32
                &&& computer.data == data
                &&& a == Action::SendEval
            },
            Event::StoreFailed => closes(t, a, Outcome::Failed(ConnectionError::StoreFailed)),
            _ => stays(c, t, a),
        },
        Connection::Sending { computer } => match e {
            Event::Sent => t == Connection::Waiting { computer } && a == Action::AwaitReply(
                POLL_TIMEOUT_SECS,
            ),
            _ => stays(c, t, a),
        },
        Connection::Waiting { computer } => match e {
            Event::Replied(n) => if n == 0 {
                closes(t, a, Outcome::Done)
            } else {
                t == Connection::Recording { computer } && a == Action::RecordPing(computer.id)
            },
            Event::TimedOut => closes(t, a, Outcome::Done),
            Event::ReplyFailed => closes(t, a, Outcome::Done),
            _ => stays(c, t, a),
        },
        Connection::Recording { computer } => match e {
            Event::PingStored => t == Connection::Sending { computer } && a == Action::SendEval,
            Event::StoreFailed => closes(t, a, Outcome::Failed(ConnectionError::StoreFailed)),
            _ => stays(c, t, a),
        },
        Connection::Closed { .. } => stays(c, t, a),
    }
}

/// The bytes of the `eval` response carrying [`POLL_SCRIPT`], sent on every poll.
pub open spec fn poll_frame() -> Seq<u8> {
    seq![op_byte(OpCode::Eval)] + eval_payload(encode_utf8(POLL_SCRIPT@))
}

/// What the server keeps for all its connections: the poll it sends.
pub struct Server {
    frame: Vec<u8>,
}

impl View for Server {
    type V = Seq<u8>;

    /// The bytes sent on every poll.
    closed spec fn view(&self) -> Seq<u8> {
        self.frame@
    }
}

impl Server {
    /// A server whose polls carry [`POLL_SCRIPT`].
    pub fn new() -> (s: Server)
        ensures
            s@ == poll_frame(),
    {
        let response = Response::Eval(EvalResponse::from(POLL_SCRIPT));
        proof {
            lemma_poll_script_len();
            lemma_utf8_len_bound(POLL_SCRIPT@);
        }
        Server { frame: response.encode() }
    }

    /// The bytes to send for [`Action::SendEval`].
    pub fn eval_frame(&self) -> (r: &[u8])
        ensures
            r@ == self@,
    {
        self.frame.as_slice()
    }
}

fn header_bytes_still_needed(received: &Vec<u8>) -> (r: usize)
    ensures
        r == header_bytes_needed(received@),
{
    if received.len() < MAGIC_LEN {
        MAGIC_LEN - received.len()
    } else if received.len() < HEADER_LEN {
        HEADER_LEN - received.len()
    } else {
        0
    }
}

impl Connection {
    /// A freshly accepted connection: nothing of the header has arrived, and
    /// the magic value is to be read first.
    pub fn open() -> (r: (Connection, Action))
        ensures
            r.0 matches Connection::ReadingHeader { received } && received@.len() == 0,
            r.1 == Action::ReadHeader(MAGIC_LEN),
    {
        (Connection::ReadingHeader { received: Vec::new() }, Action::ReadHeader(MAGIC_LEN))
    }

    /// The next state of the connection after `event`, and what to do next.
    pub fn handle(self, event: Event) -> (r: (Connection, Action))
        ensures
            handled(self, event, r.0, r.1),
    {
        match self {
            Connection::ReadingHeader { received } => match event {
                Event::HeaderBytes(bytes) => {
                    let mut all = received;
                    let mut more = bytes;
                    all.append(&mut more);
                    match parse_connection_header(all.as_slice()) {
                        Ok(data) => (Connection::Registering { data }, Action::Register(data)),
                        Err(HeaderError::UnexpectedEnd) => {
                            let needed = header_bytes_still_needed(&all);
                            (Connection::ReadingHeader { received: all }, Action::ReadHeader(needed))
                        },
                        Err(err) => {
                            let outcome = Outcome::Failed(ConnectionError::Header(err));
                            (Connection::Closed { outcome }, Action::Close(outcome))
                        },
                    }
                },
                Event::ReadFailed => {
                    let outcome = Outcome::Failed(ConnectionError::ReadFailed);
                    (Connection::Closed { outcome }, Action::Close(outcome))
                },
                _ => {
                    let needed = header_bytes_still_needed(&received);
                    (Connection::ReadingHeader { received }, Action::ReadHeader(needed))
                },
            },
            Connection::Registering { data } => match event {
                Event::Registered(row_id) => {
                    let computer = Computer::with_row_id(row_id, data);
                    (Connection::Sending { computer }, Action::SendEval)
                },
                Event::StoreFailed => {
                    let outcome = Outcome::Failed(ConnectionError::StoreFailed);
                    (Connection::Closed { outcome }, Action::Close(outcome))
                },
                _ => (Connection::Registering { data }, Action::Register(data)),
            },
            Connection::Sending { computer } => match event {
                Event::Sent => (
                    Connection::Waiting { computer },
                    Action::AwaitReply(POLL_TIMEOUT_SECS),
                ),
                _ => (Connection::Sending { computer }, Action::SendEval),
            },
            Connection::Waiting { computer } => match event {
                Event::Replied(n) => {
                    if n == 0 {
                        (Connection::Closed { outcome: Outcome::Done }, Action::Close(Outcome::Done))
                    } else {
                        (Connection::Recording { computer }, Action::RecordPing(computer.id))
                    }
                },
                Event::TimedOut => (
                    Connection::Closed { outcome: Outcome::Done },
                    Action::Close(Outcome::Done),
                ),
                Event::ReplyFailed => (
                    Connection::Closed { outcome: Outcome::Done },
                    Action::Close(Outcome::Done),
                ),
                _ => (Connection::Waiting { computer }, Action::AwaitReply(POLL_TIMEOUT_SECS)),
            },
            Connection::Recording { computer } => match event {
                Event::PingStored => (Connection::Sending { computer }, Action::SendEval),
                Event::StoreFailed => {
                    let outcome = Outcome::Failed(ConnectionError::StoreFailed);
                    (Connection::Closed { outcome }, Action::Close(outcome))
                },
                _ => (Connection::Recording { computer }, Action::RecordPing(computer.id)),
            },
            Connection::Closed { outcome } => (Connection::Closed { outcome }, Action::Close(outcome)),
        }
    }
}

/// Once the exchange is over, nothing changes it any more: every event
/// leaves the connection closed with the same outcome.
pub proof fn lemma_closed_is_final(c: Connection, e: Event, t: Connection, a: Action)
    requires
        c is Closed,
        handled(c, e, t, a),
    ensures
        t == c,
        a == pending_action(c),
{
}

/// A computer is registered exactly with the data of a header that was read
/// in full and carried the right magic value.
pub proof fn lemma_register_after_header(c: Connection, e: Event, t: Connection, a: Action)
    requires
        handled(c, e, t, a),
        a is Register,
    ensures
        ({
            ||| c matches Connection::ReadingHeader { received } && (e matches Event::HeaderBytes(
                bytes) && header_result(received@ + bytes@) == Ok::<ComputerData, HeaderError>(
                a->Register_0))
            ||| c == Connection::Registering { data: a->Register_0 } && t == c
        }),
{
}

/// The server waits for an answer only right after sending a poll (or when
/// it is asked again while already waiting), and never longer than
/// [`POLL_TIMEOUT_SECS`].
pub proof fn lemma_wait_follows_poll(c: Connection, e: Event, t: Connection, a: Action)
    requires
        handled(c, e, t, a),
        a is AwaitReply,
    ensures
        a == Action::AwaitReply(POLL_TIMEOUT_SECS),
        (c is Sending && e is Sent) || (c is Waiting && t == c),
{
}

/// A ping is recorded only for the registered computer of the connection,
/// and only after it answered a poll with at least one byte (or when the
/// recording is asked again).
pub proof fn lemma_ping_follows_answer(c: Connection, e: Event, t: Connection, a: Action)
    requires
        handled(c, e, t, a),
        a is RecordPing,
    ensures
        computer_of(c) is Some,
        a == Action::RecordPing(computer_of(c)->Some_0.id),
        computer_of(t) == computer_of(c),
        (c is Waiting && (e matches Event::Replied(n) && n > 0)) || (c is Recording && t == c),
{
}

/// A connection that has received, in any number of pieces, the documented
/// header of some computer data `d` (and possibly more bytes after it)
/// registers exactly `d`, whatever its fields hold.
pub proof fn lemma_header_registers(
    c: Connection,
    bytes: Vec<u8>,
    d: ComputerData,
    rest: Seq<u8>,
    t: Connection,
    a: Action,
)
    requires
        c is ReadingHeader,
        c->received@ + bytes@ == header_bytes(d) + rest,
        handled(c, Event::HeaderBytes(bytes), t, a),
    ensures
        t == (Connection::Registering { data: d }),
        a == Action::Register(d),
{
    lemma_header_roundtrip(d, rest);
}

/// Once exactly the four bytes of the magic value have arrived, the
/// connection asks for the remaining sixteen bytes of the header.
pub proof fn lemma_magic_asks_for_rest(c: Connection, bytes: Vec<u8>, t: Connection, a: Action)
    requires
        c is ReadingHeader,
        c->received@ + bytes@ == be32_bytes(MAGIC as int),
        handled(c, Event::HeaderBytes(bytes), t, a),
    ensures
        t is ReadingHeader,
        t->received@ == be32_bytes(MAGIC as int),
        a == Action::ReadHeader(16),
{
    let all = be32_bytes(MAGIC as int);
    assert(all.len() == 4);
    assert(be32(all, 0) == MAGIC);
}

/// Four bytes that are not the magic value end the connection with an error
/// naming the value found, before anything is registered.
pub proof fn lemma_bad_magic_fails(c: Connection, bytes: Vec<u8>, found: u32, t: Connection, a: Action)
    requires
        c is ReadingHeader,
        c->received@.len() == 0,
        bytes@ == be32_bytes(found as int),
        found != MAGIC,
        handled(c, Event::HeaderBytes(bytes), t, a),
    ensures
        t == (Connection::Closed {
            outcome: Outcome::Failed(ConnectionError::Header(HeaderError::BadMagic(found))),
        }),
        a == Action::Close(Outcome::Failed(ConnectionError::Header(HeaderError::BadMagic(found)))),
{
    let all = bytes@;
    assert(c->received@ + bytes@ =~= all);
    assert(be32(all, 0) == found);
}

/// The computer a connection registers carries the header's data and the
/// database's row id, reduced modulo 2^32 (the low 32 bits of the row id).
pub proof fn lemma_registration_keeps_row_id(
    d: ComputerData,
    row_id: i64,
    t: Connection,
    a: Action,
)
    requires
        handled((Connection::Registering { data: d }), Event::Registered(row_id), t, a),
    ensures
        t is Sending,
        t->Sending_computer.data == d,
        t->Sending_computer.id@ as int == (row_id as int) % 0x1_0000_0000,
        0 <= row_id <= u32::MAX ==> t->Sending_computer.id@ == row_id,
        a == Action::SendEval,
{
    let id = t->Sending_computer.id@;
    assert(id == row_id as u32);
    assert((row_id as u32) as int == (row_id as int) % 0x1_0000_0000) by (bit_vector);
}

/// After a poll is sent, the connection waits up to five seconds for the
/// same computer's answer.
pub proof fn lemma_poll_then_wait(k: Computer, t: Connection, a: Action)
    requires
        handled((Connection::Sending { computer: k }), Event::Sent, t, a),
    ensures
        t == (Connection::Waiting { computer: k }),
        a == Action::AwaitReply(5),
{
}

/// Any answer of at least one byte is recorded as a ping of the polled
/// computer, and the connection goes on with it.
pub proof fn lemma_answer_is_recorded(k: Computer, n: usize, t: Connection, a: Action)
    requires
        n > 0,
        handled((Connection::Waiting { computer: k }), Event::Replied(n), t, a),
    ensures
        t == (Connection::Recording { computer: k }),
        a == Action::RecordPing(k.id),
{
}

/// After a ping is recorded, the same computer is polled again.
pub proof fn lemma_ping_then_poll(k: Computer, t: Connection, a: Action)
    requires
        handled((Connection::Recording { computer: k }), Event::PingStored, t, a),
    ensures
        t == (Connection::Sending { computer: k }),
        a == Action::SendEval,
{
}

/// A failing database operation while registering or recording ends the
/// connection with an error.
pub proof fn lemma_store_failure_fails(c: Connection, t: Connection, a: Action)
    requires
        c is Registering || c is Recording,
        handled(c, Event::StoreFailed, t, a),
    ensures
        t == (Connection::Closed { outcome: Outcome::Failed(ConnectionError::StoreFailed) }),
        a == Action::Close(Outcome::Failed(ConnectionError::StoreFailed)),
{
}

/// Every poll is an `eval` response whose length field counts the bytes of
/// [`POLL_SCRIPT`] and whose code is exactly its UTF-8 encoding.
pub proof fn lemma_poll_frame_carries_script()
    ensures
        poll_frame()[0] == 1,
        be32(poll_frame(), 1) == encode_utf8(POLL_SCRIPT@).len(),
        poll_frame().subrange(5, poll_frame().len() as int) == encode_utf8(POLL_SCRIPT@),
{
    let code = encode_utf8(POLL_SCRIPT@);
    lemma_poll_script_len();
    lemma_utf8_len_bound(POLL_SCRIPT@);
    lemma_payload_carries_code(code);
    let f = poll_frame();
    assert(f.subrange(1, 5) =~= eval_payload(code).subrange(0, 4));
    assert(be32(f, 1) == be32(eval_payload(code), 0));
    assert(f.subrange(5, f.len() as int) =~= eval_payload(code).subrange(4, 4 + code.len() as int));
}

/// A failed read of the header ends the connection with a read error.
pub proof fn lemma_header_read_failure_fails(c: Connection, t: Connection, a: Action)
    requires
        c is ReadingHeader,
        handled(c, Event::ReadFailed, t, a),
    ensures
        t == (Connection::Closed { outcome: Outcome::Failed(ConnectionError::ReadFailed) }),
        a == Action::Close(Outcome::Failed(ConnectionError::ReadFailed)),
{
}

/// Losing the client while waiting for an answer (a timeout, a closed
/// connection or a failed read) ends the exchange without error.
pub proof fn lemma_lost_client_is_no_error(c: Connection, e: Event, t: Connection, a: Action)
    requires
        c is Waiting,
        e is TimedOut || e is ReplyFailed || e == Event::Replied(0),
        handled(c, e, t, a),
    ensures
        closes(t, a, Outcome::Done),
{
}

/// An exchange ends with an error only on a header that could not be read or
/// was invalid, or on a failing database operation.
pub proof fn lemma_failure_causes(c: Connection, e: Event, t: Connection, a: Action)
    requires
        !(c is Closed),
        handled(c, e, t, a),
        t matches Connection::Closed { outcome } && outcome is Failed,
    ensures
        ({
            let err = t->outcome->Failed_0;
            ||| c is ReadingHeader && e is HeaderBytes && err is Header
            ||| c is ReadingHeader && e is ReadFailed && err is ReadFailed
            ||| (c is Registering || c is Recording) && e is StoreFailed && err is StoreFailed
        }),
{
}

/// `states`, `events` and `actions` are a run of a connection: each state
/// handles the next event and moves to the next state.
pub open spec fn is_run(states: Seq<Connection>, events: Seq<Event>, actions: Seq<Action>) -> bool {
    &&& states.len() == events.len() + 1
    &&& actions.len() == events.len()
    &&& forall|i: int|
        0 <= i < events.len() ==> handled(states[i], #[trigger] events[i], states[i + 1], actions[i])
}

/// Once a computer is registered, every later state of the connection keeps
/// that same computer until the exchange is over.
pub proof fn lemma_computer_kept(
    states: Seq<Connection>,
    events: Seq<Event>,
    actions: Seq<Action>,
    i: int,
    j: int,
)
    requires
        is_run(states, events, actions),
        0 <= i <= j < states.len(),
        computer_of(states[i]) is Some,
        !(states[j] is Closed),
    ensures
        computer_of(states[j]) == computer_of(states[i]),
    decreases j - i,
{
    if j > i {
        let k = j - 1;
        assert(handled(states[k], events[k], states[k + 1], actions[k]));
        if states[k] is Closed {
            lemma_closed_is_final(states[k], events[k], states[j], actions[k]);
        }
        lemma_computer_kept(states, events, actions, i, k);
    }
}

} // verus!
