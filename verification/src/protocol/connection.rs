//! One connection as a state machine. The machine owns the receive buffer and
//! decides; whoever drives it reads and writes the socket, turns bodies into
//! requests and responses into bodies, and asks the runtime. Each command the
//! machine gives is answered by one event.

use crate::protocol::codec::{
    parse_frame, read_frame, string_bytes, write_string, CodecError, Parsed, MAX_LENGTH,
};
use crate::protocol::server::{
    outcome_view, response_to, Data, DataView, Error, Frame, FrameView, Request, RequestView,
    Response, ResponseView,
};
use bytes::{Buf, BytesMut};
use vstd::prelude::*;
use vstd::utf8::encode_utf8;

verus! {

/// `bytes::BytesMut`: a growable buffer of bytes. What it holds is spoken of
/// through [`contents`] alone.
#[verifier::external_type_specification]
#[verifier::external_body]
pub struct ExBytesMut(BytesMut);

/// The bytes that a buffer holds, oldest first.
pub uninterp spec fn contents(buffer: BytesMut) -> Seq<u8>;

/// `BytesMut::with_capacity`: an empty buffer.
#[verifier::external_body]
fn with_capacity(capacity: usize) -> (buffer: BytesMut)
    requires
        capacity <= isize::MAX,
    ensures
        contents(buffer) == Seq::<u8>::empty(),
{
    BytesMut::with_capacity(capacity)
}

/// `BytesMut::len`: the number of bytes held.
#[verifier::external_body]
fn len(buffer: &BytesMut) -> (n: usize)
    ensures
        n == contents(*buffer).len(),
{
    buffer.len()
}

/// `BytesMut::extend_from_slice`: the bytes of `chunk` are appended to those
/// held.
#[verifier::external_body]
fn extend_from_slice(buffer: &mut BytesMut, chunk: &[u8])
    requires
        contents(*old(buffer)).len() + chunk@.len() <= isize::MAX,
    ensures
        contents(*final(buffer)) == contents(*old(buffer)) + chunk@,
{
    buffer.extend_from_slice(chunk)
}

/// `BytesMut::as_ref`: the bytes held, as a slice.
#[verifier::external_body]
fn as_slice(buffer: &BytesMut) -> (bytes: &[u8])
    ensures
        bytes@ == contents(*buffer),
{
    buffer.as_ref()
}

/// `Buf::advance` on a `BytesMut`: the oldest `count` bytes are dropped.
#[verifier::external_body]
fn advance(buffer: &mut BytesMut, count: usize)
    requires
        count <= contents(*old(buffer)).len(),
    ensures
        contents(*final(buffer)) == contents(*old(buffer)).skip(count as int),
{
    buffer.advance(count)
}

/// How a connection ended.
#[derive(Clone, Copy, Debug, PartialEq, Eq, Structural)]
pub enum Ending {
    /// The peer shut down between two frames.
    Orderly,
    /// The peer shut down inside a frame.
    Reset,
    /// The bytes received are no frame, or the response is too long to frame.
    Invalid(CodecError),
    /// The body of a frame is no request.
    Malformed,
    /// The response could not be turned into a body.
    Unencodable,
    /// The receive buffer cannot take what was received.
    Overflow,
    /// Reading or writing the socket failed.
    Failed,
    /// An event came that answers no command.
    Unexpected,
}

/// Where a connection stands.
#[derive(Clone, Debug, PartialEq, Eq)]
pub enum Phase {
    /// Waiting for bytes from the peer.
    Reading,
    /// A frame for `dest` was cut off the buffer; its body is being decoded.
    Decoding { dest: String },
    /// The request `id` is with the runtime.
    Dispatching { id: String },
    /// The response is being turned into a body.
    Encoding,
    /// The framed response is being written.
    Writing,
    /// The connection has ended.
    Closed,
}

/// The mathematical value of a [`Phase`].
pub enum PhaseView {
    Reading,
    Decoding { dest: Seq<char> },
    Dispatching { id: Seq<char> },
    Encoding,
    Writing,
    Closed,
}

impl View for Phase {
    type V = PhaseView;

    open spec fn view(&self) -> PhaseView {
        match *self {
            Phase::Reading => PhaseView::Reading,
            Phase::Decoding { dest } => PhaseView::Decoding { dest: dest@ },
            Phase::Dispatching { id } => PhaseView::Dispatching { id: id@ },
            Phase::Encoding => PhaseView::Encoding,
            Phase::Writing => PhaseView::Writing,
            Phase::Closed => PhaseView::Closed,
        }
    }
}

/// What happened: the answer to the command given last.
#[derive(Debug, PartialEq, Eq)]
pub enum Event {
    /// The connection was accepted.
    Opened,
    /// Bytes were read; none means the peer shut down.
    Received(Vec<u8>),
    /// The body was decoded; `None` where it is no request.
    Decoded(Option<Request>),
    /// The runtime answered.
    Answered(Result<Option<Data>, Error>),
    /// The response was turned into a body; `None` where that failed.
    Encoded(Option<String>),
    /// The bytes were written and flushed.
    Written,
    /// Reading or writing failed.
    Failed,
}

/// The mathematical value of an [`Event`].
pub enum EventView {
    Opened,
    Received(Seq<u8>),
    Decoded(Option<RequestView>),
    Answered(Result<Option<DataView>, Error>),
    Encoded(Option<Seq<char>>),
    Written,
    Failed,
}

impl View for Event {
    type V = EventView;

    open spec fn view(&self) -> EventView {
        match *self {
            Event::Opened => EventView::Opened,
            Event::Received(bytes) => EventView::Received(bytes@),
            Event::Decoded(request) => EventView::Decoded(
                match request {
                    Some(r) => Some(r@),
                    None => None,
                },
            ),
            Event::Answered(outcome) => EventView::Answered(outcome_view(outcome)),
            Event::Encoded(body) => EventView::Encoded(
                match body {
                    Some(b) => Some(b@),
                    None => None,
                },
            ),
            Event::Written => EventView::Written,
            Event::Failed => EventView::Failed,
        }
    }
}

/// What to do next.
#[derive(Clone, Debug, PartialEq, Eq)]
pub enum Command {
    /// Read bytes from the peer.
    Read,
    /// Decode the body of a frame into a request.
    Decode { dest: String, body: String },
    /// Hand the request to the runtime.
    Dispatch(Frame),
    /// Turn the response into a body.
    Encode(Response),
    /// Write the bytes to the peer and flush.
    Write(Vec<u8>),
    /// Stop.
    Close(Ending),
}

/// The mathematical value of a [`Command`].
pub enum CommandView {
    Read,
    Decode { dest: Seq<char>, body: Seq<char> },
    Dispatch(FrameView),
    Encode(ResponseView),
    Write(Seq<u8>),
    Close(Ending),
}

impl View for Command {
    type V = CommandView;

    open spec fn view(&self) -> CommandView {
        match *self {
            Command::Read => CommandView::Read,
            Command::Decode { dest, body } => CommandView::Decode { dest: dest@, body: body@ },
            Command::Dispatch(frame) => CommandView::Dispatch(frame@),
            Command::Encode(response) => CommandView::Encode(response@),
            Command::Write(bytes) => CommandView::Write(bytes@),
            Command::Close(ending) => CommandView::Close(ending),
        }
    }
}

/// A connection as a value: the bytes received and not yet decoded, and the
/// phase.
pub struct ConnectionView {
    pub buffer: Seq<u8>,
    pub phase: PhaseView,
}

/// The connection closed, its buffer as it was.
pub open spec fn closed(c: ConnectionView, ending: Ending) -> (ConnectionView, CommandView) {
    (ConnectionView { phase: PhaseView::Closed, ..c }, CommandView::Close(ending))
}

/// What a reading connection does with its buffer: a complete frame is cut
/// off and its body sent to be decoded; an incomplete one leaves the buffer
/// untouched and asks for more bytes; bytes that are no frame end the
/// connection.
pub open spec fn poll(c: ConnectionView) -> (ConnectionView, CommandView) {
    match parse_frame(c.buffer) {
        Parsed::Complete { value, used } => (
            ConnectionView { buffer: c.buffer.skip(used), phase: PhaseView::Decoding { dest: value.0 } },
            CommandView::Decode { dest: value.0, body: value.1 },
        ),
        Parsed::Incomplete => (ConnectionView { phase: PhaseView::Reading, ..c }, CommandView::Read),
        Parsed::Invalid(e) => closed(c, Ending::Invalid(e)),
    }
}

/// What a connection does with an event.
pub open spec fn step(c: ConnectionView, event: EventView) -> (ConnectionView, CommandView) {
    match (c.phase, event) {
        (PhaseView::Closed, _) => closed(c, Ending::Unexpected),
        (_, EventView::Failed) => closed(c, Ending::Failed),
        (PhaseView::Reading, EventView::Opened) => poll(c),
        (PhaseView::Reading, EventView::Received(bytes)) => {
            if bytes.len() == 0 {
                if c.buffer.len() == 0 {
                    closed(c, Ending::Orderly)
                } else {
                    closed(c, Ending::Reset)
                }
            } else if c.buffer.len() + bytes.len() > isize::MAX {
                closed(c, Ending::Overflow)
            } else {
                poll(ConnectionView { buffer: c.buffer + bytes, ..c })
            }
        },
        (PhaseView::Decoding { dest }, EventView::Decoded(Some(request))) => (
            ConnectionView { phase: PhaseView::Dispatching { id: request.id }, ..c },
            CommandView::Dispatch(FrameView { dest, request }),
        ),
        (PhaseView::Decoding { dest }, EventView::Decoded(None)) => closed(c, Ending::Malformed),
        (PhaseView::Dispatching { id }, EventView::Answered(outcome)) => (
            ConnectionView { phase: PhaseView::Encoding, ..c },
            CommandView::Encode(response_to(id, outcome)),
        ),
        (PhaseView::Encoding, EventView::Encoded(Some(body))) => {
            if encode_utf8(body).len() > MAX_LENGTH {
                closed(c, Ending::Invalid(CodecError::TooLong))
            } else {
                (
                    ConnectionView { phase: PhaseView::Writing, ..c },
                    CommandView::Write(string_bytes(body)),
                )
            }
        },
        (PhaseView::Encoding, EventView::Encoded(None)) => closed(c, Ending::Unencodable),
        (PhaseView::Writing, EventView::Written) => poll(c),
        _ => closed(c, Ending::Unexpected),
    }
}

/// Where a connection stands after a run of events, and the commands it gave
/// on the way, in order.
pub open spec fn run(c: ConnectionView, events: Seq<EventView>) -> (ConnectionView, Seq<CommandView>)
    decreases events.len(),
{
    if events.len() == 0 {
        (c, Seq::empty())
    } else {
        let (before, commands) = run(c, events.drop_last());
        let (after, command) = step(before, events.last());
        (after, commands.push(command))
    }
}

/// The ids of the requests handed to the runtime, in order.
pub open spec fn requested(commands: Seq<CommandView>) -> Seq<Seq<char>>
    decreases commands.len(),
{
    if commands.len() == 0 {
        Seq::empty()
    } else {
        let front = requested(commands.drop_last());
        match commands.last() {
            CommandView::Dispatch(frame) => front.push(frame.request.id),
            _ => front,
        }
    }
}

/// The ids of the responses given out, in order.
pub open spec fn answered(commands: Seq<CommandView>) -> Seq<Seq<char>>
    decreases commands.len(),
{
    if commands.len() == 0 {
        Seq::empty()
    } else {
        let front = answered(commands.drop_last());
        match commands.last() {
            CommandView::Encode(response) => front.push(response.id),
            _ => front,
        }
    }
}

/// One step of a connection: a request is handed to the runtime only by a
/// connection that neither dispatches nor is closed, which then dispatches
/// it; a response is given only by a dispatching connection, for the request
/// it dispatched; and any other step ends a dispatch only by closing, and
/// starts none.
pub proof fn lemma_step_keeps_order(c: ConnectionView, event: EventView)
    ensures
        ({
            let (after, command) = step(c, event);
            match command {
                CommandView::Dispatch(frame) => !(c.phase is Dispatching) && !(c.phase is Closed)
                    && after.phase == (PhaseView::Dispatching { id: frame.request.id }),
                CommandView::Encode(response) => c.phase == (PhaseView::Dispatching {
                    id: response.id,
                }) && after.phase is Encoding,
                _ => !(after.phase is Dispatching) && (c.phase is Dispatching || c.phase is Closed
                    ==> after.phase is Closed),
            }
        }),
{
}

/// What holds between the requests handed to the runtime and the responses
/// given out: every request but perhaps the last is answered, in order and
/// under its own id. The last is unanswered exactly while the connection
/// dispatches it, or for good where the connection closed over it.
pub open spec fn in_order(phase: PhaseView, commands: Seq<CommandView>) -> bool {
    match phase {
        PhaseView::Dispatching { id } => requested(commands) == answered(commands).push(id),
        PhaseView::Closed => requested(commands) == answered(commands) || (requested(
            commands,
        ).len() > 0 && requested(commands).drop_last() == answered(commands)),
        _ => requested(commands) == answered(commands),
    }
}

/// Ordering: whatever events come, a connection that starts out reading
/// gives its responses in the order of its requests, each under the id of
/// the request it answers, and never hands a second request to the runtime
/// before the first is answered.
pub proof fn lemma_answers_in_request_order(c: ConnectionView, events: Seq<EventView>)
    requires
        c.phase is Reading,
    ensures
        in_order(run(c, events).0.phase, run(c, events).1),
        answered(run(c, events).1).len() <= requested(run(c, events).1).len() <= answered(
            run(c, events).1,
        ).len() + 1,
        forall|k: int|
            0 <= k < answered(run(c, events).1).len() ==> answered(run(c, events).1)[k]
                == requested(run(c, events).1)[k],
    decreases events.len(),
{
    if events.len() > 0 {
        lemma_answers_in_request_order(c, events.drop_last());
        let (before, front) = run(c, events.drop_last());
        let command = step(before, events.last()).1;
        assert(front.push(command).drop_last() =~= front);
        lemma_step_keeps_order(before, events.last());
        if before.phase is Dispatching && !(command is Encode) {
            assert(requested(front).drop_last() =~= answered(front));
        }
    }
}

/// ID echo: the response that a dispatching connection gives to the runtime's
/// answer carries the id of the request it dispatched, whether the answer is
/// a success or a failure.
pub proof fn lemma_response_carries_request_id(
    c: ConnectionView,
    outcome: Result<Option<DataView>, Error>,
)
    requires
        c.phase is Dispatching,
    ensures
        step(c, EventView::Answered(outcome)).1 matches CommandView::Encode(response)
            && response.id == c.phase->id && (response.reason is Some <==> outcome is Err),
{
}

/// Framing safety: a reading connection that holds less than a whole frame
/// asks for more bytes and leaves its buffer untouched.
pub proof fn lemma_incomplete_frame_stays(c: ConnectionView)
    requires
        parse_frame(c.buffer) is Incomplete,
    ensures
        poll(c).0.buffer == c.buffer,
        poll(c).1 == CommandView::Read,
{
}

/// The state of one connection.
pub struct Connection {
    buffer: BytesMut,
    phase: Phase,
}

impl View for Connection {
    type V = ConnectionView;

    closed spec fn view(&self) -> ConnectionView {
        ConnectionView { buffer: contents(self.buffer), phase: self.phase@ }
    }
}

impl Connection {
    /// A connection that has received nothing and waits to read.
    pub fn new() -> (connection: Connection)
        ensures
            connection@ == (ConnectionView { buffer: Seq::empty(), phase: PhaseView::Reading }),
    {
        Connection { buffer: with_capacity(64 * 1024 + 1024), phase: Phase::Reading }
    }

    /// The phase the connection is in.
    pub fn phase(&self) -> (phase: &Phase)
        ensures
            phase@ == self@.phase,
    {
        &self.phase
    }

    /// The number of bytes received and not yet decoded.
    pub fn buffered(&self) -> (n: usize)
        ensures
            n == self@.buffer.len(),
    {
        len(&self.buffer)
    }

    /// Takes an event and says what to do next.
    pub fn handle(&mut self, event: Event) -> (command: Command)
        ensures
            (final(self)@, command@) == step(old(self)@, event@),
    {
        let mut phase = Phase::Closed;
        core::mem::swap(&mut self.phase, &mut phase);
        match (phase, event) {
            (Phase::Closed, _) => Command::Close(Ending::Unexpected),
            (_, Event::Failed) => Command::Close(Ending::Failed),
            (Phase::Reading, Event::Opened) => self.parse_frame(),
            (Phase::Reading, Event::Received(bytes)) => self.receive(bytes),
            (Phase::Decoding { dest }, Event::Decoded(Some(request))) => {
                self.phase = Phase::Dispatching { id: request.id.clone() };
                Command::Dispatch(Frame { dest, request })
            },
            (Phase::Decoding { dest }, Event::Decoded(None)) => Command::Close(Ending::Malformed),
            (Phase::Dispatching { id }, Event::Answered(outcome)) => {
                self.phase = Phase::Encoding;
                Command::Encode(Response::new(id, outcome))
            },
            (Phase::Encoding, Event::Encoded(Some(body))) => {
                match write_string(body.as_str()) {
                    Ok(bytes) => {
                        self.phase = Phase::Writing;
                        Command::Write(bytes)
                    },
                    Err(e) => Command::Close(Ending::Invalid(e)),
                }
            },
            (Phase::Encoding, Event::Encoded(None)) => Command::Close(Ending::Unencodable),
            (Phase::Writing, Event::Written) => self.parse_frame(),
            _ => Command::Close(Ending::Unexpected),
        }
    }

    /// Takes in what was read from the peer. No bytes at all mean that the
    /// peer shut down: in order where nothing is buffered, inside a frame
    /// where something is.
    fn receive(&mut self, bytes: Vec<u8>) -> (command: Command)
        requires
            old(self)@.phase == PhaseView::Closed,
        ensures
            (final(self)@, command@) == step(
                ConnectionView { phase: PhaseView::Reading, ..old(self)@ },
                EventView::Received(bytes@),
            ),
    {
        let held = len(&self.buffer);
        let limit = isize::MAX as usize;
        if bytes.len() == 0 {
            if held == 0 {
                Command::Close(Ending::Orderly)
            } else {
                Command::Close(Ending::Reset)
            }
        } else if held > limit || bytes.len() > limit - held {
            Command::Close(Ending::Overflow)
        } else {
            extend_from_slice(&mut self.buffer, bytes.as_slice());
            self.parse_frame()
        }
    }

    /// Cuts a frame off the buffer if a whole one is there.
    fn parse_frame(&mut self) -> (command: Command)
        requires
            old(self)@.phase == PhaseView::Closed,
        ensures
            (final(self)@, command@) == poll(old(self)@),
    {
        match read_frame(as_slice(&self.buffer)) {
            Ok(Some((dest, body, used))) => {
                advance(&mut self.buffer, used);
                self.phase = Phase::Decoding { dest: dest.clone() };
                Command::Decode { dest, body }
            },
            Ok(None) => {
                self.phase = Phase::Reading;
                Command::Read
            },
            Err(e) => Command::Close(Ending::Invalid(e)),
        }
    }
}

} // verus!
