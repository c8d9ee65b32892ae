//! The decisions of a session and of the two request handlers: who is
//! registered, which inbound frames are routed, what the write loop sends,
//! and what a submitted message comes to.

use vstd::prelude::*;
use vstd::string::*;
use vstd::utf8::{decode_utf8, valid_utf8};

use crate::access::{base_of, is_read, is_write, AccessCheck, UserId};
use crate::cipher::{be_bytes, create_keys, decrypt_id, id_to_bytes, opened, Key, TokenError};
use crate::registry::{open_channel, Outbox, Registry, Sink};

verus! {

/// Largest body, in bytes, that the ingest path takes.
pub const MAX_BODY_LEN: usize = 2048;

/// Seconds between two liveness probes on an idle connection.
pub const TICK_SECS: u64 = 10;

/// What the transport handed to the read loop.
#[derive(Debug)]
pub enum Inbound {
    /// A text frame.
    Text(String),
    /// A binary or control frame.
    Other,
    /// A read error.
    Failed,
    /// The peer closed the connection.
    End,
}

/// What woke the write loop.
#[derive(Debug)]
pub enum WriteEvent {
    /// The outbound queue answered: a message, or `None` once it is closed.
    Queued(Option<String>),
    /// The timer ticked; the seconds since the tick was due.
    Tick(u64),
}

/// A frame for the transport.
#[derive(Debug)]
pub enum Outbound {
    /// A queued message, as a text frame.
    Text(String),
    /// A liveness probe with its payload.
    Ping(Vec<u8>),
}

/// What became of a submitted message.
#[derive(Clone, Copy, Debug, PartialEq, Eq, Structural)]
pub enum IngestOutcome {
    /// A live reader's queue took the message.
    Accepted,
    /// The token carries the read role.
    Forbidden,
    /// No live reader is registered for the base id; the message is dropped.
    NotFound,
    /// The body is too long or is no UTF-8 text.
    MalformedBody,
}

/// The text of a body: its UTF-8 decoding, if it is within the size limit
/// and valid.
pub open spec fn body_text(body: Seq<u8>) -> Option<Seq<char>> {
    if body.len() <= MAX_BODY_LEN && valid_utf8(body) {
        Some(decode_utf8(body))
    } else {
        None
    }
}

/// The outcome that is decided before any routing, if there is one: a read
/// token is forbidden whatever the body, and then the body must be a text.
pub open spec fn refused(user_id: u64, body: Seq<u8>) -> Option<IngestOutcome> {
    if is_read(user_id) {
        Some(IngestOutcome::Forbidden)
    } else if body_text(body) is None {
        Some(IngestOutcome::MalformedBody)
    } else {
        None
    }
}

/// What a submission by `user_id` may do to the registry, and with what
/// outcome. A refusal changes nothing. Otherwise the message goes to the
/// reader of the base id: accepted leaves the registry as it was and needs
/// an entry; not found leaves no entry for the base id and changes nothing
/// else.
pub open spec fn submitted(
    before: Map<u64, Sink>,
    after: Map<u64, Sink>,
    user_id: u64,
    body: Seq<u8>,
    outcome: IngestOutcome,
) -> bool {
    match refused(user_id, body) {
        Some(refusal) => outcome == refusal && after == before,
        None => {
            ||| outcome == IngestOutcome::Accepted && before.contains_key(base_of(user_id))
                && after == before
            ||| outcome == IngestOutcome::NotFound && after == before.remove(base_of(user_id))
        },
    }
}

/// `String::from_utf8`: the text of the bytes, given exactly when they are
/// valid UTF-8.
#[verifier::external_body]
fn utf8_text(body: Vec<u8>) -> (r: Option<String>)
    ensures
        r is Some <==> valid_utf8(body@),
        r matches Some(text) ==> text@ == decode_utf8(body@),
{
    String::from_utf8(body).ok()
}

/// Begins the session of an accepted connection. A read identity gets a new
/// outbound queue: its sending end is registered under the base id, in
/// place of any earlier entry, and its receiving end is returned for the
/// write loop. A write identity registers nothing.
pub fn user_connected(registry: &mut Registry, user_id: UserId) -> (r: Option<Outbox>)
    ensures
        r is Some <==> is_read(user_id),
        is_read(user_id) ==> exists|sink: Sink|
            final(registry)@ == old(registry)@.insert(base_of(user_id), sink),
        is_write(user_id) ==> final(registry)@ == old(registry)@,
{
    if user_id.read_only() {
        let (sink, outbox) = open_channel();
        registry.register(user_id.base(), sink);
        assert(registry@ == old(registry)@.insert(base_of(user_id), sink));
        Some(outbox)
    } else {
        None
    }
}

/// Whether the session of `user_id` routes the text frames it receives:
/// only a write identity does.
pub fn forwards_inbound(user_id: UserId) -> (r: bool)
    ensures
        r == is_write(user_id),
{
    !user_id.read_only()
}

/// One step of the read loop. A text frame is routed to the reader of
/// `base_id` where the session forwards; other frames are passed over. The
/// loop goes on after a frame and ends on a read error or a close.
pub fn read_message(
    registry: &mut Registry,
    should_send_to_queue: bool,
    base_id: UserId,
    frame: Inbound,
) -> (going: bool)
    ensures
        going == (frame is Text || frame is Other),
        should_send_to_queue && frame is Text ==> final(registry)@ == old(registry)@ || final(registry)@ == old(registry)@.remove(base_id),
        !(should_send_to_queue && frame is Text) ==> final(registry)@ == old(registry)@,
{
    match frame {
        Inbound::Text(text) => {
            if should_send_to_queue {
                registry.route_message(base_id, text);
            }
            true
        },
        Inbound::Other => true,
        Inbound::Failed => false,
        Inbound::End => false,
    }
}

/// The registry after the session of `user_id` has ended: a reader's base
/// id has no entry any more; a writer, who never had one, leaves the
/// registry as it was.
pub open spec fn disconnected(before: Map<u64, Sink>, user_id: u64) -> Map<u64, Sink> {
    if is_read(user_id) {
        before.remove(base_of(user_id))
    } else {
        before
    }
}

/// Ends the session of `user_id`. The entry of a reader's base id leaves
/// the registry, if there still is one; the end of a writer's session
/// changes nothing.
pub fn user_disconnected(user_id: UserId, registry: &mut Registry)
    ensures
        final(registry)@ == disconnected(old(registry)@, user_id),
{
    if user_id.read_only() {
        registry.unregister(user_id.base());
    }
}

/// Whether the write loop goes on after a frame was handed to the
/// transport: a failed send ends it.
pub fn goes_on_after_send(sent: bool) -> (r: bool)
    ensures
        r == sent,
{
    sent
}

/// Where a session stands.
#[derive(Clone, Copy, Debug, PartialEq, Eq, Structural)]
pub enum SessionState {
    /// The connection is accepted; nothing is registered yet.
    Handshaking,
    /// The handshake is done and a reader is in the registry.
    Registered,
    /// The read loop and the write loop run.
    Draining,
    /// The read loop has ended and the base id is unregistered.
    Closed,
}

/// How far a session has come: a state never gives way to an earlier one.
pub open spec fn progress(state: SessionState) -> nat {
    match state {
        SessionState::Handshaking => 0,
        SessionState::Registered => 1,
        SessionState::Draining => 2,
        SessionState::Closed => 3,
    }
}

/// Whether serving `frame` concerns the registry: while the loops run, a
/// writer's text is routed through it and the end of a reader's read loop
/// unregisters; nothing else does.
pub open spec fn needs_registry(state: SessionState, user_id: u64, frame: Inbound) -> bool {
    state == SessionState::Draining && match frame {
        Inbound::Text(_) => is_write(user_id),
        Inbound::Other => false,
        Inbound::Failed => is_read(user_id),
        Inbound::End => is_read(user_id),
    }
}

/// One accepted connection, from its handshake to the end of its read loop.
#[derive(Debug)]
pub struct Session {
    pub user_id: UserId,
    pub state: SessionState,
}

impl Session {
    /// The session of a connection that was just accepted.
    pub fn new(user_id: UserId) -> (s: Session)
        ensures
            s.user_id == user_id,
            s.state == SessionState::Handshaking,
    {
        Session { user_id, state: SessionState::Handshaking }
    }

    /// Completes the handshake. A reader's new queue is registered under
    /// the base id and its receiving end returned; a writer registers
    /// nothing. In any state but the first nothing happens.
    pub fn register(&mut self, registry: &mut Registry) -> (r: Option<Outbox>)
        ensures
            final(self).user_id == old(self).user_id,
            progress(final(self).state) >= progress(old(self).state),
            old(self).state != SessionState::Handshaking ==> r is None && final(self).state == old(self).state && final(registry)@ == old(registry)@,
            old(self).state == SessionState::Handshaking ==> {
                &&& final(self).state == SessionState::Registered
                &&& r is Some <==> is_read(old(self).user_id)
                &&& is_read(old(self).user_id) ==> exists|sink: Sink|
                    final(registry)@ == old(registry)@.insert(base_of(old(self).user_id), sink)
                &&& is_write(old(self).user_id) ==> final(registry)@ == old(registry)@
            },
    {
        match self.state {
            SessionState::Handshaking => {
                self.state = SessionState::Registered;
                user_connected(registry, self.user_id)
            },
            _ => None,
        }
    }

    /// Starts the two loops of a session whose handshake is done, and says
    /// whether it did.
    pub fn start(&mut self) -> (started: bool)
        ensures
            final(self).user_id == old(self).user_id,
            started == (old(self).state == SessionState::Registered),
            started ==> final(self).state == SessionState::Draining,
            !started ==> final(self).state == old(self).state,
    {
        match self.state {
            SessionState::Registered => {
                self.state = SessionState::Draining;
                true
            },
            _ => false,
        }
    }

    /// Serves an inbound frame that does not concern the registry, and
    /// hands back one that does, unserved. While the loops run the read
    /// loop goes on after a frame and ends, closing the session, on a read
    /// error or a close; outside the draining state it does not go on and
    /// nothing changes.
    pub fn pass_over(&mut self, frame: Inbound) -> (r: Result<bool, Inbound>)
        ensures
            final(self).user_id == old(self).user_id,
            progress(final(self).state) >= progress(old(self).state),
            needs_registry(old(self).state, old(self).user_id, frame) ==> r == Err::<bool, Inbound>(
                frame,
            ) && final(self).state == old(self).state,
            !needs_registry(old(self).state, old(self).user_id, frame) ==> {
                &&& r matches Ok(going)
                &&& going == (old(self).state == SessionState::Draining && (frame is Text
                    || frame is Other))
                &&& final(self).state == (if old(self).state == SessionState::Draining && !going {
                    SessionState::Closed
                } else {
                    old(self).state
                })
            },
    {
        match self.state {
            SessionState::Draining => {
                let forwards = forwards_inbound(self.user_id);
                match frame {
                    Inbound::Text(text) => {
                        if forwards {
                            Err(Inbound::Text(text))
                        } else {
                            Ok(true)
                        }
                    },
                    Inbound::Other => Ok(true),
                    ending => {
                        if forwards {
                            self.state = SessionState::Closed;
                            Ok(false)
                        } else {
                            Err(ending)
                        }
                    },
                }
            },
            _ => Ok(false),
        }
    }

    /// Serves one inbound frame while the loops run. A writer's text is
    /// routed to the reader of the base id and other frames are passed
    /// over; a read error or a close ends the session, and the end of a
    /// reader's session unregisters its base id. Says whether the read loop
    /// goes on; outside the draining state it does not, and nothing changes.
    pub fn on_frame(&mut self, registry: &mut Registry, frame: Inbound) -> (going: bool)
        ensures
            final(self).user_id == old(self).user_id,
            progress(final(self).state) >= progress(old(self).state),
            !needs_registry(old(self).state, old(self).user_id, frame) ==> final(registry)@ == old(registry)@,
            old(self).state != SessionState::Draining ==> !going && final(self).state == old(self).state
                && final(registry)@ == old(registry)@,
            old(self).state == SessionState::Draining ==> {
                &&& going == (frame is Text || frame is Other)
                &&& going ==> final(self).state == SessionState::Draining
                &&& going ==> final(registry)@ == old(registry)@ || final(registry)@ == old(registry)@.remove(
                    base_of(old(self).user_id),
                )
                &&& !going ==> final(self).state == SessionState::Closed && final(registry)@
                    == disconnected(old(registry)@, old(self).user_id)
            },
    {
        match self.pass_over(frame) {
            Ok(going) => going,
            Err(frame) => {
                let base_id = self.user_id.base();
                let going = read_message(registry, forwards_inbound(self.user_id), base_id, frame);
                if !going {
                    user_disconnected(self.user_id, registry);
                    self.state = SessionState::Closed;
                }
                going
            },
        }
    }
}

/// The liveness probe: a ping whose payload is the elapsed seconds in eight
/// bytes, most significant first.
pub fn ping_message(elapsed_secs: u64) -> (r: Option<Outbound>)
    ensures
        r matches Some(Outbound::Ping(payload)) && payload@ == be_bytes(elapsed_secs),
{
    Some(Outbound::Ping(id_to_bytes(elapsed_secs)))
}

/// One step of the write loop: a queued message is sent as a text frame,
/// a tick sends a probe, and a closed queue ends the loop.
pub fn next_outbound(event: WriteEvent) -> (r: Option<Outbound>)
    ensures
        match event {
            WriteEvent::Queued(Some(message)) => r == Some(Outbound::Text(message)),
            WriteEvent::Queued(None) => r is None,
            WriteEvent::Tick(elapsed) => r matches Some(Outbound::Ping(payload)) && payload@
                == be_bytes(elapsed),
        },
{
    match event {
        WriteEvent::Queued(Some(message)) => Some(Outbound::Text(message)),
        WriteEvent::Queued(None) => None,
        WriteEvent::Tick(elapsed) => ping_message(elapsed),
    }
}

/// Reads a body as text: at most 2048 bytes of valid UTF-8.
pub fn parse_bytes(body: Vec<u8>) -> (r: Option<String>)
    ensures
        match body_text(body@) {
            Some(text) => r matches Some(s) && s@ == text,
            None => r is None,
        },
{
    if body.len() > MAX_BODY_LEN {
        None
    } else {
        utf8_text(body)
    }
}

/// The outcome of a routing attempt on the ingest path.
pub fn routed_outcome(delivered: bool) -> (r: IngestOutcome)
    ensures
        r == (if delivered {
            IngestOutcome::Accepted
        } else {
            IngestOutcome::NotFound
        }),
{
    if delivered {
        IngestOutcome::Accepted
    } else {
        IngestOutcome::NotFound
    }
}

/// Submits a message in the name of `user_id`. A read identity is
/// forbidden; a body that is no text is malformed; otherwise the text is
/// routed to the reader of the base id.
pub fn send_message(user_id: UserId, registry: &mut Registry, body: Vec<u8>) -> (r: IngestOutcome)
    ensures
        submitted(old(registry)@, final(registry)@, user_id, body@, r),
        !old(registry)@.contains_key(base_of(user_id)) ==> final(registry)@ == old(registry)@,
{
    if user_id.read_only() {
        return IngestOutcome::Forbidden;
    }
    match parse_bytes(body) {
        None => IngestOutcome::MalformedBody,
        Some(text) => {
            let delivered = registry.route_message(user_id.base(), text);
            routed_outcome(delivered)
        },
    }
}

/// The ingest path: opens the token under `key` and submits the body in the
/// name of the identity it holds. A token that does not open is rejected
/// with its error and changes nothing.
pub fn post_data(token: String, key: Key, registry: &mut Registry, body: Vec<u8>) -> (r: Result<
    IngestOutcome,
    TokenError,
>)
    ensures
        match opened(token@, key@) {
            Err(e) => r == Err::<IngestOutcome, TokenError>(e) && final(registry)@ == old(registry)@,
            Ok(user_id) => r matches Ok(outcome) && submitted(
                old(registry)@,
                final(registry)@,
                user_id,
                body@,
                outcome,
            ),
        },
{
    match decrypt_id(token, key) {
        Err(e) => Err(e),
        Ok(user_id) => Ok(send_message(user_id, registry, body)),
    }
}

/// The HTTP status that an outcome is answered with.
pub fn status_code(outcome: IngestOutcome) -> (r: u16)
    ensures
        r == match outcome {
            IngestOutcome::Accepted => 202u16,
            IngestOutcome::Forbidden => 403u16,
            IngestOutcome::NotFound => 404u16,
            IngestOutcome::MalformedBody => 400u16,
        },
{
    match outcome {
        IngestOutcome::Accepted => 202,
        IngestOutcome::Forbidden => 403,
        IngestOutcome::NotFound => 404,
        IngestOutcome::MalformedBody => 400,
    }
}

/// The two tokens of a pair on a line each, the read token first.
pub fn join_tokens(tokens: &[String; 2]) -> (r: String)
    ensures
        r@ == tokens[0]@ + seq!['\n'] + tokens[1]@,
{
    let mut r = tokens[0].clone();
    r.append("\n");
    r.append(tokens[1].as_str());
    proof {
        reveal_strlit("\n");
        assert("\n"@ =~= seq!['\n']);
    }
    r
}

/// The mint path: a fresh pair of tokens on a line each, the read token
/// first. Both open under `key`, to the read and to the write member of
/// one pair.
pub fn create_handler(key: Key) -> (r: String)
    ensures
        exists|read: Seq<char>, write: Seq<char>|
            {
                &&& r@ == read + seq!['\n'] + write
                &&& opened(read, key@) matches Ok(reader)
                &&& opened(write, key@) matches Ok(writer)
                &&& is_read(reader)
                &&& is_write(writer)
                &&& reader == writer + 1
            },
{
    let tokens = create_keys(key);
    let r = join_tokens(&tokens);
    assert({
        &&& r@ == tokens[0]@ + seq!['\n'] + tokens[1]@
        &&& opened(tokens[0]@, key@) matches Ok(reader)
        &&& opened(tokens[1]@, key@) matches Ok(writer)
        &&& is_read(reader)
        &&& is_write(writer)
        &&& reader == writer + 1
    });
    r
}

/// A read token never submits: whatever the body and the registry, the
/// outcome is forbidden and the registry is unchanged.
pub proof fn lemma_read_role_forbidden(
    before: Map<u64, Sink>,
    after: Map<u64, Sink>,
    user_id: u64,
    body: Seq<u8>,
    outcome: IngestOutcome,
)
    requires
        is_read(user_id),
        submitted(before, after, user_id, body, outcome),
    ensures
        outcome == IngestOutcome::Forbidden,
        after == before,
{
}

/// Without a reader for the base id a submission is never accepted and
/// leaves the registry as it was.
pub proof fn lemma_no_reader_not_accepted(
    before: Map<u64, Sink>,
    after: Map<u64, Sink>,
    user_id: u64,
    body: Seq<u8>,
    outcome: IngestOutcome,
)
    requires
        !before.contains_key(base_of(user_id)),
        submitted(before, after, user_id, body, outcome),
    ensures
        outcome != IngestOutcome::Accepted,
        after == before,
        refused(user_id, body) is None ==> outcome == IngestOutcome::NotFound,
{
    assert(before.remove(base_of(user_id)) =~= before);
}

} // verus!
