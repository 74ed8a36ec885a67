//! The life of one relay connection.
//!
//! A connection serves a single publish attempt: it is dialled once, is
//! either established or fails, and is never dialled again. Opening the
//! socket, sending the frame and waiting for the relay are the caller's
//! business; the caller reports what happened and this module decides what
//! it means.

use vstd::prelude::*;
use crate::bytes::bytes_equal;
use crate::bytes::copy_bytes;
use crate::event::NoteEvent;

verus! {

/// Where a connection stands.
#[derive(Clone, Copy, Debug, PartialEq, Eq, Structural)]
pub enum ConnectionState {
    /// Created, not dialled yet.
    Disconnected,
    /// Dialled, outcome not known yet.
    Connecting,
    /// The channel to the relay is open.
    Connected,
    /// The attempt to connect failed; the connection is spent.
    Failed,
}

/// Why a connection could not be established.
#[derive(Clone, Copy, Debug, PartialEq, Eq, Structural)]
pub enum ConnectionError {
    /// The endpoint does not ask for a secure channel, so it is not dialled.
    Insecure,
    /// The handshake or the transport failed.
    Transport,
    /// The relay did not answer in time.
    Timeout,
}

/// Why a relay did not take an event.
#[derive(Clone, Debug, PartialEq, Eq)]
pub enum PublishError {
    /// The relay declined the event and gave this reason.
    Rejected(String),
    /// No acknowledgment arrived within the bounded wait.
    Timeout,
}

/// What the transport observed after the publish frame was sent.
#[derive(Clone, Debug, PartialEq, Eq)]
pub enum RelayReply {
    /// The relay acknowledged the event.
    Accepted,
    /// The relay declined the event and gave this reason.
    Rejected(String),
    /// No acknowledgment arrived within the bounded wait.
    TimedOut,
}

/// The relay's acknowledgment of one event.
#[derive(Clone, Debug, PartialEq, Eq)]
pub struct Ack {
    /// Identifier of the event that was accepted.
    pub event_id: Vec<u8>,
}

/// Proof that a connection was established. It can be obtained from
/// [`RelayConnection::established`] only.
pub struct ConnectedHandle {
    endpoint_url: String,
}

/// One connection to one relay endpoint.
pub struct RelayConnection {
    endpoint_url: String,
    state: ConnectionState,
}

/// A connection as mathematical values.
pub ghost struct RelayConnectionView {
    pub endpoint_url: Seq<char>,
    pub state: ConnectionState,
}

impl View for RelayConnection {
    type V = RelayConnectionView;

    closed spec fn view(&self) -> RelayConnectionView {
        RelayConnectionView { endpoint_url: self.endpoint_url@, state: self.state }
    }
}

impl View for ConnectedHandle {
    type V = Seq<char>;

    /// The endpoint that the handle is connected to.
    closed spec fn view(&self) -> Seq<char> {
        self.endpoint_url@
    }
}

/// An endpoint asks for a secure channel if it begins with the scheme
/// `wss://`, in either case of the letters.
pub open spec fn is_secure_endpoint(url: Seq<char>) -> bool {
    &&& url.len() >= 6
    &&& (url[0] == 'w' || url[0] == 'W')
    &&& (url[1] == 's' || url[1] == 'S')
    &&& (url[2] == 's' || url[2] == 'S')
    &&& url[3] == ':'
    &&& url[4] == '/'
    &&& url[5] == '/'
}

/// The state after a dial request: a fresh connection starts connecting
/// if its endpoint is secure and is spent if it is not.
pub open spec fn dial_spec(conn: RelayConnectionView) -> ConnectionState {
    match conn.state {
        ConnectionState::Disconnected => if is_secure_endpoint(conn.endpoint_url) {
            ConnectionState::Connecting
        } else {
            ConnectionState::Failed
        },
        other => other,
    }
}

/// What a dial request is answered with.
pub open spec fn dial_answer(conn: RelayConnectionView) -> Result<(), ConnectionError> {
    match conn.state {
        ConnectionState::Disconnected => if is_secure_endpoint(conn.endpoint_url) {
            Ok(())
        } else {
            Err(ConnectionError::Insecure)
        },
        _ => Err(ConnectionError::Transport),
    }
}

/// The state after the transport reported how the dial ended.
pub open spec fn established_spec(
    state: ConnectionState,
    outcome: Result<(), ConnectionError>,
) -> ConnectionState {
    match state {
        ConnectionState::Connecting => match outcome {
            Ok(_) => ConnectionState::Connected,
            Err(_) => ConnectionState::Failed,
        },
        other => other,
    }
}

/// What a reply of the relay means for the event that was sent.
pub open spec fn settle_spec(event_id: Seq<u8>, reply: RelayReply) -> Result<Seq<u8>, PublishError> {
    match reply {
        RelayReply::Accepted => Ok(event_id),
        RelayReply::Rejected(reason) => Err(PublishError::Rejected(reason)),
        RelayReply::TimedOut => Err(PublishError::Timeout),
    }
}

/// What an acknowledgment message of the relay, which names an event and
/// says whether it was taken, means for the event that was sent: nothing
/// if it names another event.
pub open spec fn reply_spec(
    event_id: Seq<u8>,
    named_id: Seq<u8>,
    accepted: bool,
    message: String,
) -> Option<RelayReply> {
    if named_id != event_id {
        None
    } else if accepted {
        Some(RelayReply::Accepted)
    } else {
        Some(RelayReply::Rejected(message))
    }
}

impl RelayReply {
    /// Reads an acknowledgment message of the relay as the reply to the
    /// event that was sent. A message about another event is no reply; a
    /// refusal carries the relay's message as its reason.
    pub fn from_message(event: &NoteEvent, named_id: &Vec<u8>, accepted: bool, message: String) -> (r:
        Option<RelayReply>)
        ensures
            r == reply_spec(event@.id, named_id@, accepted, message),
    {
        if !bytes_equal(named_id, event.id()) {
            None
        } else if accepted {
            Some(RelayReply::Accepted)
        } else {
            Some(RelayReply::Rejected(message))
        }
    }
}

/// Whether an endpoint asks for a secure channel.
pub fn endpoint_is_secure(url: &str) -> (secure: bool)
    ensures
        secure == is_secure_endpoint(url@),
{
    if url.unicode_len() < 6 {
        return false;
    }
    let c0 = url.get_char(0);
    let c1 = url.get_char(1);
    let c2 = url.get_char(2);
    (c0 == 'w' || c0 == 'W') && (c1 == 's' || c1 == 'S') && (c2 == 's' || c2 == 'S')
        && url.get_char(3) == ':' && url.get_char(4) == '/' && url.get_char(5) == '/'
}

impl RelayConnection {
    /// A connection to the given endpoint that has not been dialled.
    pub fn new(endpoint_url: String) -> (conn: RelayConnection)
        ensures
            conn@.endpoint_url == endpoint_url@,
            conn@.state == ConnectionState::Disconnected,
    {
        RelayConnection { endpoint_url, state: ConnectionState::Disconnected }
    }

    /// The endpoint this connection is for.
    pub fn endpoint_url(&self) -> (url: &String)
        ensures
            url@ == self@.endpoint_url,
    {
        &self.endpoint_url
    }

    /// Where the connection stands.
    pub fn state(&self) -> (state: ConnectionState)
        ensures
            state == self@.state,
    {
        self.state
    }

    /// Asks to dial the endpoint. On `Ok` the caller must now open the
    /// transport. A fresh connection to an endpoint that is not secure is
    /// refused and spent. A connection that has been dialled before is
    /// left as it is, and the request counts as a transport failure.
    pub fn dial(&mut self) -> (r: Result<(), ConnectionError>)
        ensures
            r == dial_answer(old(self)@),
            final(self)@.state == dial_spec(old(self)@),
            final(self)@.endpoint_url == old(self)@.endpoint_url,
    {
        match self.state {
            ConnectionState::Disconnected => {
                if endpoint_is_secure(self.endpoint_url.as_str()) {
                    self.state = ConnectionState::Connecting;
                    Ok(())
                } else {
                    self.state = ConnectionState::Failed;
                    Err(ConnectionError::Insecure)
                }
            },
            _ => Err(ConnectionError::Transport),
        }
    }

    /// Takes the transport's report on a dial. A connection that is being
    /// dialled becomes connected or failed accordingly. A report for a
    /// connection that is not being dialled changes nothing and counts as a
    /// transport failure.
    pub fn established(&mut self, outcome: Result<(), ConnectionError>) -> (r: Result<
        ConnectedHandle,
        ConnectionError,
    >)
        ensures
            final(self)@.state == established_spec(old(self)@.state, outcome),
            final(self)@.endpoint_url == old(self)@.endpoint_url,
            match r {
                Ok(handle) => old(self)@.state == ConnectionState::Connecting && outcome is Ok
                    && handle@ == old(self)@.endpoint_url,
                Err(e) => if old(self)@.state == ConnectionState::Connecting {
                    outcome == Err::<(), ConnectionError>(e)
                } else {
                    e == ConnectionError::Transport
                },
            },
    {
        match self.state {
            ConnectionState::Connecting => match outcome {
                Ok(_) => {
                    self.state = ConnectionState::Connected;
                    Ok(ConnectedHandle { endpoint_url: self.endpoint_url.clone() })
                },
                Err(e) => {
                    self.state = ConnectionState::Failed;
                    Err(e)
                },
            },
            _ => Err(ConnectionError::Transport),
        }
    }
}

impl ConnectedHandle {
    /// The endpoint that the handle is connected to.
    pub fn endpoint_url(&self) -> (url: &String)
        ensures
            url@ == self@,
    {
        &self.endpoint_url
    }

    /// Turns the relay's reply to a published event into the result of the
    /// publish: an acknowledgment that names the event, the rejection with
    /// the relay's reason unchanged, or a timeout.
    pub fn settle(&self, event: &NoteEvent, reply: RelayReply) -> (r: Result<Ack, PublishError>)
        ensures
            match r {
                Ok(ack) => settle_spec(event@.id, reply) == Ok::<Seq<u8>, PublishError>(
                    ack.event_id@,
                ),
                Err(e) => settle_spec(event@.id, reply) == Err::<Seq<u8>, PublishError>(e),
            },
    {
        match reply {
            RelayReply::Accepted => Ok(Ack { event_id: copy_bytes(event.id()) }),
            RelayReply::Rejected(reason) => Err(PublishError::Rejected(reason)),
            RelayReply::TimedOut => Err(PublishError::Timeout),
        }
    }
}

/// A connection is dialled at most once: a dial request changes a fresh
/// connection only, and is answered with `Ok` only for one.
pub proof fn lemma_dial_once(conn: RelayConnectionView)
    ensures
        conn.state != ConnectionState::Disconnected ==> dial_spec(conn) == conn.state,
        dial_answer(conn) is Ok ==> conn.state == ConnectionState::Disconnected,
        dial_answer(RelayConnectionView { state: dial_spec(conn), ..conn }) is Err,
        dial_spec(RelayConnectionView { state: dial_spec(conn), ..conn }) == dial_spec(conn),
{
}

/// An endpoint that is not secure is never dialled: no dial request for
/// it is answered with `Ok`, and its connection never starts connecting.
pub proof fn lemma_insecure_endpoint_not_dialled(conn: RelayConnectionView)
    requires
        !is_secure_endpoint(conn.endpoint_url),
    ensures
        dial_answer(conn) is Err,
        conn.state != ConnectionState::Connecting ==> dial_spec(conn)
            != ConnectionState::Connecting,
{
}

/// A connection becomes connected only by a successful report on a dial
/// in progress, and once connected or failed it stays so.
pub proof fn lemma_connected_only_after_dial(
    state: ConnectionState,
    outcome: Result<(), ConnectionError>,
)
    ensures
        established_spec(state, outcome) == ConnectionState::Connected ==> state
            == ConnectionState::Connected || (state == ConnectionState::Connecting && outcome
            is Ok),
        state == ConnectionState::Connected || state == ConnectionState::Failed
            ==> established_spec(state, outcome) == state,
{
}

} // verus!
