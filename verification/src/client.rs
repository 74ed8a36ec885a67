//! One publish operation, end to end.
//!
//! A publish runs through three stages: a key pair is generated and the
//! relay is dialled; once the connection stands, the note is built and
//! signed; once the relay has answered, the identifier is encoded for
//! display. Each stage is a value that is consumed by the next, so a stage
//! cannot be skipped or repeated, and nothing of one publish is left over
//! for another. The caller does the waiting in between.

use vstd::prelude::*;
use crate::encoder::decode_spec;
use crate::encoder::encode;
use crate::encoder::encode_spec;
use crate::encoder::lemma_decode_inverts_encode;
use crate::encoder::EncodingError;
use crate::event::build_refusal;
use crate::event::EventBuilder;
use crate::event::EventError;
use crate::event::NoteEvent;
use crate::event::NoteEventView;
use crate::keys::KeyError;
use crate::keys::KeyPair;
use crate::keys::KeyPairView;
use crate::relay::is_secure_endpoint;
use crate::relay::settle_spec;
use crate::relay::ConnectedHandle;
use crate::relay::ConnectionError;
use crate::relay::ConnectionState;
use crate::relay::PublishError;
use crate::relay::RelayConnection;
use crate::relay::RelayReply;

verus! {

/// The relay that is used where none is configured.
pub const DEFAULT_RELAY_URL: &'static str = "wss://nostr.mutinywallet.com";

/// Why a publish operation did not go through.
#[derive(Clone, Debug, PartialEq, Eq)]
pub enum PublishClientError {
    /// No key pair could be generated.
    EntropyUnavailable,
    /// The relay could not be reached.
    Connection(ConnectionError),
    /// The note could not be built or signed.
    Event(EventError),
    /// The relay declined the note and gave this reason.
    PublishRejected(String),
    /// The relay did not acknowledge the note in time.
    PublishTimeout,
    /// The identifier could not be rendered for display.
    Encoding(EncodingError),
}

/// What a successful publish hands back.
#[derive(Clone, Debug, PartialEq, Eq)]
pub struct PublishResult {
    /// The identifier of the published event.
    pub raw_identifier: Vec<u8>,
    /// The same identifier as checksummed text.
    pub display_identifier: String,
}

impl PublishResult {
    /// The display text is the encoding of the raw identifier.
    pub open spec fn wf(&self) -> bool {
        encode_spec(self.raw_identifier@) == Ok::<Seq<char>, EncodingError>(
            self.display_identifier@,
        )
    }
}

/// Publishes notes to one configured relay.
pub struct PublishClient {
    relay_url: String,
}

/// A publish that waits for its connection.
pub struct PendingConnection {
    content: String,
    keypair: KeyPair,
    relay: RelayConnection,
}

/// A publish whose note is on its way and that waits for the relay's reply.
pub struct PendingAck {
    handle: ConnectedHandle,
    event: NoteEvent,
}

/// A publish that waits for its connection, as mathematical values.
pub ghost struct PendingConnectionView {
    pub content: Seq<char>,
    pub keypair: KeyPairView,
    pub endpoint_url: Seq<char>,
}

/// A publish that waits for the relay's reply, as mathematical values.
pub ghost struct PendingAckView {
    pub endpoint_url: Seq<char>,
    pub event: NoteEventView,
}

impl View for PublishClient {
    type V = Seq<char>;

    /// The configured relay endpoint.
    closed spec fn view(&self) -> Seq<char> {
        self.relay_url@
    }
}

impl View for PendingConnection {
    type V = PendingConnectionView;

    closed spec fn view(&self) -> PendingConnectionView {
        PendingConnectionView {
            content: self.content@,
            keypair: self.keypair@,
            endpoint_url: self.relay@.endpoint_url,
        }
    }
}

impl View for PendingAck {
    type V = PendingAckView;

    closed spec fn view(&self) -> PendingAckView {
        PendingAckView { endpoint_url: self.handle@, event: self.event@ }
    }
}

/// What [`PublishClient::start`] makes of what the key generator delivered,
/// for a client of the given endpoint.
pub open spec fn start_spec(
    endpoint_url: Seq<char>,
    content: Seq<char>,
    generated: Result<KeyPair, KeyError>,
) -> Result<PendingConnectionView, PublishClientError> {
    match generated {
        Err(_) => Err(PublishClientError::EntropyUnavailable),
        Ok(keypair) => if is_secure_endpoint(endpoint_url) {
            Ok(PendingConnectionView { content, keypair: keypair@, endpoint_url })
        } else {
            Err(PublishClientError::Connection(ConnectionError::Insecure))
        },
    }
}

/// What the relay's reply means for a publish of the event with the given
/// identifier: on an acknowledgment the identifier, raw and as display
/// text; otherwise the publish error under its own name.
pub open spec fn acknowledged_spec(event_id: Seq<u8>, reply: RelayReply) -> Result<
    (Seq<u8>, Seq<char>),
    PublishClientError,
> {
    match settle_spec(event_id, reply) {
        Ok(acknowledged_id) => match encode_spec(acknowledged_id) {
            Ok(text) => Ok((acknowledged_id, text)),
            Err(e) => Err(PublishClientError::Encoding(e)),
        },
        Err(PublishError::Rejected(reason)) => Err(PublishClientError::PublishRejected(reason)),
        Err(PublishError::Timeout) => Err(PublishClientError::PublishTimeout),
    }
}

impl PublishClient {
    /// A client for the given relay endpoint.
    pub fn new(relay_url: String) -> (client: PublishClient)
        ensures
            client@ == relay_url@,
    {
        PublishClient { relay_url }
    }

    /// A client for [`DEFAULT_RELAY_URL`].
    pub fn with_default_relay() -> (client: PublishClient)
        ensures
            client@ == DEFAULT_RELAY_URL@,
    {
        PublishClient { relay_url: DEFAULT_RELAY_URL.to_owned() }
    }

    /// The configured relay endpoint.
    pub fn relay_url(&self) -> (url: &String)
        ensures
            url@ == self@,
    {
        &self.relay_url
    }

    /// Starts a publish with what the key generator delivered. Without a
    /// key pair the publish is over. With one the relay is dialled, unless
    /// its endpoint is not secure, which ends the publish as well. The
    /// publish that waits holds the content and the key pair as they were
    /// given.
    pub fn start(&self, content: &str, generated: Result<KeyPair, KeyError>) -> (r: Result<
        PendingConnection,
        PublishClientError,
    >)
        ensures
            match r {
                Ok(pending) => start_spec(self@, content@, generated) == Ok::<
                    PendingConnectionView,
                    PublishClientError,
                >(pending@),
                Err(e) => start_spec(self@, content@, generated) == Err::<
                    PendingConnectionView,
                    PublishClientError,
                >(e),
            },
    {
        match generated {
            Ok(keypair) => {
                let mut relay = RelayConnection::new(self.relay_url.clone());
                match relay.dial() {
                    Ok(_) => Ok(PendingConnection { content: content.to_owned(), keypair, relay }),
                    Err(e) => Err(PublishClientError::Connection(e)),
                }
            },
            Err(_) => Err(PublishClientError::EntropyUnavailable),
        }
    }

    /// Starts a publish of `content` under a freshly generated identity.
    /// On success the caller connects to [`PendingConnection::endpoint_url`]
    /// and reports how that ended, to [`PendingConnection::connected`] or
    /// to [`PendingConnection::connection_failed`].
    ///
    /// A publish that waits holds a well-formed key pair. The entropy
    /// source decides whether there is one; an endpoint that is not secure
    /// never gets as far as waiting.
    pub fn begin(&self, content: &str) -> (r: Result<PendingConnection, PublishClientError>)
        ensures
            match r {
                Ok(pending) => is_secure_endpoint(self@) && pending@.content == content@
                    && pending@.endpoint_url == self@ && pending@.keypair.wf(),
                Err(e) => e == PublishClientError::EntropyUnavailable || (!is_secure_endpoint(
                    self@,
                ) && e == PublishClientError::Connection(ConnectionError::Insecure)),
            },
    {
        self.start(content, KeyPair::generate())
    }
}

impl PendingConnection {
    #[verifier::type_invariant]
    spec fn inv(self) -> bool {
        self.relay@.state == ConnectionState::Connecting
    }

    /// The endpoint that the caller has to connect to.
    pub fn endpoint_url(&self) -> (url: &String)
        ensures
            url@ == self@.endpoint_url,
    {
        self.relay.endpoint_url()
    }

    /// The content that is going to be published.
    pub fn content(&self) -> (text: &String)
        ensures
            text@ == self@.content,
    {
        &self.content
    }

    /// The public key under which the note is going to be signed.
    pub fn public_key(&self) -> (key: &Vec<u8>)
        ensures
            key@ == self@.keypair.public_key,
    {
        &self.keypair.public_key
    }

    /// Goes on once the connection stands: the note is built and signed
    /// with creation time `now`, in seconds since the Unix epoch, and the
    /// caller has to send [`PendingAck::event`]. The publish ends here only
    /// if the note cannot be built.
    pub fn connected(self, now: u64) -> (r: Result<PendingAck, PublishClientError>)
        ensures
            match r {
                Ok(next) => next@.endpoint_url == self@.endpoint_url && next@.event.consistent()
                    && next@.event.public_key == self@.keypair.public_key
                    && next@.event.created_at == now && next@.event.content == self@.content,
                Err(PublishClientError::Event(e)) => build_refusal(
                    e,
                    self@.keypair.public_key,
                    self@.keypair.private_key,
                    now,
                    self@.content,
                ),
                Err(_) => false,
            },
    {
        proof {
            use_type_invariant(&self);
        }
        let PendingConnection { content, keypair, relay } = self;
        let mut relay = relay;
        match relay.established(Ok(())) {
            Ok(handle) => match EventBuilder::build(content.as_str(), &keypair, now) {
                Ok(event) => Ok(PendingAck { handle, event }),
                Err(e) => Err(PublishClientError::Event(e)),
            },
            Err(e) => Err(PublishClientError::Connection(e)),
        }
    }

    /// Ends the publish because connecting failed, with that failure.
    pub fn connection_failed(self, error: ConnectionError) -> (e: PublishClientError)
        ensures
            e == PublishClientError::Connection(error),
    {
        proof {
            use_type_invariant(&self);
        }
        let PendingConnection { content, keypair, relay } = self;
        let mut relay = relay;
        match relay.established(Err(error)) {
            Ok(_) => PublishClientError::Connection(error),
            Err(e) => PublishClientError::Connection(e),
        }
    }
}

impl PendingAck {
    /// The endpoint that the note is sent to.
    pub fn endpoint_url(&self) -> (url: &String)
        ensures
            url@ == self@.endpoint_url,
    {
        self.handle.endpoint_url()
    }

    /// The note that the caller has to send.
    pub fn event(&self) -> (event: &NoteEvent)
        ensures
            event@ == self@.event,
    {
        &self.event
    }

    /// Finishes the publish with the relay's reply. An acknowledged note
    /// yields its identifier, raw and as display text; a rejection yields
    /// the relay's reason unchanged; a missing reply yields a timeout.
    pub fn acknowledged(self, reply: RelayReply) -> (r: Result<PublishResult, PublishClientError>)
        ensures
            match r {
                Ok(result) => acknowledged_spec(self@.event.id, reply) == Ok::<
                    (Seq<u8>, Seq<char>),
                    PublishClientError,
                >((result.raw_identifier@, result.display_identifier@)) && result.wf(),
                Err(e) => acknowledged_spec(self@.event.id, reply) == Err::<
                    (Seq<u8>, Seq<char>),
                    PublishClientError,
                >(e),
            },
    {
        match self.handle.settle(&self.event, reply) {
            Ok(ack) => {
                let raw_identifier = ack.event_id;
                match encode(&raw_identifier) {
                    Ok(display_identifier) => Ok(
                        PublishResult { raw_identifier, display_identifier },
                    ),
                    Err(e) => Err(PublishClientError::Encoding(e)),
                }
            },
            Err(PublishError::Rejected(reason)) => Err(PublishClientError::PublishRejected(reason)),
            Err(PublishError::Timeout) => Err(PublishClientError::PublishTimeout),
        }
    }
}

/// The relay that is used where none is configured asks for a secure
/// channel.
pub proof fn lemma_default_relay_is_secure()
    ensures
        is_secure_endpoint(DEFAULT_RELAY_URL@),
{
    reveal_strlit("wss://nostr.mutinywallet.com");
}

/// The key pair of a publish is the one that was generated for it: it
/// depends on what the generator delivered for this publish and on nothing
/// else, neither on the content nor on the endpoint.
pub proof fn lemma_key_pair_is_the_generated_one(
    endpoint_url: Seq<char>,
    content: Seq<char>,
    other_endpoint_url: Seq<char>,
    other_content: Seq<char>,
    generated: Result<KeyPair, KeyError>,
)
    requires
        start_spec(endpoint_url, content, generated) is Ok,
        start_spec(other_endpoint_url, other_content, generated) is Ok,
    ensures
        generated is Ok,
        start_spec(endpoint_url, content, generated)->Ok_0.keypair == generated->Ok_0@,
        start_spec(other_endpoint_url, other_content, generated)->Ok_0.keypair == start_spec(
            endpoint_url,
            content,
            generated,
        )->Ok_0.keypair,
{
}

/// A publish succeeds only on an acknowledgment, and a rejection is
/// reported with the relay's own reason.
pub proof fn lemma_reply_decides(event_id: Seq<u8>, reply: RelayReply)
    ensures
        acknowledged_spec(event_id, reply) is Ok ==> reply is Accepted,
        reply matches RelayReply::Rejected(reason) ==> acknowledged_spec(event_id, reply) == Err::<
            (Seq<u8>, Seq<char>),
            PublishClientError,
        >(PublishClientError::PublishRejected(reason)),
        reply is TimedOut ==> acknowledged_spec(event_id, reply) == Err::<
            (Seq<u8>, Seq<char>),
            PublishClientError,
        >(PublishClientError::PublishTimeout),
{
}

/// The display text of a successful publish decodes to the identifier of
/// the event that was published.
pub proof fn lemma_display_identifier_decodes(
    event_id: Seq<u8>,
    reply: RelayReply,
    raw: Seq<u8>,
    text: Seq<char>,
)
    requires
        acknowledged_spec(event_id, reply) == Ok::<(Seq<u8>, Seq<char>), PublishClientError>(
            (raw, text),
        ),
    ensures
        raw == event_id,
        decode_spec(text) == Ok::<Seq<u8>, EncodingError>(event_id),
{
    lemma_decode_inverts_encode(event_id, text);
}

/// Two successful publishes of events with different identifiers hand back
/// different raw identifiers and different display texts.
pub proof fn lemma_different_events_different_results(
    first_id: Seq<u8>,
    first_reply: RelayReply,
    second_id: Seq<u8>,
    second_reply: RelayReply,
)
    requires
        acknowledged_spec(first_id, first_reply) is Ok,
        acknowledged_spec(second_id, second_reply) is Ok,
        first_id != second_id,
    ensures
        acknowledged_spec(first_id, first_reply)->Ok_0.0 != acknowledged_spec(
            second_id,
            second_reply,
        )->Ok_0.0,
        acknowledged_spec(first_id, first_reply)->Ok_0.1 != acknowledged_spec(
            second_id,
            second_reply,
        )->Ok_0.1,
{
}

} // verus!
