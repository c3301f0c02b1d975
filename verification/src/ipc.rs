//! The inter-process message bridge: the per-surface message channel pair
//! and the fetch/send protocol served on the surface's own execution thread.
//!
//! Each surface gets two unbounded FIFO byte queues, one per direction,
//! created together by [`new_ipc_channel`].  The host keeps the
//! [`IpcSender`] (host to surface) and the [`IpcQueue`] (surface to host);
//! the [`TemporaryIpcStore`] carries the opposite ends to whichever
//! subsystem wires the native surface, and is consumed exactly once doing
//! so.  The protocol handler runs on the surface's own thread, which may
//! block; it never touches the registry and speaks to the host only through
//! the channel pair.

use vstd::prelude::*;
use vstd::string::StrSliceExecFns;

use crate::WebViewHandle;
use crate::codec::encode_string;
use crate::codec::msgpack_of_string;

verus! {

/// Instruction to the host that a surface should be nudged to pull a
/// message: produced by a send, consumed by the host's fetch trigger.  The
/// sender returns this token instead of performing any delivery itself, so
/// the host decides when and whether to trigger delivery.
#[derive(Clone, Copy, Debug)]
pub struct FetchEvent(pub WebViewHandle);

#[verifier::external_type_specification]
#[verifier::external_body]
#[verifier::reject_recursive_types(T)]
pub struct ExChannelSender<T>(crossbeam::channel::Sender<T>);

#[verifier::external_type_specification]
#[verifier::external_body]
#[verifier::reject_recursive_types(T)]
pub struct ExChannelReceiver<T>(crossbeam::channel::Receiver<T>);

/// Whether these two endpoint values are the sending and receiving ends of
/// one channel.  That pairing is fixed when the channel is created and
/// never changes, so it is a stable property of the endpoint values and may
/// be named; which messages the channel holds at a moment depends on other
/// threads and deliberately gets no name.
pub uninterp spec fn chan_linked(
    sender: crossbeam::channel::Sender<Vec<u8>>,
    receiver: crossbeam::channel::Receiver<Vec<u8>>,
) -> bool;

/// Relies on crossbeam::channel::unbounded: returns the two ends of one
/// fresh unbounded FIFO queue, linked to each other and to nothing else.
#[verifier::external_body]
fn chan_unbounded() -> (r: (
    crossbeam::channel::Sender<Vec<u8>>,
    crossbeam::channel::Receiver<Vec<u8>>,
))
    ensures
        chan_linked(r.0, r.1),
{
    crossbeam::channel::unbounded()
}

/// Relies on crossbeam::channel::Sender::send: enqueues the message at the
/// back of the queue unless every receiving end is gone; returns whether it
/// was accepted.  Whether it is accepted depends on the other end's thread,
/// so nothing more is stated.
#[verifier::external_body]
fn chan_send(sender: &crossbeam::channel::Sender<Vec<u8>>, message: Vec<u8>) -> bool {
    sender.send(message).is_ok()
}

/// Relies on crossbeam::channel::Receiver::recv: blocks until a message
/// arrives, returning it, or until the queue is empty with every sending
/// end gone, returning `None`.  What arrives depends on other threads, so
/// nothing more is stated.
#[verifier::external_body]
fn chan_recv(receiver: &crossbeam::channel::Receiver<Vec<u8>>) -> Option<Vec<u8>> {
    receiver.recv().ok()
}

/// Relies on crossbeam::channel::Receiver::try_recv: returns the frontmost
/// already-buffered message without blocking, or `None` when none is
/// buffered at this moment.
#[verifier::external_body]
fn chan_try_recv(receiver: &crossbeam::channel::Receiver<Vec<u8>>) -> Option<Vec<u8>> {
    receiver.try_recv().ok()
}

/// Host-side sending end of one surface's outgoing queue.
pub struct IpcSender {
    sender: crossbeam::channel::Sender<Vec<u8>>,
}

/// Host-side receiving end of one surface's incoming queue: a lazy,
/// restartable, non-blocking pull.
pub struct IpcQueue {
    receiver: crossbeam::channel::Receiver<Vec<u8>>,
}

/// The opposite ends of both queues, handed to whichever subsystem wires
/// the native surface's callbacks.  It exists only to solve the
/// construction-order problem (the native surface must be told how to reach
/// the channel before it exists as a registry entry) and is consumed
/// exactly once, by [`TemporaryIpcStore::make_async_protocol`] or
/// [`TemporaryIpcStore::make_ipc_handler`]; after construction it must not
/// be retained, or unrelated code could bypass the protocol handler.
pub struct TemporaryIpcStore {
    sender: crossbeam::channel::Sender<Vec<u8>>,
    receiver: crossbeam::channel::Receiver<Vec<u8>>,
}

impl IpcSender {
    /// The sending end this sender pushes outgoing messages into.
    pub closed spec fn spec_sender(&self) -> crossbeam::channel::Sender<Vec<u8>> {
        self.sender
    }
}

impl IpcQueue {
    /// The receiving end this queue polls incoming messages from.
    pub closed spec fn spec_receiver(&self) -> crossbeam::channel::Receiver<Vec<u8>> {
        self.receiver
    }
}

/// Creates one surface's message channel pair: the host-side sending and
/// receiving ends, and the temporary store carrying the surface-side ends.
/// The two queues are created together and the pairing boundary is never
/// crossed: the store's sender and the host queue are the two ends of the
/// incoming channel, the host sender and the store's receiver the two ends
/// of the outgoing one.
pub fn new_ipc_channel() -> (r: (IpcSender, IpcQueue, TemporaryIpcStore))
    ensures
        chan_linked(r.2.spec_sender(), r.1.spec_receiver()),
        chan_linked(r.0.spec_sender(), r.2.spec_receiver()),
{
    let (incoming_send, incoming_receive) = chan_unbounded();
    let (outgoing_send, outgoing_receive) = chan_unbounded();
    (
        IpcSender { sender: outgoing_send },
        IpcQueue { receiver: incoming_receive },
        TemporaryIpcStore { sender: incoming_send, receiver: outgoing_receive },
    )
}

impl IpcSender {
    /// Serializes the payload with the fixed binary encoding, pushes it
    /// onto the outgoing queue, and returns the fetch-needed token for the
    /// surface; no delivery is performed here.
    pub fn send(&self, handle: WebViewHandle, msg: &String) -> (e: FetchEvent)
        ensures
            e.0 == handle,
    {
        let encoded = encode_string(msg);
        let _ = chan_send(&self.sender, encoded);
        FetchEvent(handle)
    }

    /// Pushes already-encoded bytes onto the outgoing queue verbatim and
    /// returns the fetch-needed token.
    pub fn send_raw(&self, handle: WebViewHandle, bytes: Vec<u8>) -> (e: FetchEvent)
        ensures
            e.0 == handle,
    {
        let _ = chan_send(&self.sender, bytes);
        FetchEvent(handle)
    }
}

/// Outcome of one poll of the incoming queue.
#[derive(Clone, Debug)]
pub enum Polled {
    /// Nothing was buffered at the moment of the poll.
    Empty,
    /// One buffered message, decoded.
    Message(String),
    /// A buffered buffer that is not a well-formed encoding: a fatal
    /// condition for that message — it is dropped rather than delivered as
    /// garbage.
    Malformed,
}

/// What one poll yields from what the channel handed back: nothing when
/// nothing was buffered; the decoded payload for every buffer that
/// [`encode_string`] produced (below the encoding's 32-bit length header);
/// and the fatal decode-failure marker exactly for a buffer that is not
/// the encoding of any such payload — no partial or garbage value is ever
/// delivered as a message.
pub fn interpret_poll(buffered: Option<Vec<u8>>) -> (r: Polled)
    ensures
        buffered is None ==> r is Empty,
        forall|s: Seq<char>|
            (match buffered {
                Some(b) => 4 * s.len() <= u32::MAX as int && b@ == #[trigger] msgpack_of_string(s),
                None => false,
            }) ==> (r matches Polled::Message(m) && m@ == s),
        buffered is Some ==> !(r is Empty),
        r is Malformed ==> (buffered matches Some(b) && forall|s: Seq<char>|
            4 * s.len() <= u32::MAX as int ==> b@ != #[trigger] msgpack_of_string(s)),
{
    match buffered {
        None => Polled::Empty,
        Some(bytes) => match crate::codec::decode_string(&bytes) {
            Some(msg) => Polled::Message(msg),
            None => Polled::Malformed,
        },
    }
}

impl IpcQueue {
    /// Polls the incoming queue once: at most one already-buffered item,
    /// decoded on demand.  The queue is finite per poll but logically
    /// infinite over the channel's lifetime; polling again later may yield
    /// more.
    pub fn next(&self) -> Polled {
        interpret_poll(chan_try_recv(&self.receiver))
    }

    /// Polls the incoming queue once without decoding.
    pub fn next_raw(&self) -> Option<Vec<u8>> {
        chan_try_recv(&self.receiver)
    }
}

/// Method of a bridge request, as far as the protocol cares.
#[derive(Clone, Copy, Debug, PartialEq, Eq, Structural)]
pub enum HttpMethod {
    Get,
    Post,
    Other,
}

/// One request of the private scheme, as the native layer delivers it.
#[derive(Clone, Debug)]
pub struct IpcRequest {
    pub method: HttpMethod,
    pub uri: String,
    pub body: Vec<u8>,
}

/// HTTP-style answer handed back to the native layer.  Protocol errors
/// become status codes and never unwind across the thread boundary.
#[derive(Clone, Debug)]
pub struct IpcResponse {
    pub status: u16,
    pub body: Vec<u8>,
}

/// The two logical endpoints of the scheme, or neither.
#[derive(Clone, Copy, Debug, PartialEq, Eq, Structural)]
pub enum Endpoint {
    SendMessage,
    FetchMessage,
    Unknown,
}

/// Which endpoint a request addresses: POST to the send path (trailing
/// slash tolerated) enqueues, GET to the fetch path pulls, anything else is
/// unknown.
pub open spec fn spec_endpoint(method: HttpMethod, uri: Seq<char>) -> Endpoint {
    if method == HttpMethod::Post && (uri == "bridge://send"@ || uri == "bridge://send/"@) {
        Endpoint::SendMessage
    } else if method == HttpMethod::Get && (uri == "bridge://fetch"@ || uri == "bridge://fetch/"@) {
        Endpoint::FetchMessage
    } else {
        Endpoint::Unknown
    }
}

/// True when the string equals the literal.
fn uri_is(uri: &String, lit: &str) -> (r: bool)
    ensures
        r == (uri@ == lit@),
{
    let owned: String = lit.to_owned();
    *uri == owned
}

/// Classifies a request by method and URI, exactly as [`spec_endpoint`]
/// says.
pub fn classify_request(method: HttpMethod, uri: &String) -> (e: Endpoint)
    ensures
        e == spec_endpoint(method, uri@),
{
    let is_post = match method {
        HttpMethod::Post => true,
        _ => false,
    };
    let is_get = match method {
        HttpMethod::Get => true,
        _ => false,
    };
    if is_post && (uri_is(uri, "bridge://send") || uri_is(uri, "bridge://send/")) {
        Endpoint::SendMessage
    } else if is_get && (uri_is(uri, "bridge://fetch") || uri_is(uri, "bridge://fetch/")) {
        Endpoint::FetchMessage
    } else {
        Endpoint::Unknown
    }
}

/// The answer a fetch gives for what the outgoing queue yielded: the bytes
/// verbatim with success when a non-empty message arrived, not-found when
/// the queue closed or yielded an explicit empty marker.  Not-found is
/// expected absence, not an error.
pub fn fetch_response(buffered: Option<Vec<u8>>) -> (r: IpcResponse)
    ensures
        buffered is None ==> r.status == 404 && r.body@.len() == 0,
        buffered matches Some(d) ==> (d@.len() > 0 ==> r.status == 200 && r.body@ == d@) && (
        d@.len() == 0 ==> r.status == 404 && r.body@.len() == 0),
{
    match buffered {
        Some(data) => {
            if data.len() > 0 {
                IpcResponse { status: 200, body: data }
            } else {
                IpcResponse { status: 404, body: Vec::new() }
            }
        },
        None => IpcResponse { status: 404, body: Vec::new() },
    }
}

/// The asynchronous request/response protocol handler of one surface,
/// running on the surface's own execution thread.  Wired on platforms whose
/// native layer supports a custom request/response scheme.
pub struct AsyncProtocol {
    sender: crossbeam::channel::Sender<Vec<u8>>,
    receiver: crossbeam::channel::Receiver<Vec<u8>>,
}

/// The in-band string-message callback of one surface.  Wired on the
/// platform whose native layer cannot be given a custom request/response
/// protocol and only supports in-band string messages.
pub struct IpcHandler {
    sender: crossbeam::channel::Sender<Vec<u8>>,
}

impl TemporaryIpcStore {
    /// The surface-side sending end (into this surface's incoming queue).
    pub closed spec fn spec_sender(&self) -> crossbeam::channel::Sender<Vec<u8>> {
        self.sender
    }

    /// The surface-side receiving end (of this surface's outgoing queue).
    pub closed spec fn spec_receiver(&self) -> crossbeam::channel::Receiver<Vec<u8>> {
        self.receiver
    }

    /// Consumes the store — the one-shot wiring step — and yields the
    /// asynchronous protocol handler holding exactly this store's channel
    /// ends: the handler it wires reaches this surface's queues and no
    /// other's.
    pub fn make_async_protocol(self) -> (r: AsyncProtocol)
        ensures
            r.spec_sender() == self.spec_sender(),
            r.spec_receiver() == self.spec_receiver(),
    {
        AsyncProtocol { sender: self.sender, receiver: self.receiver }
    }

    /// Consumes the store and yields the in-band string callback for the
    /// string-only transport platform, holding exactly this store's sending
    /// end.  The outgoing receiving end is dropped with the store: on that
    /// platform delivery to the surface goes through the host's fetch
    /// trigger instead.
    pub fn make_ipc_handler(self) -> (r: IpcHandler)
        ensures
            r.spec_sender() == self.spec_sender(),
    {
        IpcHandler { sender: self.sender }
    }
}

impl AsyncProtocol {
    /// The sending end this handler pushes incoming messages into.
    pub closed spec fn spec_sender(&self) -> crossbeam::channel::Sender<Vec<u8>> {
        self.sender
    }

    /// The receiving end this handler's fetches block on.
    pub closed spec fn spec_receiver(&self) -> crossbeam::channel::Receiver<Vec<u8>> {
        self.receiver
    }
}

impl IpcHandler {
    /// The sending end this callback pushes incoming messages into.
    pub closed spec fn spec_sender(&self) -> crossbeam::channel::Sender<Vec<u8>> {
        self.sender
    }
}

impl AsyncProtocol {
    /// Serves one request of the private scheme.
    ///
    /// A send request copies its body verbatim onto the incoming queue and
    /// acknowledges with success, no correlation needed.  A fetch request
    /// blocks the calling thread on the outgoing queue until a message is
    /// available and answers with its bytes, or with not-found when the
    /// queue closed or yielded an empty marker; this is a real long-poll,
    /// not a spin-loop.  Anything else is not-found.
    pub fn handle(&self, request: IpcRequest) -> (r: IpcResponse)
        ensures
            spec_endpoint(request.method, request.uri@) == Endpoint::SendMessage ==> r.status
                == 200 && r.body@.len() == 0,
            spec_endpoint(request.method, request.uri@) == Endpoint::FetchMessage ==> (r.status
                == 200 && r.body@.len() > 0) || (r.status == 404 && r.body@.len() == 0),
            spec_endpoint(request.method, request.uri@) == Endpoint::Unknown ==> r.status == 404
                && r.body@.len() == 0,
    {
        match classify_request(request.method, &request.uri) {
            Endpoint::SendMessage => {
                let _ = chan_send(&self.sender, request.body);
                IpcResponse { status: 200, body: Vec::new() }
            },
            Endpoint::FetchMessage => {
                let buffered = chan_recv(&self.receiver);
                fetch_response(buffered)
            },
            Endpoint::Unknown => IpcResponse { status: 404, body: Vec::new() },
        }
    }
}

impl IpcHandler {
    /// Delivers one outgoing string message from the embedded content onto
    /// the incoming queue as its UTF-8 bytes; returns whether the queue
    /// accepted it.
    pub fn handle_message(&self, message: &str) -> bool {
        let bytes = message.as_bytes_vec();
        chan_send(&self.sender, bytes)
    }
}

} // verus!
