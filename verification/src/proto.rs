//! The typed interface to the protocol library `quinn-proto`.
//!
//! Every call into the protocol library is made here. What a contract in this file
//! states is taken from the library's source and is not proved. The state of a
//! protocol connection is hidden, so nothing is claimed of what it hands out; only
//! the end that it is has a name. Of the protocol endpoint the set of connections
//! in its table and its queue of datagrams are named, and of a protocol connection
//! the stream that it opens or accepts next and what it gives to the next read or
//! write.
use crate::proto_impl::stream::{
    dir_of_stream, initiator_of_stream, readable_by, writable_by, Dir, Side,
};
use quinn_proto::ConnectionEvent as ProtoConnectionEvent;
use quinn_proto::EndpointEvent as ProtoEndpointEvent;
use quinn_proto::StreamEvent as ProtoStreamEvent;
use std::time::Instant;
use vstd::prelude::*;

verus! {

#[verifier::external_type_specification]
#[verifier::external_body]
pub struct ExConnection(quinn_proto::Connection);

#[verifier::external_type_specification]
#[verifier::external_body]
pub struct ExEndpoint(quinn_proto::Endpoint);

#[verifier::external_type_specification]
#[verifier::external_body]
pub struct ExTransmit(quinn_proto::Transmit);

#[verifier::external_type_specification]
#[verifier::external_body]
pub struct ExConnectionEvent(ProtoConnectionEvent);

#[verifier::external_type_specification]
#[verifier::external_body]
pub struct ExEndpointEvent(ProtoEndpointEvent);

#[verifier::external_type_specification]
#[verifier::external_body]
pub struct ExStreamEvent(ProtoStreamEvent);

#[verifier::external_type_specification]
#[verifier::external_body]
pub struct ExClientConfig(quinn_proto::ClientConfig);

#[verifier::external_type_specification]
#[verifier::external_body]
pub struct ExServerConfig(quinn_proto::ServerConfig);

#[verifier::external_type_specification]
#[verifier::external_body]
pub struct ExConnectError(quinn_proto::ConnectError);

#[verifier::external_type_specification]
#[verifier::external_body]
pub struct ExReadError(quinn_proto::ReadError);

#[verifier::external_type_specification]
#[verifier::external_body]
pub struct ExReadableError(quinn_proto::ReadableError);

#[verifier::external_type_specification]
#[verifier::external_body]
pub struct ExWriteError(quinn_proto::WriteError);

#[verifier::external_type_specification]
#[verifier::external_body]
pub struct ExVarIntBoundsExceeded(quinn_proto::VarIntBoundsExceeded);

/// The handles of the connections that a protocol endpoint has in its table.
pub uninterp spec fn endpoint_connections(endpoint: quinn_proto::Endpoint) -> Set<usize>;

/// The datagrams that a protocol endpoint has queued for sending, the next one
/// first.
pub uninterp spec fn endpoint_queue(endpoint: quinn_proto::Endpoint) -> Seq<quinn_proto::Transmit>;

/// The stream that a protocol connection opens next in the given direction;
/// `None` where it may open no stream of that direction now.
pub uninterp spec fn connection_opens(connection: quinn_proto::Connection, dir: Dir) -> Option<u64>;

/// The stream that a protocol connection accepts next in the given direction;
/// `None` where the peer has opened none that was not accepted yet.
pub uninterp spec fn connection_accepts(connection: quinn_proto::Connection, dir: Dir) -> Option<
    u64,
>;

/// What a protocol connection gives to the next read of at most `max_length` bytes
/// from the stream `id`.
pub uninterp spec fn connection_reads(
    connection: quinn_proto::Connection,
    id: u64,
    max_length: usize,
) -> Reading;

/// The number of bytes of `data` that the stream `id` of a protocol connection
/// accepts with the next write; `None` where the write fails.
pub uninterp spec fn connection_writes(
    connection: quinn_proto::Connection,
    id: u64,
    data: Seq<u8>,
) -> Option<usize>;

/// Whether a protocol connection is the client's end of its connection. A
/// connection is made as one end and stays that end.
pub uninterp spec fn connection_is_client(connection: quinn_proto::Connection) -> bool;

/// The end of its connection that a protocol connection is.
pub open spec fn side_of(connection: quinn_proto::Connection) -> Side {
    if connection_is_client(connection) {
        Side::Client
    } else {
        Side::Server
    }
}

/// What a connection tells the application.
pub enum AppEvent {
    /// The handshake data of the connection is ready.
    HandshakeDataReady,
    /// The connection is established.
    Connected,
    /// The connection was lost.
    ConnectionLost,
    /// Something happened on a stream; [`stream_event`] tells what.
    Stream(ProtoStreamEvent),
    /// Application datagrams have arrived.
    DatagramReceived,
}

/// What a connection tells the application about its streams. Streams are named by
/// their 64-bit identifiers, directions by their bytes.
pub enum StreamEvent {
    /// The peer has opened streams of this direction.
    Opened { dir: u8 },
    /// The stream has data or an error to read.
    Readable { id: u64 },
    /// The stream accepts data again.
    Writable { id: u64 },
    /// The stream was finished and acknowledged, or stopped.
    Finished { id: u64 },
    /// The peer asked to stop sending on the stream.
    Stopped { id: u64 },
    /// Streams of this direction can be opened again.
    Available { dir: u8 },
}

/// An event that a protocol connection sends to its endpoint, together with the one
/// thing the runtime reads from it: whether it is the last event of the connection.
pub struct EndpointNotice {
    drained: bool,
    event: ProtoEndpointEvent,
}

impl EndpointNotice {
    /// Whether this is the last event that the connection emits.
    pub closed spec fn drained(&self) -> bool {
        self.drained
    }

    /// Whether this is the last event that the connection emits.
    pub fn is_drained(&self) -> (drained: bool)
        ensures
            drained == self.drained(),
    {
        self.drained
    }
}

/// What a datagram that the endpoint was handed turned out to be.
pub enum DatagramEvent {
    /// It belongs to a connection of the endpoint.
    ConnectionEvent(ProtoConnectionEvent),
    /// It started a new connection.
    NewConnection(quinn_proto::Connection),
}

/// How an attempt to read from a stream ended.
pub enum ReadAttempt {
    /// The stream cannot be read from.
    Unreadable(quinn_proto::ReadableError),
    /// The stream was read from: the next chunk (`None` at the end of the stream),
    /// and whether the connection has something to transmit because of the read.
    Read { chunk: Result<Option<Vec<u8>>, quinn_proto::ReadError>, should_transmit: bool },
}

/// What a read from a stream gives, without the reason of a failure.
pub enum Reading {
    /// The stream cannot be read from.
    Unreadable,
    /// The stream was read from. `chunk` holds the bytes that were read, no bytes
    /// at the end of the stream, and nothing where the read failed;
    /// `should_transmit` says whether the connection has something to transmit
    /// because of the read.
    Read { chunk: Option<Option<Seq<u8>>>, should_transmit: bool },
}

/// What an attempt to read gave, without the reason of a failure.
pub open spec fn reading_of(attempt: ReadAttempt) -> Reading {
    match attempt {
        ReadAttempt::Unreadable(_) => Reading::Unreadable,
        ReadAttempt::Read { chunk, should_transmit } => Reading::Read {
            chunk: match chunk {
                Ok(Some(bytes)) => Some(Some(bytes@)),
                Ok(None) => Some(None),
                Err(_) => None,
            },
            should_transmit,
        },
    }
}

/// `quinn_proto::VarInt::from_u64`, with the value taken out again by
/// `VarInt::into_inner`: succeeds if and only if `value` is below 2^62, and then
/// gives `value` back.
#[verifier::external_body]
pub(crate) fn varint_from_u64(value: u64) -> (checked: Result<
    u64,
    quinn_proto::VarIntBoundsExceeded,
>)
    ensures
        value <= 0x3FFF_FFFF_FFFF_FFFFu64 <==> checked is Ok,
        checked matches Ok(v) ==> v == value,
{
    quinn_proto::VarInt::from_u64(value).map(quinn_proto::VarInt::into_inner)
}

/// `ReadError == ReadError::Blocked`: whether a read failed only because no data has
/// arrived yet. Nothing is claimed of the result.
#[verifier::external_body]
pub(crate) fn is_blocked(error: &quinn_proto::ReadError) -> (blocked: bool) {
    *error == quinn_proto::ReadError::Blocked
}

/// `Connection::side`: the end of the connection that this process is.
#[verifier::external_body]
pub(crate) fn connection_side(connection: &quinn_proto::Connection) -> (side: Side)
    ensures
        side == side_of(*connection),
{
    match connection.side() {
        quinn_proto::Side::Client => Side::Client,
        quinn_proto::Side::Server => Side::Server,
    }
}

/// `Connection::poll_timeout`: the time at which the connection wants its timers
/// handled next, if any.
#[verifier::external_body]
pub(crate) fn connection_poll_timeout(connection: &mut quinn_proto::Connection) -> (deadline:
    Option<Instant>)
    ensures
        connection_is_client(*final(connection)) == connection_is_client(*old(connection)),
{
    connection.poll_timeout()
}

/// `Connection::handle_timeout`: lets the connection process the timers that have
/// expired at `now`.
#[verifier::external_body]
pub(crate) fn connection_handle_timeout(connection: &mut quinn_proto::Connection, now: Instant)
    ensures
        connection_is_client(*final(connection)) == connection_is_client(*old(connection)),
{
    connection.handle_timeout(now)
}

/// `Connection::poll_transmit` for a single datagram: the next datagram that the
/// connection wants sent, if any.
#[verifier::external_body]
pub(crate) fn connection_poll_transmit(
    connection: &mut quinn_proto::Connection,
    now: Instant,
) -> (transmit: Option<quinn_proto::Transmit>)
    ensures
        connection_is_client(*final(connection)) == connection_is_client(*old(connection)),
{
    connection.poll_transmit(now, 1)
}

/// `Connection::poll_endpoint_events`: the next event that the connection has for
/// its endpoint, if any.
#[verifier::external_body]
pub(crate) fn connection_poll_endpoint_events(connection: &mut quinn_proto::Connection) -> (event:
    Option<ProtoEndpointEvent>)
    ensures
        connection_is_client(*final(connection)) == connection_is_client(*old(connection)),
{
    connection.poll_endpoint_events()
}

/// `EndpointEvent::is_drained`: the event together with the answer to whether it is
/// the last one of its connection.
#[verifier::external_body]
pub(crate) fn endpoint_notice(event: ProtoEndpointEvent) -> (notice: EndpointNotice) {
    EndpointNotice { drained: event.is_drained(), event }
}

/// `Connection::handle_event`: hands the connection an event from its endpoint.
#[verifier::external_body]
pub(crate) fn connection_handle_event(
    connection: &mut quinn_proto::Connection,
    event: ProtoConnectionEvent,
)
    ensures
        connection_is_client(*final(connection)) == connection_is_client(*old(connection)),
{
    connection.handle_event(event)
}

/// `Connection::ping`: makes the connection send a packet that the peer must
/// acknowledge.
#[verifier::external_body]
pub(crate) fn connection_ping(connection: &mut quinn_proto::Connection)
    ensures
        connection_is_client(*final(connection)) == connection_is_client(*old(connection)),
{
    connection.ping()
}

/// `Connection::poll`: the next event that the connection has for the application,
/// if any.
#[verifier::external_body]
pub(crate) fn connection_poll(connection: &mut quinn_proto::Connection) -> (event: Option<
    AppEvent,
>)
    ensures
        connection_is_client(*final(connection)) == connection_is_client(*old(connection)),
{
    Some(
        match connection.poll()? {
            quinn_proto::Event::HandshakeDataReady => AppEvent::HandshakeDataReady,
            quinn_proto::Event::Connected => AppEvent::Connected,
            quinn_proto::Event::ConnectionLost { .. } => AppEvent::ConnectionLost,
            quinn_proto::Event::DatagramReceived => AppEvent::DatagramReceived,
            quinn_proto::Event::Stream(event) => AppEvent::Stream(event),
        },
    )
}

/// Tells the variants of the protocol library's stream event apart: the event in
/// the runtime's own type, with streams named by their 64-bit identifiers and
/// directions by their numbers (0 for both ways, 1 for one way).
#[verifier::external_body]
pub(crate) fn stream_event(event: ProtoStreamEvent) -> (converted: StreamEvent) {
    match event {
        ProtoStreamEvent::Opened { dir } => StreamEvent::Opened { dir: dir as u8 },
        ProtoStreamEvent::Readable { id } => StreamEvent::Readable { id: id.0 },
        ProtoStreamEvent::Writable { id } => StreamEvent::Writable { id: id.0 },
        ProtoStreamEvent::Finished { id } => StreamEvent::Finished { id: id.0 },
        ProtoStreamEvent::Stopped { id, .. } => StreamEvent::Stopped { id: id.0 },
        ProtoStreamEvent::Available { dir } => StreamEvent::Available { dir: dir as u8 },
    }
}

/// `Streams::accept`, reached through `Connection::streams`: the next stream of the
/// given direction that the peer has opened, if any. The stream was opened by the
/// other end than the one that `connection` is.
#[verifier::external_body]
pub(crate) fn connection_accept(connection: &mut quinn_proto::Connection, dir: Dir) -> (id: Option<
    u64,
>)
    ensures
        connection_is_client(*final(connection)) == connection_is_client(*old(connection)),
        id == connection_accepts(*old(connection), dir),
        id matches Some(stream) ==> dir_of_stream(stream) == dir && initiator_of_stream(stream)
            != side_of(*old(connection)),
{
    let dir = match dir {
        Dir::Bi => quinn_proto::Dir::Bi,
        Dir::Uni => quinn_proto::Dir::Uni,
    };
    connection.streams().accept(dir).map(|id| id.0)
}

/// `Streams::open`, reached through `Connection::streams`: a new stream of the given
/// direction, or `None` where no more streams of that direction may be opened now.
/// The stream is opened by the end that `connection` is.
#[verifier::external_body]
pub(crate) fn connection_open(connection: &mut quinn_proto::Connection, dir: Dir) -> (id: Option<
    u64,
>)
    ensures
        connection_is_client(*final(connection)) == connection_is_client(*old(connection)),
        id == connection_opens(*old(connection), dir),
        id matches Some(stream) ==> dir_of_stream(stream) == dir && initiator_of_stream(stream)
            == side_of(*old(connection)),
{
    let dir = match dir {
        Dir::Bi => quinn_proto::Dir::Bi,
        Dir::Uni => quinn_proto::Dir::Uni,
    };
    connection.streams().open(dir).map(|id| id.0)
}

/// `Connection::recv_stream`, then `RecvStream::read` in order, `Chunks::next` once
/// and `Chunks::finalize`: one chunk of at most `max_length` bytes from the stream.
/// `recv_stream` panics on a unidirectional stream that the end opened which
/// `connection` is.
#[verifier::external_body]
pub(crate) fn connection_read(
    connection: &mut quinn_proto::Connection,
    id: u64,
    max_length: usize,
) -> (attempt: ReadAttempt)
    requires
        readable_by(side_of(*old(connection)), id),
    ensures
        connection_is_client(*final(connection)) == connection_is_client(*old(connection)),
        reading_of(attempt) == connection_reads(*old(connection), id, max_length),
        attempt matches ReadAttempt::Read { chunk: Ok(Some(bytes)), .. } ==> bytes.len()
            <= max_length,
{
    let mut stream = connection.recv_stream(quinn_proto::StreamId(id));
    let mut chunks = match stream.read(true) {
        Ok(chunks) => chunks,
        Err(error) => return ReadAttempt::Unreadable(error),
    };
    let chunk = chunks.next(max_length).map(|chunk| chunk.map(|chunk| chunk.bytes.to_vec()));
    ReadAttempt::Read { chunk, should_transmit: chunks.finalize().should_transmit() }
}

/// `Connection::send_stream`, then `SendStream::write`: the number of bytes of
/// `data` that the stream accepted. `send_stream` panics on a unidirectional stream
/// that the other end opened than the one that `connection` is.
#[verifier::external_body]
pub(crate) fn connection_write(connection: &mut quinn_proto::Connection, id: u64, data: &[u8]) -> (
written: Result<usize, quinn_proto::WriteError>)
    requires
        writable_by(side_of(*old(connection)), id),
    ensures
        connection_is_client(*final(connection)) == connection_is_client(*old(connection)),
        written matches Ok(count) ==> count <= data@.len() && connection_writes(
            *old(connection),
            id,
            data@,
        ) == Some(count),
        written is Err ==> connection_writes(*old(connection), id, data@) is None,
{
    connection.send_stream(quinn_proto::StreamId(id)).write(data)
}

/// `Connection::close`, with the code made by `VarInt::from_u64` and the reason
/// copied by `Bytes::copy_from_slice`: closes the connection at once.
#[verifier::external_body]
pub(crate) fn connection_close(
    connection: &mut quinn_proto::Connection,
    now: Instant,
    error_code: u64,
    reason: &[u8],
)
    requires
        error_code <= 0x3FFF_FFFF_FFFF_FFFFu64,
    ensures
        connection_is_client(*final(connection)) == connection_is_client(*old(connection)),
{
    if let Ok(code) = quinn_proto::VarInt::from_u64(error_code) {
        connection.close(now, code, bytes::Bytes::copy_from_slice(reason))
    }
}

/// `Endpoint::new` with `EndpointConfig::default`: a protocol endpoint without
/// connections. It accepts incoming connections where a server configuration is
/// given.
#[verifier::external_body]
pub(crate) fn endpoint_new(server_config: Option<quinn_proto::ServerConfig>) -> (endpoint:
    quinn_proto::Endpoint)
    ensures
        endpoint_connections(endpoint) == Set::<usize>::empty(),
{
    let config = std::sync::Arc::new(quinn_proto::EndpointConfig::default());
    quinn_proto::Endpoint::new(config, server_config.map(std::sync::Arc::new))
}

/// `Endpoint::poll_transmit`: the next datagram that the endpoint itself wants
/// sent, if any: the first of its queue is taken out, and there is none only where
/// the queue is empty. The table of connections stays as it is.
#[verifier::external_body]
pub(crate) fn endpoint_poll_transmit(endpoint: &mut quinn_proto::Endpoint) -> (transmit: Option<
    quinn_proto::Transmit,
>)
    ensures
        endpoint_connections(*final(endpoint)) == endpoint_connections(*old(endpoint)),
        transmit matches Some(first) ==> endpoint_queue(*old(endpoint)).len() > 0
            && endpoint_queue(*old(endpoint)).first() == first && endpoint_queue(*final(endpoint))
            == endpoint_queue(*old(endpoint)).drop_first(),
        transmit is None ==> endpoint_queue(*old(endpoint)).len() == 0 && endpoint_queue(
            *final(endpoint),
        ).len() == 0,
{
    endpoint.poll_transmit()
}

/// `Endpoint::handle_event`: hands the endpoint an event of the connection
/// `handle`, which must be in its table (the call panics otherwise). The last event
/// of a connection takes it out of the table and has no answer; every other event
/// leaves the table as it is.
#[verifier::external_body]
pub(crate) fn endpoint_handle_event(
    endpoint: &mut quinn_proto::Endpoint,
    handle: usize,
    event: EndpointNotice,
) -> (answer: Option<ProtoConnectionEvent>)
    requires
        endpoint_connections(*old(endpoint)).contains(handle),
    ensures
        event.drained() ==> answer is None && endpoint_connections(*final(endpoint))
            == endpoint_connections(*old(endpoint)).remove(handle),
        !event.drained() ==> endpoint_connections(*final(endpoint)) == endpoint_connections(
            *old(endpoint),
        ),
{
    endpoint.handle_event(quinn_proto::ConnectionHandle(handle), event.event)
}

/// `Endpoint::handle`, with the datagram copied by `BytesMut::from`: processes a
/// datagram that arrived from the IPv4 address `octets` and `port`. A new connection
/// gets a handle that was not in the table and is in it afterwards; otherwise the
/// table stays as it is.
#[verifier::external_body]
pub(crate) fn endpoint_handle(
    endpoint: &mut quinn_proto::Endpoint,
    now: Instant,
    octets: [u8; 4],
    port: u16,
    data: &[u8],
) -> (event: Option<(usize, DatagramEvent)>)
    ensures
        event matches Some((handle, DatagramEvent::NewConnection(_))) ==> !endpoint_connections(
            *old(endpoint),
        ).contains(handle) && endpoint_connections(*final(endpoint)) == endpoint_connections(
            *old(endpoint),
        ).insert(handle),
        !(event matches Some((_, DatagramEvent::NewConnection(_)))) ==> endpoint_connections(
            *final(endpoint),
        ) == endpoint_connections(*old(endpoint)),
{
    let data = bytes::BytesMut::from(data);
    match endpoint.handle(now, (octets, port).into(), None, None, data)? {
        (handle, quinn_proto::DatagramEvent::ConnectionEvent(event)) => Some(
            (handle.0, DatagramEvent::ConnectionEvent(event)),
        ),
        (handle, quinn_proto::DatagramEvent::NewConnection(connection)) => Some(
            (handle.0, DatagramEvent::NewConnection(connection)),
        ),
    }
}

/// `Endpoint::connect`: starts a connection to the server `server_name` at the IPv4
/// address `octets` and `port`. On success the new connection gets a handle that
/// was not in the table and is in it afterwards; on failure the table stays as it
/// is.
#[verifier::external_body]
pub(crate) fn endpoint_connect(
    endpoint: &mut quinn_proto::Endpoint,
    config: quinn_proto::ClientConfig,
    octets: [u8; 4],
    port: u16,
    server_name: &str,
) -> (connected: Result<(usize, quinn_proto::Connection), quinn_proto::ConnectError>)
    ensures
        connected matches Ok((handle, _)) ==> !endpoint_connections(*old(endpoint)).contains(
            handle,
        ) && endpoint_connections(*final(endpoint)) == endpoint_connections(
            *old(endpoint),
        ).insert(handle),
        connected is Err ==> endpoint_connections(*final(endpoint)) == endpoint_connections(
            *old(endpoint),
        ),
{
    let (handle, connection) = endpoint.connect(config, (octets, port).into(), server_name)?;
    Ok((handle.0, connection))
}

/// `ClientConfig::clone`: a copy of the configuration.
#[verifier::external_body]
pub(crate) fn clone_client_config(config: &quinn_proto::ClientConfig) -> (cloned:
    quinn_proto::ClientConfig) {
    config.clone()
}

} // verus!
