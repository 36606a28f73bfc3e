//! The endpoint: the table of connections, the routing of events between the
//! protocol endpoint and its connections, and the state of the thread that polls it.
use crate::ffi::callbacks::{
    endpoint_raised_since, lemma_quiet_comes_from_endpoint, lemma_quiet_since_twice,
    lemma_raised_comes_from_endpoint, lemma_raised_is_quiet, lemma_transmits_are_quiet,
    lemma_transmits_since_twice, quiet_since, transmits_since, Callback,
};
use crate::proto::{
    clone_client_config, endpoint_connect, endpoint_connections, endpoint_handle,
    endpoint_handle_event, endpoint_new, endpoint_poll_transmit, endpoint_queue, side_of,
    DatagramEvent, EndpointNotice,
};
use crate::proto_impl::addr::IpAddr;
use crate::proto_impl::connection::{connection_id_of, ConnectionEvent, ConnectionImpl};
use crate::proto_impl::result::{ErrorView, FFIErrorKind};
use crate::sync::{lock, locked, new_mutex, share, try_lock, LockAttempt};
use quinn_proto::ConnectionEvent as ProtoConnectionEvent;
use std::collections::HashMap;
use std::sync::mpsc::{channel, Receiver, Sender};
use std::sync::{Arc, Mutex};
use std::time::Instant;
use vstd::prelude::*;

verus! {

broadcast use vstd::std_specs::hash::group_hash_axioms;

/// Most messages of the inbox that one poll of an endpoint handles, and most
/// events or datagrams that one step of a poll moves. The bound keeps a busy
/// connection from starving the rest.
pub const IO_LOOP_BOUND: usize = 160;

/// What a connection sends to its endpoint.
pub enum EndpointEvent {
    /// An event for the protocol endpoint.
    Proto(EndpointNotice),
    /// A datagram that must be sent.
    Transmit(quinn_proto::Transmit),
}

/// A QUIC endpoint.
pub struct EndpointImpl {
    id: u8,
    inner: quinn_proto::Endpoint,
    auto_poll: bool,
    endpoint_events_rx: Receiver<(usize, EndpointEvent)>,
    endpoint_events_tx: Sender<(usize, EndpointEvent)>,
    endpoint_poll_notifier: Option<Sender<u8>>,
    default_client_config: Option<quinn_proto::ClientConfig>,
    connections: HashMap<usize, Sender<ConnectionEvent>>,
    // Only for polling: locking a connection that the host is using would block.
    connection_refs: HashMap<usize, Arc<Mutex<ConnectionImpl>>>,
    events_polled: usize,
}

/// The identifier of the endpoint that is created after the one with the
/// identifier `last`: identifiers count up and start again after 255.
pub open spec fn next_endpoint_id_of(last: u8) -> u8 {
    if last == 255 {
        0
    } else {
        (last + 1) as u8
    }
}

/// Whether a poll of an endpoint asks to be repeated without waiting: it does when
/// it took as many messages from the inbox as one poll may, so that messages may be
/// left.
pub open spec fn poll_again_of(events: usize) -> bool {
    events == IO_LOOP_BOUND
}

/// The callbacks that hand the datagrams of `queue` to the host for the endpoint
/// `id`, one for each datagram and in the order of the queue.
pub open spec fn handed_out(id: u8, queue: Seq<quinn_proto::Transmit>) -> Seq<Callback> {
    queue.map_values(|transmit: quinn_proto::Transmit| Callback::Transmit { endpoint: id, transmit })
}

/// The identifier for the next endpoint.
pub fn next_endpoint_id(last: u8) -> (id: u8)
    ensures
        id == next_endpoint_id_of(last),
{
    if last == 255 {
        0
    } else {
        last + 1
    }
}

impl EndpointImpl {
    /// The identifier of the endpoint.
    pub closed spec fn spec_id(&self) -> u8 {
        self.id
    }

    /// Whether the runtime polls the connections itself, or leaves it to the host.
    pub closed spec fn auto_poll(&self) -> bool {
        self.auto_poll
    }

    /// The channel to each connection that events are routed to, by its handle.
    pub closed spec fn senders(&self) -> Map<usize, Sender<ConnectionEvent>> {
        self.connections@
    }

    /// Each connection that the endpoint can poll, by its handle.
    pub closed spec fn references(&self) -> Map<usize, Arc<Mutex<ConnectionImpl>>> {
        self.connection_refs@
    }

    /// The handles of the connections that events are routed to.
    pub open spec fn connections(&self) -> Set<usize> {
        self.senders().dom()
    }

    /// The handles of the connections that the endpoint can poll.
    pub open spec fn pollable(&self) -> Set<usize> {
        self.references().dom()
    }

    /// The datagrams that the protocol endpoint has queued for sending, the next
    /// one first.
    pub closed spec fn queue(&self) -> Seq<quinn_proto::Transmit> {
        endpoint_queue(self.inner)
    }

    /// The number of datagrams that the protocol endpoint has queued for sending.
    pub open spec fn queued(&self) -> nat {
        self.queue().len()
    }

    /// Whether this is the endpoint `before` after messages of its inbox have been
    /// handled: no connection was added or changed, and the connections that are
    /// gone are gone from the routing and from the polling alike.
    pub open spec fn drained_from(&self, before: &EndpointImpl) -> bool {
        &&& self.senders().submap_of(before.senders())
        &&& self.references().submap_of(before.references())
        &&& forall|handle: usize|
            before.connections().contains(handle) && !self.connections().contains(handle)
                ==> !self.pollable().contains(handle)
        &&& forall|handle: usize|
            before.pollable().contains(handle) && !self.pollable().contains(handle)
                ==> before.connections().contains(handle) && !self.connections().contains(handle)
    }

    /// The handles of the connections in the table of the protocol endpoint.
    pub closed spec fn table(&self) -> Set<usize> {
        endpoint_connections(self.inner)
    }

    /// The channel on which the connections send what they have for the endpoint:
    /// the sending end of the inbox.
    pub closed spec fn inbox(&self) -> Sender<(usize, EndpointEvent)> {
        self.endpoint_events_tx
    }

    /// The notifier that wakes the poller, if one has been set.
    pub closed spec fn poll_notifier(&self) -> Option<Sender<u8>> {
        self.endpoint_poll_notifier
    }

    /// The client configuration that `connect` uses, if one has been set.
    pub closed spec fn default_client_config(&self) -> Option<quinn_proto::ClientConfig> {
        self.default_client_config
    }

    /// Whether a notifier for the poller has been set.
    pub open spec fn has_poll_notifier(&self) -> bool {
        self.poll_notifier() is Some
    }

    /// Whether a client configuration for `connect` has been set.
    pub open spec fn has_default_client_config(&self) -> bool {
        self.default_client_config() is Some
    }

    /// The number of messages that the last poll took from the inbox.
    pub closed spec fn spec_events_polled(&self) -> usize {
        self.events_polled
    }

    /// The invariant of an endpoint: every connection that events are routed to is
    /// in the table of the protocol endpoint.
    pub open spec fn wf(&self) -> bool {
        self.connections().subset_of(self.table())
    }

    /// Whether every connection that events are routed to is registered for
    /// polling. This holds whenever a connection is added by
    /// [`EndpointImpl::connect_client`] or [`EndpointImpl::handle_datagram`], which
    /// register it, and it still holds when a connection is drained, which takes it
    /// out of both tables.
    pub open spec fn registered(&self) -> bool {
        self.connections().subset_of(self.pollable())
    }

    /// Whether this is the endpoint `other` with the same identifier, mode and
    /// settings, whatever happened to its connections.
    pub open spec fn same_endpoint(&self, other: &EndpointImpl) -> bool {
        &&& self.spec_id() == other.spec_id()
        &&& self.auto_poll() == other.auto_poll()
        &&& self.inbox() == other.inbox()
        &&& self.poll_notifier() == other.poll_notifier()
        &&& self.default_client_config() == other.default_client_config()
    }

    /// Wraps a protocol endpoint. The endpoint routes events to no connection yet.
    pub fn new(endpoint: quinn_proto::Endpoint, id: u8, auto_poll: bool) -> (created: EndpointImpl)
        ensures
            created.wf(),
            created.spec_id() == id,
            created.auto_poll() == auto_poll,
            created.connections() == Set::<usize>::empty(),
            created.pollable() == Set::<usize>::empty(),
            created.table() == endpoint_connections(endpoint),
            !created.has_poll_notifier(),
            !created.has_default_client_config(),
    {
        let (tx, rx) = channel();
        EndpointImpl {
            id,
            inner: endpoint,
            auto_poll,
            endpoint_events_rx: rx,
            endpoint_events_tx: tx,
            endpoint_poll_notifier: None,
            default_client_config: None,
            connections: HashMap::new(),
            connection_refs: HashMap::new(),
            events_polled: 0,
        }
    }

    /// An endpoint that accepts connections with the given server configuration.
    pub fn server(config: quinn_proto::ServerConfig, id: u8, auto_poll: bool) -> (created:
        EndpointImpl)
        ensures
            created.wf(),
            created.spec_id() == id,
            created.auto_poll() == auto_poll,
            created.connections() == Set::<usize>::empty(),
            created.pollable() == Set::<usize>::empty(),
            created.table() == Set::<usize>::empty(),
            !created.has_poll_notifier(),
            !created.has_default_client_config(),
    {
        EndpointImpl::new(endpoint_new(Some(config)), id, auto_poll)
    }

    /// An endpoint that connects with the given client configuration and accepts
    /// no connections.
    pub fn client(config: quinn_proto::ClientConfig, id: u8, auto_poll: bool) -> (created:
        EndpointImpl)
        ensures
            created.wf(),
            created.spec_id() == id,
            created.auto_poll() == auto_poll,
            created.connections() == Set::<usize>::empty(),
            created.pollable() == Set::<usize>::empty(),
            created.table() == Set::<usize>::empty(),
            !created.has_poll_notifier(),
            created.default_client_config() == Some(config),
    {
        let mut endpoint = EndpointImpl::new(endpoint_new(None), id, auto_poll);
        endpoint.set_default_client_config(config);
        endpoint
    }

    /// The identifier of the endpoint.
    pub fn id(&self) -> (id: u8)
        ensures
            id == self.spec_id(),
    {
        self.id
    }

    /// The number of messages that the last poll took from the inbox.
    pub fn events_polled(&self) -> (count: usize)
        ensures
            count == self.spec_events_polled(),
    {
        self.events_polled
    }

    /// A sending end of the inbox, as every connection of the endpoint gets one.
    pub fn event_sender(&self) -> (sender: Sender<(usize, EndpointEvent)>)
        ensures
            sender == self.inbox(),
    {
        self.endpoint_events_tx.clone()
    }

    /// Sets the notifier that wakes the poller of the endpoint.
    pub fn set_poll_notifier(&mut self, notifier: Sender<u8>)
        ensures
            final(self).poll_notifier() == Some(notifier),
            final(self).inbox() == old(self).inbox(),
            final(self).spec_id() == old(self).spec_id(),
            final(self).auto_poll() == old(self).auto_poll(),
            final(self).default_client_config() == old(self).default_client_config(),
            final(self).senders() == old(self).senders(),
            final(self).references() == old(self).references(),
            final(self).table() == old(self).table(),
            final(self).queue() == old(self).queue(),
    {
        self.endpoint_poll_notifier = Some(notifier);
    }

    /// Sets the client configuration that `connect` uses.
    pub fn set_default_client_config(&mut self, config: quinn_proto::ClientConfig)
        ensures
            final(self).default_client_config() == Some(config),
            final(self).inbox() == old(self).inbox(),
            final(self).spec_id() == old(self).spec_id(),
            final(self).auto_poll() == old(self).auto_poll(),
            final(self).poll_notifier() == old(self).poll_notifier(),
            final(self).senders() == old(self).senders(),
            final(self).references() == old(self).references(),
            final(self).table() == old(self).table(),
            final(self).queue() == old(self).queue(),
    {
        self.default_client_config = Some(config);
    }

    /// Creates the connection wrapper for a protocol connection that the protocol
    /// endpoint has given the handle `handle`, and routes events to it from now on.
    /// The connection gets a sending end of the inbox and the notifier of the
    /// poller. The endpoint stays well formed where the handle is in the table of
    /// the protocol endpoint.
    pub fn add_connection(&mut self, handle: usize, connection: quinn_proto::Connection) -> (added:
        ConnectionImpl)
        ensures
            final(self).same_endpoint(old(self)),
            final(self).connections() == old(self).connections().insert(handle),
            final(self).senders() == old(self).senders().insert(
                handle,
                final(self).senders()[handle],
            ),
            final(self).references() == old(self).references(),
            final(self).table() == old(self).table(),
            final(self).queue() == old(self).queue(),
            old(self).wf() && old(self).table().contains(handle) ==> final(self).wf(),
            added.handle() == handle,
            added.side() == side_of(connection),
            added.auto_poll() == old(self).auto_poll(),
            added.inbox() == old(self).inbox(),
            added.notifier() == old(self).poll_notifier(),
            added.deadline() is None,
    {
        let (send, recv) = channel();
        let _ = self.connections.insert(handle, send);
        let notifier = match &self.endpoint_poll_notifier {
            Some(notifier) => Some(notifier.clone()),
            None => None,
        };
        ConnectionImpl::new(
            connection,
            handle,
            recv,
            self.endpoint_events_tx.clone(),
            notifier,
            self.auto_poll,
        )
    }

    /// Registers a connection for polling by the endpoint: from now on the handle
    /// stands for this connection, whatever it stood for before.
    pub fn register_pollable_connection(
        &mut self,
        handle: usize,
        connection: Arc<Mutex<ConnectionImpl>>,
    )
        ensures
            final(self).same_endpoint(old(self)),
            final(self).references() == old(self).references().insert(handle, connection),
            final(self).senders() == old(self).senders(),
            final(self).table() == old(self).table(),
            final(self).queue() == old(self).queue(),
    {
        let _ = self.connection_refs.insert(handle, connection);
    }

    /// Marks the connection with the given handle pollable, unless the host holds
    /// its lock: then nothing happens, since whatever the host is doing will mark
    /// it. A connection that is not registered for polling is an error.
    pub fn poll_connection(&self, handle: usize, out: &mut Vec<Callback>) -> (polled: Result<
        (),
        FFIErrorKind,
    >)
        ensures
            endpoint_raised_since(final(out)@, old(out)@, self.spec_id()),
            quiet_since(final(out)@, old(out)@, self.spec_id()),
            polled matches Err(error) ==> error is Io || error is Ffi,
            !self.pollable().contains(handle) ==> (polled matches Err(error) && error@
                == absent_connection_error() && final(out)@ == old(out)@),
    {
        match self.connection_refs.get(&handle) {
            Some(connection) => match try_lock(connection) {
                LockAttempt::Acquired(mut guard) => {
                    let connection = locked(&mut guard);
                    let ghost raiser = connection.id();
                    let marked = connection.mark_pollable(out);
                    proof {
                        lemma_raised_comes_from_endpoint(out@, old(out)@, raiser, self.spec_id());
                        lemma_raised_is_quiet(out@, old(out)@, raiser, self.spec_id());
                    }
                    marked
                },
                LockAttempt::WouldBlock => Ok(()),
                LockAttempt::Poisoned => Err(FFIErrorKind::io_error("connection lock was poisoned")),
            },
            None => Err(FFIErrorKind::io_error("connection is absent from the endpoint")),
        }
    }

    /// Routes an event to the connection with the given handle: it is queued for the
    /// next poll of the connection. A handle that events are not routed to is an
    /// error of the protocol.
    pub fn send_connection_event(&mut self, handle: usize, event: ConnectionEvent) -> (sent: Result<
        (),
        FFIErrorKind,
    >)
        ensures
            final(self).same_endpoint(old(self)),
            final(self).senders() == old(self).senders(),
            final(self).references() == old(self).references(),
            final(self).table() == old(self).table(),
            !old(self).connections().contains(handle) ==> (sent matches Err(error) && error@
                == unknown_connection_error()),
            old(self).connections().contains(handle) ==> (sent matches Err(error) ==> error is Io),
    {
        match self.connections.get(&handle) {
            Some(sender) => match sender.send(event) {
                Ok(_) => Ok(()),
                Err(error) => Err(FFIErrorKind::from_display(&error)),
            },
            None => Err(unknown_connection()),
        }
    }

    /// Routes an event of the protocol to the connection with the given handle. A
    /// handle that events are not routed to is an error of the protocol.
    pub fn forward_event_to_connection(
        &mut self,
        handle: usize,
        event: ProtoConnectionEvent,
    ) -> (forwarded: Result<(), FFIErrorKind>)
        ensures
            final(self).same_endpoint(old(self)),
            final(self).senders() == old(self).senders(),
            final(self).references() == old(self).references(),
            final(self).table() == old(self).table(),
            !old(self).connections().contains(handle) ==> (forwarded matches Err(error) && error@
                == unknown_connection_error()),
            old(self).connections().contains(handle) ==> (forwarded matches Err(error)
                ==> error is Io),
    {
        self.send_connection_event(handle, ConnectionEvent::Proto(event))
    }

    /// Connects to the server `server_name` at `addr` with the client configuration
    /// that was set. Without one the call fails and nothing changes.
    pub fn connect(&mut self, addr: IpAddr, server_name: &str) -> (connected: Result<
        ConnectionImpl,
        FFIErrorKind,
    >)
        requires
            old(self).wf(),
        ensures
            final(self).wf(),
            final(self).same_endpoint(old(self)),
            final(self).references() == old(self).references(),
            connected matches Ok(connection) ==> {
                &&& old(self).has_default_client_config()
                &&& final(self).senders() == old(self).senders().insert(
                    connection.handle(),
                    final(self).senders()[connection.handle()],
                )
                &&& final(self).table().contains(connection.handle())
                &&& !old(self).table().contains(connection.handle())
                &&& connection.auto_poll() == old(self).auto_poll()
                &&& connection.inbox() == old(self).inbox()
                &&& connection.notifier() == old(self).poll_notifier()
            },
            connected is Err ==> final(self).senders() == old(self).senders() && final(self).table() == old(self).table(),
            !old(self).has_default_client_config() ==> (connected matches Err(error) && error@
                == ErrorView::Io("no default client config"@) && final(self).queue() == old(
                self,
            ).queue()),
    {
        let config = match &self.default_client_config {
            Some(config) => clone_client_config(config),
            None => {
                return Err(FFIErrorKind::io_error("no default client config"));
            },
        };
        self.connect_with(config, addr, server_name)
    }

    /// Connects to the server `server_name` at `addr` with the given client
    /// configuration.
    pub fn connect_with(
        &mut self,
        config: quinn_proto::ClientConfig,
        addr: IpAddr,
        server_name: &str,
    ) -> (connected: Result<ConnectionImpl, FFIErrorKind>)
        requires
            old(self).wf(),
        ensures
            final(self).wf(),
            final(self).same_endpoint(old(self)),
            final(self).references() == old(self).references(),
            connected matches Ok(connection) ==> {
                &&& final(self).senders() == old(self).senders().insert(
                    connection.handle(),
                    final(self).senders()[connection.handle()],
                )
                &&& final(self).table().contains(connection.handle())
                &&& !old(self).table().contains(connection.handle())
                &&& connection.auto_poll() == old(self).auto_poll()
                &&& connection.inbox() == old(self).inbox()
                &&& connection.notifier() == old(self).poll_notifier()
            },
            connected matches Err(error) ==> error is Io && final(self).senders() == old(
                self,
            ).senders() && final(self).table() == old(self).table(),
    {
        match endpoint_connect(&mut self.inner, config, addr.octets(), addr.port(), server_name) {
            Ok((handle, connection)) => Ok(self.add_connection(handle, connection)),
            Err(error) => Err(FFIErrorKind::from_display(&error)),
        }
    }

    /// Connects to a server as [`EndpointImpl::connect`] does, registers the new
    /// connection for polling, and marks it pollable. The result is the connection,
    /// shared with the endpoint, and the number that the host knows it by.
    pub fn connect_client(&mut self, addr: IpAddr, server_name: &str, out: &mut Vec<Callback>) -> (
    connected: Result<(Arc<Mutex<ConnectionImpl>>, u32), FFIErrorKind>)
        requires
            old(self).wf(),
        ensures
            final(self).wf(),
            final(self).same_endpoint(old(self)),
            old(self).registered() ==> final(self).registered(),
            endpoint_raised_since(final(out)@, old(out)@, old(self).spec_id()),
            connected is Ok ==> old(self).has_default_client_config(),
            !old(self).has_default_client_config() ==> (connected matches Err(error) && error@
                == ErrorView::Io("no default client config"@) && final(out)@ == old(out)@),
    {
        let connection = match self.connect(addr, server_name) {
            Ok(connection) => connection,
            Err(error) => {
                return Err(error);
            },
        };
        let handle = connection.connection_handle();
        let id = connection.connection_id();
        let shared = Arc::new(new_mutex(connection));
        self.register_pollable_connection(handle, share(&shared));
        let marked = match lock(&shared) {
            LockAttempt::Acquired(mut guard) => {
                let connection = locked(&mut guard);
                let ghost raiser = connection.id();
                let marked = connection.mark_pollable(out);
                proof {
                    lemma_raised_comes_from_endpoint(out@, old(out)@, raiser, self.spec_id());
                }
                marked
            },
            _ => Err(FFIErrorKind::io_error("connection lock was poisoned")),
        };
        match marked {
            Ok(_) => Ok((shared, id)),
            Err(error) => Err(error),
        }
    }

    /// Handles a datagram that arrived from `address`: the protocol endpoint says
    /// what the datagram is, and the rest is done as
    /// [`EndpointImpl::handle_datagram_event`] does it.
    ///
    /// A datagram that starts a connection adds the connection to the endpoint,
    /// polls the endpoint, marks the connection pollable and tells the host of the
    /// new connection. A datagram for a connection of the endpoint is routed to it;
    /// then the endpoint is polled and the connection is marked pollable. Any other
    /// datagram is dropped.
    ///
    /// Whatever the datagram is: at most one connection is added to the endpoint;
    /// a new connection is announced only by a call that succeeds, once, and as the
    /// last callback; every other callback is a datagram of this endpoint or is
    /// raised by one of its connections.
    pub fn handle_datagram(&mut self, data: &[u8], address: IpAddr, out: &mut Vec<Callback>) -> (
    handled: Result<(), FFIErrorKind>)
        requires
            old(self).wf(),
        ensures
            final(self).wf(),
            final(self).same_endpoint(old(self)),
            old(self).registered() ==> final(self).registered(),
            endpoint_raised_since(final(out)@, old(out)@, old(self).spec_id()),
            exists|announced: Option<u32>| #[trigger]
                datagram_raised(final(out)@, old(out)@, old(self).spec_id(), announced) && (
                announced is Some ==> handled is Ok),
            handled matches Err(error) ==> datagram_error(error@),
            exists|handle: usize|
                final(self).connections().subset_of(
                    #[trigger] old(self).connections().insert(handle),
                ) && final(self).pollable().subset_of(old(self).pollable().insert(handle)),
    {
        let event = endpoint_handle(
            &mut self.inner,
            Instant::now(),
            address.octets(),
            address.port(),
            data,
        );
        let ghost event_handle = match event {
            Some((handle, _)) => handle,
            None => 0,
        };
        let ghost announced = announced_by(event);
        let handled = self.handle_datagram_event(event, out);
        proof {
            let handle: usize = event_handle;
            assert(self.connections().subset_of(old(self).connections().insert(handle)));
            assert(self.pollable().subset_of(old(self).pollable().insert(handle)));
            assert(datagram_raised(
                out@,
                old(out)@,
                old(self).spec_id(),
                if handled is Ok {
                    announced
                } else {
                    None
                },
            ));
        }
        handled
    }

    /// Handles a datagram of which the protocol endpoint has said what it is.
    ///
    /// - A datagram that is nothing to the endpoint is dropped: the call succeeds
    ///   and changes nothing.
    /// - A datagram that started a connection, which the protocol endpoint has in
    ///   its table under `handle`: the connection is added to the endpoint and
    ///   registered for polling, the endpoint is polled, and the connection is
    ///   marked pollable. If all that succeeds, the host is told of the new
    ///   connection as the last callback.
    /// - A datagram for the connection `handle`: it is routed to the connection,
    ///   the endpoint is polled, and the connection is marked pollable. A handle
    ///   that events are not routed to is an error of the protocol, and nothing
    ///   changes.
    pub fn handle_datagram_event(
        &mut self,
        event: Option<(usize, DatagramEvent)>,
        out: &mut Vec<Callback>,
    ) -> (handled: Result<(), FFIErrorKind>)
        requires
            old(self).wf(),
            event matches Some((handle, DatagramEvent::NewConnection(_))) ==> old(
                self,
            ).table().contains(handle),
        ensures
            final(self).wf(),
            final(self).same_endpoint(old(self)),
            old(self).registered() ==> final(self).registered(),
            datagram_raised(
                final(out)@,
                old(out)@,
                old(self).spec_id(),
                if handled is Ok {
                    announced_by(event)
                } else {
                    None
                },
            ),
            handled matches Err(error) ==> datagram_error(error@),
            match event {
                None => {
                    &&& handled is Ok
                    &&& final(out)@ == old(out)@
                    &&& final(self).connections() == old(self).connections()
                    &&& final(self).pollable() == old(self).pollable()
                    &&& final(self).table() == old(self).table()
                },
                Some((handle, DatagramEvent::NewConnection(_))) => {
                    &&& final(self).connections().subset_of(old(self).connections().insert(handle))
                    &&& final(self).pollable().subset_of(old(self).pollable().insert(handle))
                },
                Some((handle, DatagramEvent::ConnectionEvent(_))) => {
                    &&& final(self).connections().subset_of(old(self).connections())
                    &&& final(self).pollable().subset_of(old(self).pollable())
                    &&& !old(self).connections().contains(handle) ==> {
                        &&& handled matches Err(error) && error@ == unknown_connection_error()
                        &&& final(out)@ == old(out)@
                        &&& final(self).connections() == old(self).connections()
                        &&& final(self).pollable() == old(self).pollable()
                        &&& final(self).table() == old(self).table()
                    }
                },
            },
    {
        let ghost before = out@;
        let ghost id = self.spec_id();
        match event {
            Some((handle, DatagramEvent::NewConnection(connection))) => {
                let connection = self.add_connection(handle, connection);
                let connection_id = connection.connection_id();
                let shared = Arc::new(new_mutex(connection));
                self.register_pollable_connection(handle, share(&shared));
                let polled = self.poll(out);
                proof {
                    lemma_transmits_are_quiet(out@, before, id);
                    lemma_datagram_raised_quietly(out@, before, id);
                }
                match polled {
                    Ok(_) => {},
                    Err(error) => {
                        return Err(error);
                    },
                }
                let ghost polled_out = out@;
                let marked = match lock(&shared) {
                    LockAttempt::Acquired(mut guard) => {
                        let connection = locked(&mut guard);
                        let ghost raiser = connection.id();
                        let marked = connection.mark_pollable(out);
                        proof {
                            lemma_raised_is_quiet(out@, polled_out, raiser, id);
                        }
                        marked
                    },
                    _ => Err(FFIErrorKind::io_error("connection lock was poisoned")),
                };
                proof {
                    lemma_quiet_since_twice(before, polled_out, out@, id);
                    lemma_datagram_raised_quietly(out@, before, id);
                }
                match marked {
                    Ok(_) => {},
                    Err(error) => {
                        return Err(error);
                    },
                }
                let ghost marked_out = out@;
                out.push(
                    Callback::NewConnection {
                        handle: shared,
                        connection: connection_id,
                        endpoint_id: self.id,
                    },
                );
                proof {
                    assert(out@.drop_last() =~= marked_out);
                    lemma_datagram_raised_announcing(out@, marked_out, before, id, connection_id);
                }
                Ok(())
            },
            Some((handle, DatagramEvent::ConnectionEvent(event))) => {
                proof {
                    lemma_datagram_raised_quietly(out@, before, id);
                }
                match self.forward_event_to_connection(handle, event) {
                    Ok(_) => {},
                    Err(error) => {
                        return Err(error);
                    },
                }
                let polled = self.poll(out);
                proof {
                    lemma_transmits_are_quiet(out@, before, id);
                    lemma_datagram_raised_quietly(out@, before, id);
                }
                match polled {
                    Ok(_) => {},
                    Err(error) => {
                        return Err(error);
                    },
                }
                let ghost polled_out = out@;
                let marked = self.poll_connection(handle, out);
                proof {
                    lemma_quiet_since_twice(before, polled_out, out@, id);
                    lemma_datagram_raised_quietly(out@, before, id);
                }
                marked
            },
            None => {
                proof {
                    lemma_datagram_raised_quietly(out@, before, id);
                }
                Ok(())
            },
        }
    }

    /// Hands the host a datagram to transmit.
    fn notify_transmit(&self, transmit: quinn_proto::Transmit, out: &mut Vec<Callback>)
        ensures
            final(out)@ == old(out)@.push(Callback::Transmit { endpoint: self.spec_id(), transmit }),
    {
        out.push(Callback::Transmit { endpoint: self.id, transmit });
    }

    /// Polls the endpoint.
    ///
    /// - Hands the host every datagram that the protocol endpoint has queued, once
    ///   each and in the order of the queue, before anything from the inbox.
    /// - Handles the messages that the connections have sent to the inbox, at most
    ///   [`IO_LOOP_BOUND`] of them.
    ///
    /// The result says whether the inbox was handled up to the bound, so that
    /// messages may be left and the caller should poll again without waiting. Only
    /// datagrams to transmit are added to `out`, and no connection is added.
    pub fn poll(&mut self, out: &mut Vec<Callback>) -> (polled: Result<bool, FFIErrorKind>)
        requires
            old(self).wf(),
        ensures
            final(self).wf(),
            final(self).same_endpoint(old(self)),
            final(self).drained_from(old(self)),
            final(self).connections().subset_of(old(self).connections()),
            final(self).pollable().subset_of(old(self).pollable()),
            old(self).registered() ==> final(self).registered(),
            transmits_since(final(out)@, old(out)@, old(self).spec_id()),
            final(self).spec_events_polled() <= IO_LOOP_BOUND,
            (old(out)@ + handed_out(old(self).spec_id(), old(self).queue())).is_prefix_of(
                final(out)@,
            ),
            final(out)@.len() <= old(out)@.len() + old(self).queued()
                + final(self).spec_events_polled(),
            polled matches Ok(again) ==> again == poll_again_of(final(self).spec_events_polled()),
            polled matches Err(error) ==> error is Io || error@ == unknown_connection_error(),
    {
        let ghost before = out@;
        let mut draining = true;
        while draining
            invariant
                self.wf(),
                self.same_endpoint(old(self)),
                self.senders() == old(self).senders(),
                self.references() == old(self).references(),
                before == old(out)@,
                out@ + handed_out(old(self).spec_id(), self.queue()) == before + handed_out(
                    old(self).spec_id(),
                    old(self).queue(),
                ),
                !draining ==> self.queued() == 0,
                transmits_since(out@, before, old(self).spec_id()),
            decreases
                    self.queued(),
                    (if draining {
                        1int
                    } else {
                        0int
                    }),
        {
            let ghost id = self.spec_id();
            let ghost queue = self.queue();
            let ghost raised = out@;
            match endpoint_poll_transmit(&mut self.inner) {
                Some(transmit) => {
                    self.notify_transmit(transmit, out);
                    assert(out@ + handed_out(id, self.queue()) =~= raised + handed_out(id, queue));
                },
                None => {
                    draining = false;
                },
            }
        }
        let ghost drained = out@;
        assert(drained =~= before + handed_out(old(self).spec_id(), old(self).queue())) by {
            assert(handed_out(old(self).spec_id(), self.queue()) =~= Seq::<Callback>::empty());
        }
        let handled = self.handle_connection_events(out);
        proof {
            lemma_transmits_since_twice(before, drained, out@, self.spec_id());
        }
        handled
    }

    /// Handles one message that a connection has sent to the inbox.
    ///
    /// - A datagram is handed to the host.
    /// - An event for the protocol endpoint from a connection that events are not
    ///   routed to is an error of the protocol, and nothing changes.
    /// - The last event of a connection is handed to the protocol endpoint, and the
    ///   connection is taken out of the routing, out of the polling and so out of
    ///   the table of the protocol endpoint.
    /// - Every other event is handed to the protocol endpoint, and what it answers
    ///   is routed to the connection; only that can fail, with an I/O error.
    pub fn handle_endpoint_message(
        &mut self,
        handle: usize,
        event: EndpointEvent,
        out: &mut Vec<Callback>,
    ) -> (handled: Result<(), FFIErrorKind>)
        requires
            old(self).wf(),
        ensures
            final(self).wf(),
            final(self).same_endpoint(old(self)),
            final(self).spec_events_polled() == old(self).spec_events_polled(),
            match event {
                EndpointEvent::Transmit(transmit) => {
                    &&& handled is Ok
                    &&& final(out)@ == old(out)@.push(
                        Callback::Transmit { endpoint: old(self).spec_id(), transmit },
                    )
                    &&& final(self).senders() == old(self).senders()
                    &&& final(self).references() == old(self).references()
                    &&& final(self).table() == old(self).table()
                },
                EndpointEvent::Proto(notice) => {
                    &&& final(out)@ == old(out)@
                    &&& !old(self).connections().contains(handle) ==> {
                        &&& handled matches Err(error) && error@ == unknown_connection_error()
                        &&& final(self).senders() == old(self).senders()
                        &&& final(self).references() == old(self).references()
                        &&& final(self).table() == old(self).table()
                    }
                    &&& old(self).connections().contains(handle) && notice.drained() ==> {
                        &&& handled is Ok
                        &&& final(self).senders() == old(self).senders().remove(handle)
                        &&& final(self).references() == old(self).references().remove(handle)
                        &&& final(self).table() == old(self).table().remove(handle)
                    }
                    &&& old(self).connections().contains(handle) && !notice.drained() ==> {
                        &&& handled matches Err(error) ==> error is Io
                        &&& final(self).senders() == old(self).senders()
                        &&& final(self).references() == old(self).references()
                        &&& final(self).table() == old(self).table()
                    }
                },
            },
    {
        match event {
            EndpointEvent::Proto(notice) => {
                if !self.connections.contains_key(&handle) {
                    return Err(unknown_connection());
                }
                if notice.is_drained() {
                    self.connections.remove(&handle);
                    self.connection_refs.remove(&handle);
                }
                match endpoint_handle_event(&mut self.inner, handle, notice) {
                    Some(answer) => match self.connections.get(&handle) {
                        Some(sender) => match sender.send(ConnectionEvent::Proto(answer)) {
                            Ok(_) => Ok(()),
                            Err(error) => Err(FFIErrorKind::from_display(&error)),
                        },
                        None => vstd::pervasive::unreached(),
                    },
                    None => Ok(()),
                }
            },
            EndpointEvent::Transmit(transmit) => {
                self.notify_transmit(transmit, out);
                Ok(())
            },
        }
    }

    /// Handles the messages that the connections have sent to the inbox, at most
    /// [`IO_LOOP_BOUND`] of them, each as [`EndpointImpl::handle_endpoint_message`]
    /// does it, and stops at the first that fails. The result says whether the
    /// bound was reached.
    fn handle_connection_events(&mut self, out: &mut Vec<Callback>) -> (handled: Result<
        bool,
        FFIErrorKind,
    >)
        requires
            old(self).wf(),
        ensures
            final(self).wf(),
            final(self).same_endpoint(old(self)),
            final(self).drained_from(old(self)),
            final(self).connections().subset_of(old(self).connections()),
            final(self).pollable().subset_of(old(self).pollable()),
            old(self).registered() ==> final(self).registered(),
            final(self).spec_events_polled() <= IO_LOOP_BOUND,
            transmits_since(final(out)@, old(out)@, old(self).spec_id()),
            old(out)@.len() <= final(out)@.len(),
            final(out)@.len() <= old(out)@.len() + final(self).spec_events_polled(),
            handled matches Ok(more) ==> more == poll_again_of(final(self).spec_events_polled()),
            handled matches Err(error) ==> error is Io || error@ == unknown_connection_error(),
    {
        let ghost before = out@;
        let mut taken: usize = 0;
        self.events_polled = 0;
        while taken < IO_LOOP_BOUND
            invariant
                taken <= IO_LOOP_BOUND,
                self.wf(),
                self.same_endpoint(old(self)),
                self.drained_from(old(self)),
                old(self).registered() ==> self.registered(),
                self.spec_events_polled() == taken,
                before == old(out)@,
                before.len() <= out@.len() <= before.len() + taken,
                transmits_since(out@, before, old(self).spec_id()),
            decreases IO_LOOP_BOUND - taken,
        {
            let (handle, event) = match self.endpoint_events_rx.try_recv() {
                Ok(message) => message,
                Err(_) => {
                    return Ok(false);
                },
            };
            taken = taken + 1;
            self.events_polled = taken;
            let ghost earlier = *self;
            let ghost raised = out@;
            let handled = self.handle_endpoint_message(handle, event, out);
            proof {
                assert(transmits_since(out@, raised, old(self).spec_id())) by {
                    assert(raised.is_prefix_of(out@));
                }
                lemma_transmits_since_twice(before, raised, out@, old(self).spec_id());
                assert(self.drained_from(&earlier));
                lemma_drained_twice(old(self), &earlier, &*self);
            }
            match handled {
                Ok(_) => {},
                Err(error) => {
                    return Err(error);
                },
            }
        }
        Ok(true)
    }
}

/// An endpoint from which connections were drained in two steps is the endpoint
/// from which they were drained.
pub proof fn lemma_drained_twice(first: &EndpointImpl, second: &EndpointImpl, third: &EndpointImpl)
    requires
        second.drained_from(first),
        third.drained_from(second),
    ensures
        third.drained_from(first),
{
    assert forall|handle: usize| #[trigger]
        third.senders().dom().contains(handle) implies #[trigger] first.senders().dom().contains(
        handle,
    ) && third.senders()[handle] == first.senders()[handle] by {
        assert(second.senders().dom().contains(handle));
        assert(first.senders().dom().contains(handle));
    }
    assert forall|handle: usize| #[trigger]
        third.references().dom().contains(handle) implies #[trigger] first.references().dom().contains(
        handle,
    ) && third.references()[handle] == first.references()[handle] by {
        assert(second.references().dom().contains(handle));
        assert(first.references().dom().contains(handle));
    }
    assert forall|handle: usize|
        first.connections().contains(handle) && !third.connections().contains(
            handle,
        ) implies !third.pollable().contains(handle) by {
        if second.connections().contains(handle) {
        } else {
            assert(!second.pollable().contains(handle));
        }
    }
    assert forall|handle: usize|
        first.pollable().contains(handle) && !third.pollable().contains(
            handle,
        ) implies first.connections().contains(handle) && !third.connections().contains(handle) by {
        if second.pollable().contains(handle) {
            assert(second.connections().contains(handle));
        } else {
            assert(!second.connections().contains(handle));
        }
    }
}

/// The connection that the host is told of when a datagram has been handled with
/// success: the one that the datagram started, if it started one.
pub open spec fn announced_by(event: Option<(usize, DatagramEvent)>) -> Option<u32> {
    match event {
        Some((handle, DatagramEvent::NewConnection(_))) => Some(connection_id_of(handle)),
        _ => None,
    }
}

/// Whether `error` is one that the handling of a datagram can end with: an I/O
/// error, a handle that events are not routed to, or the error of the binding layer
/// from a connection that is to wake a poller and has no notifier for it.
pub open spec fn datagram_error(error: ErrorView) -> bool {
    error is Io || error is Ffi || error == unknown_connection_error()
}

/// Whether `after` is `before` with what the handling of one datagram raises for
/// the endpoint `id`: datagrams of the endpoint and what its connections raise,
/// and last the announcement of the new connection `announced`, if there is one.
pub open spec fn datagram_raised(
    after: Seq<Callback>,
    before: Seq<Callback>,
    id: u8,
    announced: Option<u32>,
) -> bool {
    &&& endpoint_raised_since(after, before, id)
    &&& forall|i: int|
        before.len() <= i < after.len() && (#[trigger] after[i]) is NewConnection ==> {
            &&& i == after.len() - 1
            &&& announced is Some
        }
    &&& announced matches Some(connection) ==> {
        &&& after.len() > before.len()
        &&& after.last() matches Callback::NewConnection { connection: told, endpoint_id, .. }
        &&& told == connection
        &&& endpoint_id == id
    }
}

/// What came from an endpoint without the announcement of a new connection is what
/// the handling of a datagram raises that starts no connection.
pub proof fn lemma_datagram_raised_quietly(after: Seq<Callback>, before: Seq<Callback>, id: u8)
    requires
        quiet_since(after, before, id) || after == before,
    ensures
        datagram_raised(after, before, id, None),
{
    if after == before {
        assert(before.is_prefix_of(after));
        assert(quiet_since(after, before, id));
    }
    lemma_quiet_comes_from_endpoint(after, before, id);
}

/// The announcement of a new connection after what came from the endpoint without
/// one is what the handling of a datagram raises that starts a connection.
pub proof fn lemma_datagram_raised_announcing(
    after: Seq<Callback>,
    marked: Seq<Callback>,
    before: Seq<Callback>,
    id: u8,
    connection: u32,
)
    requires
        quiet_since(marked, before, id),
        after.len() == marked.len() + 1,
        after.drop_last() == marked,
        after.last() matches Callback::NewConnection { connection: told, endpoint_id, .. } && told
            == connection && endpoint_id == id,
    ensures
        datagram_raised(after, before, id, Some(connection)),
{
    assert(marked =~= after.subrange(0, marked.len() as int));
    assert(before =~= marked.subrange(0, before.len() as int));
    assert(before =~= after.subrange(0, before.len() as int));
    assert(before.is_prefix_of(after));
    assert forall|i: int| before.len() <= i < after.len() implies (#[trigger] after[i]).from_endpoint(
        id,
    ) && (after[i] is NewConnection ==> i == after.len() - 1) by {
        if i < marked.len() {
            assert(after[i] == marked[i]);
        }
    }
}

/// The error for a connection that is not registered for polling.
pub open spec fn absent_connection_error() -> ErrorView {
    ErrorView::Io("connection is absent from the endpoint"@)
}

/// The error for an event that names a connection which the endpoint does not
/// route events to.
pub open spec fn unknown_connection_error() -> ErrorView {
    ErrorView::Protocol { code: 10, reason: "no connection for the handle"@ }
}

/// The error for an event that names a connection which the endpoint does not
/// route events to: a violation of the protocol between the endpoint and its
/// connections.
pub fn unknown_connection() -> (error: FFIErrorKind)
    ensures
        error@ == unknown_connection_error(),
{
    FFIErrorKind::Protocol { code: 10, reason: String::from_str("no connection for the handle") }
}

/// Creates an endpoint that accepts connections with the given server
/// configuration, shares it, and creates the poller that is woken through the
/// notifier of the endpoint. The poller starts by waiting.
pub fn create_server_endpoint(config: quinn_proto::ServerConfig, id: u8, auto_poll: bool) -> (created:
    (Arc<Mutex<EndpointImpl>>, EndpointPoller))
    ensures
        created.1.wf(),
        created.1.spec_state() == (PollerState { loop_again: false, spin_counter: 0 }),
        created.1.spec_endpoint() == created.0,
{
    share_endpoint(EndpointImpl::server(config, id, auto_poll))
}

/// Creates an endpoint that connects with the given client configuration, shares
/// it, and creates the poller that is woken through the notifier of the endpoint.
/// The poller starts by waiting.
pub fn create_client_endpoint(config: quinn_proto::ClientConfig, id: u8, auto_poll: bool) -> (created:
    (Arc<Mutex<EndpointImpl>>, EndpointPoller))
    ensures
        created.1.wf(),
        created.1.spec_state() == (PollerState { loop_again: false, spin_counter: 0 }),
        created.1.spec_endpoint() == created.0,
{
    share_endpoint(EndpointImpl::client(config, id, auto_poll))
}

/// Shares an endpoint between the host and a new poller: the endpoint gets the
/// notifier that wakes the poller, and the poller starts by waiting.
pub fn share_endpoint(endpoint: EndpointImpl) -> (shared: (Arc<Mutex<EndpointImpl>>, EndpointPoller))
    ensures
        shared.1.wf(),
        shared.1.spec_state() == (PollerState { loop_again: false, spin_counter: 0 }),
        shared.1.spec_endpoint() == shared.0,
{
    let mut endpoint = endpoint;
    let (notifier, receiver) = channel();
    endpoint.set_poll_notifier(notifier);
    let shared = Arc::new(new_mutex(endpoint));
    let poller = EndpointPoller {
        receiver,
        state: PollerState { loop_again: false, spin_counter: 0 },
        endpoint_ref: share(&shared),
    };
    (shared, poller)
}

/// The number of turns that the poller lets pass between two attempts to take the
/// lock of the endpoint while the lock is busy.
pub const SPIN_INTERVAL: u32 = 1000;

/// What the poller remembers from one turn to the next.
#[derive(Debug, Clone, Copy, PartialEq, Eq, Structural)]
pub struct PollerState {
    /// Whether the next turn starts without waiting to be woken.
    pub loop_again: bool,
    /// The turns since the last attempt to take the lock; 0 while waiting.
    pub spin_counter: u32,
}

/// How an attempt of the poller to poll the endpoint ended.
#[derive(Debug, Clone, Copy, PartialEq, Eq, Structural)]
pub enum LockOutcome {
    /// The host holds the lock of the endpoint.
    WouldBlock,
    /// The endpoint was polled; `again` is what the poll returned.
    Polled { again: bool },
    /// A thread panicked while it held the lock; the endpoint was not polled.
    Poisoned,
}

impl PollerState {
    /// The state at the start of a turn: the counter is below the interval, and it
    /// is 0 while the poller waits to be woken.
    pub open spec fn valid(self) -> bool {
        &&& self.spin_counter < SPIN_INTERVAL
        &&& !self.loop_again ==> self.spin_counter == 0
    }

    /// Whether the turn starts by waiting to be woken.
    pub open spec fn waits(self) -> bool {
        !self.loop_again
    }

    /// The state after the start of a turn: a turn that did not wait is counted.
    pub open spec fn counted(self) -> PollerState {
        if self.loop_again {
            PollerState { loop_again: true, spin_counter: (self.spin_counter + 1) as u32 }
        } else {
            self
        }
    }

    /// Whether the lock is tried in a turn that was counted: in a turn that waited,
    /// and in every turn in which the counter reaches the interval.
    pub open spec fn attempts(self) -> bool {
        self.spin_counter == 0 || (self.loop_again && self.spin_counter == SPIN_INTERVAL)
    }

    /// The state after an attempt. A busy lock is tried again after an interval of
    /// turns. A poll that asks to be repeated is repeated after an interval of
    /// turns, without waiting; after any other poll the poller waits again.
    pub open spec fn settled(self, outcome: LockOutcome) -> PollerState {
        match outcome {
            LockOutcome::WouldBlock => PollerState { loop_again: true, spin_counter: 1 },
            LockOutcome::Polled { again } => PollerState { loop_again: again, spin_counter: 0 },
            LockOutcome::Poisoned => PollerState { loop_again: self.loop_again, spin_counter: 0 },
        }
    }

    /// The state at the start of the next turn, where `outcome` is how the attempt
    /// of this turn ended, if one was made.
    pub open spec fn next(self, outcome: LockOutcome) -> PollerState {
        if self.counted().attempts() {
            self.counted().settled(outcome)
        } else {
            self.counted()
        }
    }

    /// Starts a turn: counts it where the poller did not wait, and says whether
    /// the lock is to be tried.
    pub fn count(&mut self) -> (attempts: bool)
        requires
            old(self).valid(),
        ensures
            *final(self) == old(self).counted(),
            attempts == final(self).attempts(),
    {
        if self.loop_again {
            self.spin_counter = self.spin_counter + 1;
        }
        self.spin_counter == 0 || (self.loop_again && self.spin_counter == SPIN_INTERVAL)
    }

    /// Ends a turn in which the lock was tried.
    pub fn settle(&mut self, outcome: LockOutcome)
        ensures
            *final(self) == old(self).settled(outcome),
            final(self).valid(),
    {
        match outcome {
            LockOutcome::WouldBlock => {
                self.loop_again = true;
                self.spin_counter = 1;
            },
            LockOutcome::Polled { again } => {
                self.loop_again = again;
                self.spin_counter = 0;
            },
            LockOutcome::Poisoned => {
                self.spin_counter = 0;
            },
        }
    }
}

/// Polls an endpoint whenever it is woken. The poller runs on a thread of its own.
pub struct EndpointPoller {
    receiver: Receiver<u8>,
    state: PollerState,
    endpoint_ref: Arc<Mutex<EndpointImpl>>,
}

impl EndpointPoller {
    /// What the poller remembers from the last turn.
    pub closed spec fn spec_state(&self) -> PollerState {
        self.state
    }

    /// The endpoint that the poller polls, as it is shared with the host.
    pub closed spec fn spec_endpoint(&self) -> Arc<Mutex<EndpointImpl>> {
        self.endpoint_ref
    }

    /// The invariant of a poller: its state is one that a turn can start in.
    pub open spec fn wf(&self) -> bool {
        self.spec_state().valid()
    }

    /// Creates a poller for an endpoint, and the notifier that wakes it.
    pub fn new(endpoint_ref: Arc<Mutex<EndpointImpl>>) -> (created: (Self, Sender<u8>))
        ensures
            created.0.wf(),
            created.0.spec_state() == (PollerState { loop_again: false, spin_counter: 0 }),
            created.0.spec_endpoint() == endpoint_ref,
    {
        let (sender, receiver) = channel();
        (
            EndpointPoller {
                endpoint_ref,
                receiver,
                state: PollerState { loop_again: false, spin_counter: 0 },
            },
            sender,
        )
    }

    /// What the poller remembers from the last turn.
    pub fn state(&self) -> (state: PollerState)
        ensures
            state == self.spec_state(),
    {
        self.state
    }

    /// The endpoint that the poller polls.
    pub fn endpoint(&self) -> (endpoint: &Arc<Mutex<EndpointImpl>>)
        ensures
            *endpoint == self.spec_endpoint(),
    {
        &self.endpoint_ref
    }

    /// Starts a turn. Unless the last turn asked for another one at once, the
    /// poller waits until it is woken. The result says whether the lock of the
    /// endpoint is to be tried in this turn; if it is, the turn ends with
    /// [`EndpointPoller::poll`] or [`EndpointPoller::settle`].
    pub fn begin(&mut self) -> (attempts: bool)
        requires
            old(self).wf(),
        ensures
            final(self).spec_state() == old(self).spec_state().counted(),
            final(self).spec_endpoint() == old(self).spec_endpoint(),
            attempts == final(self).spec_state().attempts(),
            !attempts ==> final(self).wf(),
    {
        if !self.state.loop_again {
            let _ = self.receiver.recv();
        }
        self.state.count()
    }

    /// Ends a turn in which the lock was taken: polls the endpoint and remembers
    /// whether the poll asked to be repeated.
    pub fn poll(&mut self, endpoint: &mut EndpointImpl, out: &mut Vec<Callback>) -> (polled: Result<
        (),
        FFIErrorKind,
    >)
        requires
            old(endpoint).wf(),
        ensures
            final(endpoint).wf(),
            final(endpoint).same_endpoint(old(endpoint)),
            transmits_since(final(out)@, old(out)@, old(endpoint).spec_id()),
            final(self).wf(),
            polled is Ok ==> final(self).spec_state() == old(self).spec_state().settled(
                LockOutcome::Polled { again: poll_again_of(final(endpoint).spec_events_polled()) },
            ),
            polled is Err ==> final(self).spec_state() == old(self).spec_state().settled(
                LockOutcome::Polled { again: false },
            ),
    {
        match endpoint.poll(out) {
            Ok(again) => {
                self.state.settle(LockOutcome::Polled { again });
                Ok(())
            },
            Err(error) => {
                self.state.settle(LockOutcome::Polled { again: false });
                Err(error)
            },
        }
    }

    /// Ends a turn in which the lock was tried and not taken.
    pub fn settle(&mut self, outcome: LockOutcome)
        ensures
            final(self).spec_state() == old(self).spec_state().settled(outcome),
            final(self).wf(),
    {
        self.state.settle(outcome);
    }
}

/// A poll that took as many messages from the inbox as one poll may makes the
/// poller start its next turn without waiting to be woken.
pub proof fn lemma_poll_again_does_not_wait(state: PollerState, events: usize)
    requires
        events == IO_LOOP_BOUND,
    ensures
        !state.settled(LockOutcome::Polled { again: poll_again_of(events) }).waits(),
{
}

/// A poller that does not wait tries the lock again within an interval of turns:
/// from a state that a turn can start in, `SPIN_INTERVAL - spin_counter` turns
/// without an attempt lead to a turn with one.
pub proof fn lemma_attempt_within_interval(state: PollerState)
    requires
        state.valid(),
        state.loop_again,
    ensures
        turns_until_attempt(state) == SPIN_INTERVAL - state.spin_counter,
    decreases SPIN_INTERVAL - state.spin_counter,
{
    if !state.counted().attempts() {
        lemma_attempt_within_interval(state.counted());
    }
}

/// The number of turns, this one included, until the lock is tried, for a poller
/// that does not wait.
pub open spec fn turns_until_attempt(state: PollerState) -> int
    decreases SPIN_INTERVAL - state.spin_counter,
{
    if state.valid() && state.loop_again && !state.counted().attempts() {
        1 + turns_until_attempt(state.counted())
    } else {
        1
    }
}

} // verus!
