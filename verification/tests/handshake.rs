use quinn_ffi::ffi::callbacks::Callback;
use quinn_ffi::ffi::ffi_result::{FFIResult, FFIResultKind, LastResult};
use quinn_ffi::proto_impl::endpoint::{
    create_client_endpoint, create_server_endpoint, EndpointPoller,
};
use quinn_ffi::proto_impl::connection::{PollReport, StreamRead};
use quinn_ffi::proto_impl::{ConnectionEvent, ConnectionImpl, EndpointImpl, FFIErrorKind, IpAddr};
use std::sync::{Arc, Mutex};
use std::time::{Duration, Instant, SystemTime};

struct SkipServerVerification;

impl rustls::client::ServerCertVerifier for SkipServerVerification {
    fn verify_server_cert(
        &self,
        _end_entity: &rustls::Certificate,
        _intermediates: &[rustls::Certificate],
        _server_name: &rustls::ServerName,
        _scts: &mut dyn Iterator<Item = &[u8]>,
        _ocsp_response: &[u8],
        _now: SystemTime,
    ) -> Result<rustls::client::ServerCertVerified, rustls::Error> {
        Ok(rustls::client::ServerCertVerified::assertion())
    }
}

fn server_config() -> quinn_proto::ServerConfig {
    let certificate = rcgen::generate_simple_self_signed(vec!["localhost".to_string()]).unwrap();
    let key = rustls::PrivateKey(certificate.serialize_private_key_der());
    let cert = rustls::Certificate(certificate.serialize_der().unwrap());
    let crypto = rustls::ServerConfig::builder()
        .with_safe_default_cipher_suites()
        .with_safe_default_kx_groups()
        .with_safe_default_protocol_versions()
        .unwrap()
        .with_no_client_auth()
        .with_single_cert(vec![cert], key)
        .unwrap();
    quinn_proto::ServerConfig::with_crypto(Arc::new(crypto))
}

fn client_config() -> quinn_proto::ClientConfig {
    let crypto = rustls::ClientConfig::builder()
        .with_safe_defaults()
        .with_custom_certificate_verifier(Arc::new(SkipServerVerification))
        .with_no_client_auth();
    quinn_proto::ClientConfig::new(Arc::new(crypto))
}

/// One end of the conversation: an endpoint, its connection once there is one, and
/// what has been observed of it.
struct Peer {
    endpoint: Arc<Mutex<EndpointImpl>>,
    _poller: EndpointPoller,
    auto_poll: bool,
    connection: Option<Arc<Mutex<ConnectionImpl>>>,
    handle: usize,
    address: IpAddr,
    connected: bool,
    opened: Vec<(u64, u8)>,
    readable: Vec<(u64, u8)>,
    closes: Vec<(u64, Vec<u8>)>,
    pollable: usize,
}

impl Peer {
    fn new(shared: (Arc<Mutex<EndpointImpl>>, EndpointPoller), auto_poll: bool, address: IpAddr) -> Peer {
        Peer {
            endpoint: shared.0,
            _poller: shared.1,
            auto_poll,
            connection: None,
            handle: 0,
            address,
            connected: false,
            opened: Vec::new(),
            readable: Vec::new(),
            closes: Vec::new(),
            pollable: 0,
        }
    }

    fn adopt(&mut self, connection: Arc<Mutex<ConnectionImpl>>) {
        self.handle = connection.lock().unwrap().connection_handle();
        self.connection = Some(connection);
    }

    /// Handles the callbacks in `out`; the datagrams among them are returned.
    fn dispatch(&mut self, out: Vec<Callback>) -> Vec<Vec<u8>> {
        let mut datagrams = Vec::new();
        let mut pending = out;
        while !pending.is_empty() {
            let mut next = Vec::new();
            for callback in pending {
                match callback {
                    Callback::Transmit { transmit, .. } => datagrams.push(transmit.contents),
                    Callback::NewConnection { handle, .. } => self.adopt(handle),
                    Callback::ConnectionClose { error_code, reason, .. } => {
                        self.closes.push((error_code, reason))
                    }
                    Callback::Connected { .. } => self.connected = true,
                    Callback::StreamOpened { stream_id, dir, .. } => self.opened.push((stream_id, dir)),
                    Callback::StreamReadable { stream_id, dir, .. } => {
                        self.readable.push((stream_id, dir))
                    }
                    Callback::ConnectionPollable { .. } => {
                        self.pollable += 1;
                        if let Some(connection) = &self.connection {
                            connection.lock().unwrap().poll(&mut next).unwrap();
                        }
                    }
                    _ => {}
                }
            }
            self.endpoint.lock().unwrap().poll(&mut next).unwrap();
            pending = next;
        }
        datagrams
    }

    /// Polls the connection and the endpoint; the datagrams to send are returned.
    fn poll(&mut self) -> Vec<Vec<u8>> {
        let mut out = Vec::new();
        if self.auto_poll {
            if self.connection.is_some() {
                self.endpoint.lock().unwrap().poll_connection(self.handle, &mut out).unwrap();
            }
        } else if let Some(connection) = &self.connection {
            connection.lock().unwrap().poll(&mut out).unwrap();
        }
        self.endpoint.lock().unwrap().poll(&mut out).unwrap();
        self.dispatch(out)
    }

    /// Hands the endpoint datagrams that the peer at `from` sent.
    fn receive(&mut self, datagrams: Vec<Vec<u8>>, from: IpAddr) -> Vec<Vec<u8>> {
        let mut replies = Vec::new();
        for datagram in datagrams {
            let mut out = Vec::new();
            self.endpoint.lock().unwrap().handle_datagram(&datagram, from, &mut out).unwrap();
            replies.extend(self.dispatch(out));
        }
        replies
    }
}

/// Lets the two peers exchange datagrams until neither has anything to send, for
/// `ticks` rounds at most. Returns the number of rounds that were needed.
fn drive(client: &mut Peer, server: &mut Peer, ticks: usize) -> usize {
    for tick in 0..ticks {
        let to_server = client.poll();
        let mut to_client = server.receive(to_server, client.address);
        to_client.extend(server.poll());
        let quiet = to_client.is_empty();
        let back = client.receive(to_client, server.address);
        let more = server.receive(back, client.address);
        let last = client.receive(more, server.address);
        let rest = server.receive(last, client.address);
        client.receive(rest, server.address);
        if quiet && client.connected && server.connected {
            return tick + 1;
        }
    }
    ticks
}

/// Lets the clock run on for `time`.
fn pause(time: Duration) {
    let start = Instant::now();
    while start.elapsed() < time {
        std::hint::spin_loop();
    }
}

fn connected_pair() -> (Peer, Peer) {
    connected_pair_in(false)
}

fn connected_pair_in(auto_poll: bool) -> (Peer, Peer) {
    let server_address = IpAddr::new([127, 0, 0, 1], 4433);
    let client_address = IpAddr::new([127, 0, 0, 1], 50000);
    let server_endpoint = create_server_endpoint(server_config(), 1, auto_poll);
    let client_endpoint = create_client_endpoint(client_config(), 2, auto_poll);
    let mut server = Peer::new(server_endpoint, auto_poll, server_address);
    let mut client = Peer::new(client_endpoint, auto_poll, client_address);
    let mut out = Vec::new();
    let (connection, id) = client
        .endpoint
        .lock()
        .unwrap()
        .connect_client(server_address, "localhost", &mut out)
        .unwrap();
    assert_eq!(id as usize, connection.lock().unwrap().connection_handle());
    client.adopt(connection);
    let first = client.dispatch(out);
    let replies = server.receive(first, client_address);
    client.receive(replies, server_address);
    let ticks = drive(&mut client, &mut server, 10);
    assert!(ticks <= 10);
    assert!(client.connected);
    assert!(server.connected);
    (client, server)
}

#[test]
fn self_signed_handshake() {
    let (client, server) = connected_pair();
    assert!(client.connected && server.connected);
    assert!(server.connection.is_some());
}

#[test]
fn bidirectional_stream_echo() {
    let (mut client, mut server) = connected_pair();
    let connection = client.connection.clone().unwrap();
    let mut out = Vec::new();
    let stream = connection.lock().unwrap().open_stream(0).unwrap();
    assert_eq!(stream, 0);
    let written = connection.lock().unwrap().write_stream(0, b"ping", &mut out).into_result().unwrap();
    assert_eq!(written, 4);
    let datagrams = client.dispatch(out);
    let replies = server.receive(datagrams, client.address);
    client.receive(replies, server.address);
    drive(&mut client, &mut server, 10);
    assert_eq!(server.opened.first(), Some(&(0, 0)));
    let accepted = server.connection.clone().unwrap();
    let mut out = Vec::new();
    let bytes = accepted.lock().unwrap().read_stream(0, 16, &mut out).into_result().unwrap();
    assert_eq!(bytes.len(), 4);
    assert_eq!(&bytes[..], b"ping");
    let blocked = accepted.lock().unwrap().read_stream(0, 16, &mut out).into_result();
    let mut slot = LastResult::new();
    assert!(matches!(blocked, Err(FFIErrorKind::KindCode(FFIResultKind::BufferBlocked))));
    assert_eq!(FFIResult::from_result(&mut slot, blocked).kind, FFIResultKind::BufferBlocked);
    assert!(slot.error().is_none());
    server.dispatch(out);

    // The next data of the stream is announced as readable.
    let mut out = Vec::new();
    let written = connection.lock().unwrap().write_stream(0, b"pong", &mut out).into_result().unwrap();
    assert_eq!(written, 4);
    let datagrams = client.dispatch(out);
    let replies = server.receive(datagrams, client.address);
    client.receive(replies, server.address);
    drive(&mut client, &mut server, 10);
    assert!(server.readable.contains(&(0, 0)));
    let mut out = Vec::new();
    let bytes = accepted.lock().unwrap().read_stream(0, 16, &mut out).into_result().unwrap();
    assert_eq!(&bytes[..], b"pong");
}

#[test]
fn short_buffer_loses_nothing() {
    let (mut client, mut server) = connected_pair();
    let connection = client.connection.clone().unwrap();
    let mut out = Vec::new();
    let stream = connection.lock().unwrap().open_stream(0).unwrap();
    let written = connection.lock().unwrap().write_stream(stream, b"ping-pong", &mut out).into_result().unwrap();
    assert_eq!(written, 9);
    let datagrams = client.dispatch(out);
    let replies = server.receive(datagrams, client.address);
    client.receive(replies, server.address);
    drive(&mut client, &mut server, 10);
    let accepted = server.connection.clone().unwrap();
    let mut out = Vec::new();
    let head = accepted.lock().unwrap().read_stream(stream, 4, &mut out).into_result().unwrap();
    assert_eq!(&head[..], b"ping");
    let tail = accepted.lock().unwrap().read_stream(stream, 16, &mut out).into_result().unwrap();
    assert_eq!(&tail[..], b"-pong");
    assert_eq!(head.len() + tail.len(), written);
}

#[test]
fn drain_on_close() {
    let (mut client, mut server) = connected_pair();
    let connection = client.connection.clone().unwrap();
    let handle = connection.lock().unwrap().connection_handle();
    connection.lock().unwrap().close(0, b"done").unwrap();
    let mut removed = false;
    for _ in 0..150 {
        drive(&mut client, &mut server, 1);
        let mut out = Vec::new();
        let polled = client.endpoint.lock().unwrap().poll_connection(handle, &mut out);
        client.dispatch(out);
        if let Err(error) = polled {
            assert!(error.reason().contains("absent"));
            removed = true;
            break;
        }
        pause(Duration::from_millis(100));
    }
    assert!(removed);
}

#[test]
fn handshake_with_automatic_polling() {
    let (mut client, mut server) = connected_pair_in(true);
    assert!(client.connected && server.connected);
    assert_eq!(client.pollable, 0);
    assert_eq!(server.pollable, 0);

    let connection = client.connection.clone().unwrap();
    let mut out = Vec::new();
    let stream = connection.lock().unwrap().open_stream(1).unwrap();
    assert_eq!(stream, 2);
    assert_eq!(connection.lock().unwrap().write_stream(stream, b"one way", &mut out).into_result().unwrap(), 7);
    let datagrams = client.dispatch(out);
    let replies = server.receive(datagrams, client.address);
    client.receive(replies, server.address);
    drive(&mut client, &mut server, 10);
    assert_eq!(server.opened.first(), Some(&(2, 1)));
    let accepted = server.connection.clone().unwrap();
    let mut out = Vec::new();
    let bytes = accepted.lock().unwrap().read_stream(2, 64, &mut out).into_result().unwrap();
    assert_eq!(&bytes[..], b"one way");
}

#[test]
fn the_host_is_told_to_poll() {
    let (client, _server) = connected_pair();
    assert!(client.pollable > 0);
    let connection = client.connection.clone().unwrap();
    let id = connection.lock().unwrap().connection_id();
    let mut out = Vec::new();
    connection.lock().unwrap().mark_pollable(&mut out).unwrap();
    assert_eq!(out.len(), 1);
    assert!(matches!(out[0], Callback::ConnectionPollable { connection } if connection == id));
}

#[test]
fn streams_are_checked_for_their_direction() {
    let (mut client, mut server) = connected_pair();
    let connection = client.connection.clone().unwrap();
    let mut out = Vec::new();
    let stream = connection.lock().unwrap().open_stream(1).unwrap();
    assert_eq!(stream, 2);
    connection.lock().unwrap().write_stream(stream, b"data", &mut out).into_result().unwrap();
    let unreadable = connection.lock().unwrap().read_stream(stream, 16, &mut out).into_result();
    assert!(matches!(
        unreadable,
        Err(FFIErrorKind::Io(message)) if message == "stream cannot be read from at this end"
    ));
    let datagrams = client.dispatch(out);
    let replies = server.receive(datagrams, client.address);
    client.receive(replies, server.address);
    drive(&mut client, &mut server, 10);

    let accepted = server.connection.clone().unwrap();
    let mut out = Vec::new();
    let unwritable = accepted.lock().unwrap().write_stream(stream, b"back", &mut out).into_result();
    assert!(matches!(
        unwritable,
        Err(FFIErrorKind::Io(message)) if message == "stream cannot be written to at this end"
    ));
    assert!(out.is_empty());
    assert_eq!(&accepted.lock().unwrap().read_stream(stream, 16, &mut out).into_result().unwrap()[..], b"data");
}

#[test]
fn unknown_streams_are_refused() {
    let (client, server) = connected_pair();
    let connection = client.connection.clone().unwrap();
    let mut out = Vec::new();
    let unknown = connection.lock().unwrap().write_stream(40, b"data", &mut out).into_result();
    assert!(matches!(unknown, Err(FFIErrorKind::Io(message)) if message == "unknown stream"));
    let unknown = connection.lock().unwrap().read_stream(40, 16, &mut out).into_result();
    assert!(matches!(unknown, Err(FFIErrorKind::Io(message)) if message == "unknown stream"));
    let too_large = connection.lock().unwrap().read_stream(1 << 62, 16, &mut out).into_result();
    assert!(matches!(
        too_large,
        Err(FFIErrorKind::Io(message)) if message == "value too large for varint encoding"
    ));
    let too_large = connection.lock().unwrap().write_stream(u64::MAX, b"data", &mut out).into_result();
    assert!(too_large.is_err());
    assert!(out.is_empty());

    let accepted = server.connection.clone().unwrap();
    let nothing = accepted.lock().unwrap().accept_stream(0, &mut out);
    assert!(matches!(nothing, Err(FFIErrorKind::Io(message)) if message == "no stream to accept!"));
    assert!(out.is_empty());
}

#[test]
fn streams_can_be_exhausted() {
    let (client, _server) = connected_pair();
    let connection = client.connection.clone().unwrap();
    let mut opened = 0u64;
    let error = loop {
        match connection.lock().unwrap().open_stream(0) {
            Ok(stream) => {
                assert_eq!(stream, opened * 4);
                opened += 1;
                assert!(opened <= 1000);
            }
            Err(error) => break error,
        }
    };
    assert!(opened > 0);
    let mut slot = LastResult::new();
    let failed: Result<u64, FFIErrorKind> = Err(error);
    assert_eq!(FFIResult::from_result(&mut slot, failed).kind, FFIResultKind::Error);
    assert!(slot.error().unwrap().reason().contains("exhausted"));
}

#[test]
fn close_codes_are_below_two_to_the_62() {
    let (client, _server) = connected_pair();
    let connection = client.connection.clone().unwrap();
    let refused = connection.lock().unwrap().close(1 << 62, b"too large");
    assert!(matches!(
        refused,
        Err(FFIErrorKind::Io(message)) if message == "value too large for varint encoding"
    ));
    connection.lock().unwrap().close((1 << 62) - 1, b"largest").unwrap();
}

#[test]
fn routed_events_reach_the_connection() {
    let (mut client, mut server) = connected_pair();
    let handle = client.handle;
    let close = ConnectionEvent::Close { error_code: 77, reason: b"enough".to_vec() };
    client.endpoint.lock().unwrap().send_connection_event(handle, close).unwrap();
    client.endpoint.lock().unwrap().send_connection_event(handle, ConnectionEvent::Ping).unwrap();
    let missing = client.endpoint.lock().unwrap().send_connection_event(handle + 1, ConnectionEvent::Ping);
    assert!(matches!(missing, Err(FFIErrorKind::Protocol { code: 10, .. })));

    // One routed event is taken with every poll.
    let first = client.poll();
    assert_eq!(client.closes, vec![(77, b"enough".to_vec())]);
    let mut datagrams = first;
    datagrams.extend(client.poll());
    assert!(!datagrams.is_empty());
    let replies = server.receive(datagrams, client.address);
    assert!(!replies.is_empty());
    assert_eq!(client.closes.len(), 1);
}

#[test]
fn automatic_polling_needs_a_notifier() {
    let mut endpoint = EndpointImpl::client(client_config(), 3, true);
    let mut out = Vec::new();
    let address = IpAddr::new([127, 0, 0, 1], 4433);
    let failed = endpoint.connect_client(address, "localhost", &mut out);
    assert!(matches!(failed, Err(FFIErrorKind::Ffi)));
    let mut slot = LastResult::new();
    assert_eq!(FFIResult::from_result(&mut slot, failed).kind, FFIResultKind::Error);
    assert_eq!(slot.error().unwrap().reason(), "Error occurred in the FFI layer");
}

#[test]
fn connections_are_added_and_registered() {
    let mut endpoint = EndpointImpl::server(server_config(), 8, false);
    assert_eq!(endpoint.id(), 8);
    let (notifier, _woken) = std::sync::mpsc::channel();
    endpoint.set_poll_notifier(notifier);
    endpoint.set_default_client_config(client_config());
    let address = IpAddr::new([127, 0, 0, 1], 4433);
    let connection = endpoint.connect(address, "localhost").unwrap();
    let handle = connection.connection_handle();
    assert_eq!(connection.connection_id() as usize, handle);

    let mut out = Vec::new();
    let unregistered = endpoint.poll_connection(handle, &mut out);
    assert!(unregistered.is_err());
    endpoint.register_pollable_connection(handle, Arc::new(Mutex::new(connection)));
    endpoint.poll_connection(handle, &mut out).unwrap();
    assert_eq!(out.len(), 1);
    assert!(matches!(out[0], Callback::ConnectionPollable { connection } if connection as usize == handle));

    let other = endpoint.connect_with(client_config(), address, "localhost").unwrap();
    assert_ne!(other.connection_handle(), handle);
    let refused = endpoint.connect(IpAddr::new([127, 0, 0, 1], 0), "localhost");
    assert!(matches!(refused, Err(FFIErrorKind::Io(message)) if message.starts_with("invalid remote address")));
}

#[test]
fn a_busy_connection_is_not_polled() {
    let (client, _server) = connected_pair();
    let connection = client.connection.clone().unwrap();
    let held = connection.lock().unwrap();
    let mut out = Vec::new();
    client.endpoint.lock().unwrap().poll_connection(client.handle, &mut out).unwrap();
    assert!(out.is_empty());
    drop(held);
    client.endpoint.lock().unwrap().poll_connection(client.handle, &mut out).unwrap();
    assert_eq!(out.len(), 1);
}

#[test]
fn a_poll_reports_what_it_did() {
    let (mut client, mut server) = connected_pair();
    drive(&mut client, &mut server, 10);
    let connection = client.connection.clone().unwrap();
    let id = connection.lock().unwrap().connection_id();

    let mut out = Vec::new();
    connection.lock().unwrap().poll(&mut out).unwrap();
    let report = connection.lock().unwrap().last_poll();
    assert!(!report.routed);
    assert!(report.app_events < 160 && report.transmits < 160 && report.endpoint_events < 160);
    assert_eq!(report.needs_poll(), report.timer_fired);
    let asked = matches!(out.last(), Some(Callback::ConnectionPollable { connection }) if *connection == id);
    assert_eq!(asked, report.needs_poll());
    assert!(out.len() <= report.app_events + 2);
    client.dispatch(out);

    let stream = connection.lock().unwrap().open_stream(0).unwrap();
    let mut out = Vec::new();
    connection.lock().unwrap().write_stream(stream, b"report", &mut out).into_result().unwrap();
    let close = ConnectionEvent::Close { error_code: 3, reason: b"later".to_vec() };
    client.endpoint.lock().unwrap().send_connection_event(client.handle, close).unwrap();
    let mut out = Vec::new();
    connection.lock().unwrap().poll(&mut out).unwrap();
    let report = connection.lock().unwrap().last_poll();
    assert!(report.routed);
    assert!(report.transmits >= 1);
    assert!(matches!(
        out.first(),
        Some(Callback::ConnectionClose { connection, error_code: 3, reason })
            if *connection == id && reason == b"later"
    ));
    for callback in out.iter().skip(1) {
        assert!(!matches!(callback, Callback::ConnectionClose { .. }));
    }
}

#[test]
fn routed_events_are_handled_one_by_one() {
    let (client, _server) = connected_pair();
    let connection = client.connection.clone().unwrap();
    let id = connection.lock().unwrap().connection_id();
    let before = connection.lock().unwrap().last_poll();
    let mut out = Vec::new();
    connection.lock().unwrap().handle_connection_event(ConnectionEvent::Ping, &mut out);
    assert!(out.is_empty());
    let close = ConnectionEvent::Close { error_code: 9, reason: b"bye".to_vec() };
    connection.lock().unwrap().handle_connection_event(close, &mut out);
    assert_eq!(out.len(), 1);
    assert!(matches!(
        &out[0],
        Callback::ConnectionClose { connection, error_code: 9, reason }
            if *connection == id && reason == b"bye"
    ));
    assert_eq!(connection.lock().unwrap().last_poll(), before);
}

#[test]
fn a_new_connection_has_polled_nothing() {
    let mut endpoint = EndpointImpl::client(client_config(), 3, false);
    let address = IpAddr::new([127, 0, 0, 1], 4433);
    let connection = endpoint.connect(address, "localhost").unwrap();
    let nothing = PollReport {
        routed: false,
        timer_fired: false,
        endpoint_events: 0,
        app_events: 0,
        transmits: 0,
    };
    assert_eq!(PollReport::nothing(), nothing);
    assert_eq!(connection.last_poll(), nothing);
    assert!(!nothing.needs_poll());
    assert!(PollReport { timer_fired: true, ..nothing }.needs_poll());
    assert!(PollReport { app_events: 160, ..nothing }.needs_poll());
    assert!(PollReport { transmits: 160, ..nothing }.needs_poll());
    assert!(PollReport { endpoint_events: 160, ..nothing }.needs_poll());
    assert!(!PollReport {
        transmits: 159,
        endpoint_events: 159,
        app_events: 159,
        routed: true,
        ..nothing
    }
    .needs_poll());
}

#[test]
fn a_new_connection_is_announced_last() {
    let server_address = IpAddr::new([127, 0, 0, 1], 4433);
    let client_address = IpAddr::new([127, 0, 0, 1], 50000);
    let mut server = EndpointImpl::server(server_config(), 1, false);
    let mut client = EndpointImpl::client(client_config(), 2, false);
    let mut out = Vec::new();
    let (connection, _id) = client.connect_client(server_address, "localhost", &mut out).unwrap();
    let mut out = Vec::new();
    connection.lock().unwrap().poll(&mut out).unwrap();
    assert!(connection.lock().unwrap().last_poll().transmits >= 1);
    client.poll(&mut out).unwrap();
    let mut datagrams = Vec::new();
    for callback in out {
        if let Callback::Transmit { transmit, .. } = callback {
            datagrams.push(transmit.contents);
        }
    }
    let mut out = Vec::new();
    client.handle_datagram_event(None, &mut out).unwrap();
    assert!(out.is_empty());
    assert!(!datagrams.is_empty());
    let mut announced = 0;
    for datagram in datagrams {
        let mut out = Vec::new();
        server.handle_datagram(&datagram, client_address, &mut out).unwrap();
        let count = out.len();
        for (index, callback) in out.iter().enumerate() {
            match callback {
                Callback::NewConnection { connection, endpoint_id, handle } => {
                    assert_eq!(index, count - 1);
                    assert_eq!(*endpoint_id, 1);
                    assert_eq!(*connection as usize, handle.lock().unwrap().connection_handle());
                    announced += 1;
                }
                Callback::Transmit { endpoint, .. } => assert_eq!(*endpoint, 1),
                _ => {}
            }
        }
    }
    assert_eq!(announced, 1);
}

#[test]
fn a_write_marks_the_connection_once() {
    let (client, _server) = connected_pair();
    let connection = client.connection.clone().unwrap();
    let id = connection.lock().unwrap().connection_id();
    let stream = connection.lock().unwrap().open_stream(0).unwrap();
    let mut out = Vec::new();
    let written = connection.lock().unwrap().write_stream(stream, b"ping", &mut out);
    assert_eq!(written.count, 4);
    assert!(written.ended.is_ok());
    assert_eq!(out.len(), 1);
    assert!(matches!(out[0], Callback::ConnectionPollable { connection } if connection == id));

    let mut out = Vec::new();
    let refused = connection.lock().unwrap().write_stream(40, b"ping", &mut out);
    assert_eq!(refused.count, 0);
    assert!(refused.ended.is_err());
    assert!(out.is_empty());
}

#[test]
fn a_read_ends_as_its_chunk_says() {
    let (client, _server) = connected_pair();
    let connection = client.connection.clone().unwrap();
    let id = connection.lock().unwrap().connection_id();

    let mut out = Vec::new();
    let read: StreamRead =
        connection.lock().unwrap().finish_read(Ok(Some(b"chunk".to_vec())), true, &mut out);
    assert_eq!(read.bytes, b"chunk".to_vec());
    assert!(read.ended.is_ok());
    assert_eq!(out.len(), 1);
    assert!(matches!(out[0], Callback::ConnectionPollable { connection } if connection == id));

    let mut out = Vec::new();
    let read = connection.lock().unwrap().finish_read(Ok(Some(b"chunk".to_vec())), false, &mut out);
    assert_eq!(read.into_result().unwrap(), b"chunk".to_vec());
    assert!(out.is_empty());

    let read = connection.lock().unwrap().finish_read(Ok(None), false, &mut out);
    assert!(read.bytes.is_empty());
    assert!(read.ended.is_ok());
    assert!(out.is_empty());

    let blocked = FFIErrorKind::KindCode(FFIResultKind::BufferBlocked);
    let read = connection.lock().unwrap().finish_read(Err(blocked), true, &mut out);
    assert!(read.bytes.is_empty());
    assert!(matches!(read.ended, Err(FFIErrorKind::KindCode(FFIResultKind::BufferBlocked))));
    assert_eq!(out.len(), 1);
}

#[test]
fn every_queued_datagram_is_handed_out() {
    let mut server = EndpointImpl::server(server_config(), 1, false);
    let from = IpAddr::new([127, 0, 0, 1], 50000);
    // A long header with a version that the endpoint does not speak: the endpoint
    // queues a version negotiation for each.
    let mut out = Vec::new();
    for number in 0..200u8 {
        let mut datagram = vec![0xc0u8, 0x12, 0x34, 0x56, 0x78, 8];
        datagram.extend_from_slice(&[1; 8]);
        datagram.push(8);
        datagram.extend_from_slice(&[number; 8]);
        datagram.resize(1200, 0);
        server.handle_datagram(&datagram, from, &mut out).unwrap();
    }
    assert!(out.is_empty());
    let again = server.poll(&mut out).unwrap();
    assert!(!again);
    assert_eq!(out.len(), 200);
    assert_eq!(server.events_polled(), 0);
    // Each answer names the sender of the datagram that it answers.
    for (number, callback) in out.iter().enumerate() {
        match callback {
            Callback::Transmit { endpoint, transmit } => {
                assert_eq!(*endpoint, 1);
                assert_eq!(transmit.contents[5], 8);
                assert_eq!(transmit.contents[6..14], [number as u8; 8]);
            }
            _ => panic!("only datagrams are handed out"),
        }
    }
    let mut out = Vec::new();
    assert!(!server.poll(&mut out).unwrap());
    assert!(out.is_empty());
}

#[test]
fn a_write_ends_as_the_stream_says() {
    let (client, _server) = connected_pair();
    let connection = client.connection.clone().unwrap();
    let id = connection.lock().unwrap().connection_id();
    let mut out = Vec::new();
    let write = connection.lock().unwrap().finish_write(Ok(7), &mut out);
    assert_eq!(write.count, 7);
    assert!(write.ended.is_ok());
    assert_eq!(out.len(), 1);
    assert!(matches!(out[0], Callback::ConnectionPollable { connection } if connection == id));

    let mut out = Vec::new();
    let refused = FFIErrorKind::io_error("unable to accept further writes");
    let write = connection.lock().unwrap().finish_write(Err(refused), &mut out);
    assert_eq!(write.count, 0);
    assert!(matches!(
        write.into_result(),
        Err(FFIErrorKind::Io(message)) if message == "unable to accept further writes"
    ));
    assert!(out.is_empty());
}

#[test]
fn streams_are_opened_and_accepted_in_their_order() {
    let (mut client, mut server) = connected_pair();
    let connection = client.connection.clone().unwrap();
    assert_eq!(connection.lock().unwrap().open_stream(0).unwrap(), 0);
    assert_eq!(connection.lock().unwrap().open_stream(0).unwrap(), 4);
    assert_eq!(connection.lock().unwrap().open_stream(1).unwrap(), 2);
    assert_eq!(connection.lock().unwrap().open_stream(7).unwrap(), 6);
    let mut out = Vec::new();
    let nothing = connection.lock().unwrap().accept_stream(0, &mut out);
    assert!(matches!(nothing, Err(FFIErrorKind::Io(message)) if message == "no stream to accept!"));
    assert!(out.is_empty());
    drive(&mut client, &mut server, 2);
}
