//! A connection: the protocol connection, the channels that tie it to its endpoint,
//! and the steps of one poll.
use crate::ffi::callbacks::{
    applied_since, lemma_applied_is_raised, lemma_raised_since_twice, raised_since, Callback,
};
use crate::ffi::ffi_result::{reported, FFIResultKind};
use crate::proto::{
    connection_accept, connection_close, connection_handle_event, connection_handle_timeout,
    connection_open, connection_ping, connection_poll, connection_poll_endpoint_events,
    connection_poll_timeout, connection_poll_transmit, connection_read, connection_side,
    connection_accepts, connection_opens, connection_reads, connection_write, connection_writes,
    endpoint_notice, is_blocked, side_of, stream_event, varint_from_u64, AppEvent, ReadAttempt,
    Reading, StreamEvent,
};
use crate::proto_impl::endpoint::{EndpointEvent, IO_LOOP_BOUND};
use crate::proto_impl::result::{reason_of, ErrorView, FFIErrorKind};
use crate::proto_impl::stream::{
    byte_of_dir, dir_from_u8, dir_of_byte, dir_of_stream, initiator_of_stream, readable_by,
    writable_by, Dir, Side, StreamId, MAX_STREAM_ID, MAX_VARINT,
};
use crate::sync::is_later;
use quinn_proto::ConnectionEvent as ProtoConnectionEvent;
use std::sync::mpsc::{Receiver, Sender};
use std::time::Instant;
use vstd::prelude::*;

verus! {

/// What an endpoint or the host sends to a connection.
pub enum ConnectionEvent {
    /// The connection should close.
    Close { error_code: u64, reason: Vec<u8> },
    /// An event for the protocol connection.
    Proto(ProtoConnectionEvent),
    /// The connection should ping its peer.
    Ping,
}

/// A QUIC connection.
pub struct ConnectionImpl {
    inner: quinn_proto::Connection,
    connection_handle: usize,
    auto_poll: bool,
    connection_events: Receiver<ConnectionEvent>,
    endpoint_events: Sender<(usize, EndpointEvent)>,
    timer_deadline: Option<Instant>,
    endpoint_poll_notifier: Option<Sender<u8>>,
    polled: PollReport,
}

/// What a poll of a connection did, step by step.
#[derive(Debug, Clone, Copy, PartialEq, Eq, Structural)]
pub struct PollReport {
    /// Whether an event that was routed to the connection was taken.
    pub routed: bool,
    /// Whether the timer had expired and was handled.
    pub timer_fired: bool,
    /// The number of events that were forwarded to the protocol endpoint.
    pub endpoint_events: usize,
    /// The number of events of the protocol connection that were handled for the
    /// application.
    pub app_events: usize,
    /// The number of datagrams that were forwarded to the endpoint.
    pub transmits: usize,
}

impl PollReport {
    /// Whether the poll left work behind, so that another poll is asked for: the
    /// timer was handled, or the events for the endpoint, the events for the
    /// application or the datagrams reached the bound of one poll.
    pub open spec fn asks_again(self) -> bool {
        ||| self.timer_fired
        ||| self.endpoint_events == IO_LOOP_BOUND
        ||| self.app_events == IO_LOOP_BOUND
        ||| self.transmits == IO_LOOP_BOUND
    }

    /// Whether every step stayed within the bound of one poll.
    pub open spec fn bounded(self) -> bool {
        &&& self.endpoint_events <= IO_LOOP_BOUND
        &&& self.app_events <= IO_LOOP_BOUND
        &&& self.transmits <= IO_LOOP_BOUND
    }

    /// The report of a poll that found nothing to do.
    pub open spec fn spec_nothing() -> PollReport {
        PollReport { routed: false, timer_fired: false, endpoint_events: 0, app_events: 0, transmits: 0 }
    }

    /// The report of a poll that found nothing to do.
    #[verifier::when_used_as_spec(spec_nothing)]
    pub fn nothing() -> (report: PollReport)
        ensures
            report == PollReport::spec_nothing(),
    {
        PollReport { routed: false, timer_fired: false, endpoint_events: 0, app_events: 0, transmits: 0 }
    }

    /// Whether the poll left work behind, so that another poll is asked for.
    pub fn needs_poll(&self) -> (again: bool)
        ensures
            again == self.asks_again(),
    {
        self.timer_fired || self.endpoint_events == IO_LOOP_BOUND || self.app_events
            == IO_LOOP_BOUND || self.transmits == IO_LOOP_BOUND
    }
}

/// The callbacks after an event that was routed to the connection `id` has been
/// taken: a request to close is passed on to the host, every other event raises
/// nothing.
pub open spec fn routed_of(out: Seq<Callback>, id: u32, event: ConnectionEvent) -> Seq<Callback> {
    match event {
        ConnectionEvent::Close { error_code, reason } => out.push(
            Callback::ConnectionClose { connection: id, error_code, reason },
        ),
        _ => out,
    }
}

/// Whether `after` is `before`, or `before` with one callback at its end that
/// passes a request to close the connection `id` on to the host.
pub open spec fn close_added(after: Seq<Callback>, before: Seq<Callback>, id: u32) -> bool {
    after == before || (after.len() == before.len() + 1 && before.is_prefix_of(after)
        && after.last() is ConnectionClose && after.last().raised_by(id))
}

/// Whether `after` is `before` with what one poll of the connection `id` raises, in
/// the order of its steps: first the request to close, if one was routed to the
/// connection; then what the events of the protocol connection tell the
/// application, one callback for an event at most; last the request for another
/// poll, if and only if `asked`.
pub open spec fn poll_raised(
    after: Seq<Callback>,
    before: Seq<Callback>,
    id: u32,
    report: PollReport,
    asked: bool,
) -> bool {
    &&& before.is_prefix_of(after)
    &&& after.len() <= before.len() + report.app_events + 2
    &&& forall|i: int|
        before.len() <= i < after.len() ==> {
            &&& (#[trigger] after[i]).raised_by(id)
            &&& after[i] is ConnectionClose ==> i == before.len() && report.routed
            &&& after[i] is ConnectionPollable ==> i == after.len() - 1 && asked
            &&& after[i].for_application() || after[i] is ConnectionClose
                || after[i] is ConnectionPollable
        }
    &&& asked ==> after.len() > before.len() && after.last() == (Callback::ConnectionPollable {
        connection: id,
    })
}

/// The steps of a poll, put together.
pub proof fn lemma_poll_raised(
    before: Seq<Callback>,
    routed: Seq<Callback>,
    raised: Seq<Callback>,
    after: Seq<Callback>,
    id: u32,
    report: PollReport,
    asked: bool,
)
    requires
        close_added(routed, before, id),
        routed != before ==> report.routed,
        applied_since(raised, routed, id),
        raised.len() <= routed.len() + report.app_events,
        asked ==> after == raised.push(Callback::ConnectionPollable { connection: id }),
        !asked ==> after == raised,
    ensures
        poll_raised(after, before, id, report, asked),
{
    assert(routed =~= before || routed =~= before.push(routed.last())) by {
        if routed != before {
            assert(before =~= routed.subrange(0, before.len() as int));
        }
    }
    assert(routed =~= raised.subrange(0, routed.len() as int));
    assert(before.is_prefix_of(after)) by {
        assert(before =~= routed.subrange(0, before.len() as int));
        assert(before =~= after.subrange(0, before.len() as int));
    }
    assert forall|i: int| before.len() <= i < after.len() implies {
        &&& (#[trigger] after[i]).raised_by(id)
        &&& after[i] is ConnectionClose ==> i == before.len() && report.routed
        &&& after[i] is ConnectionPollable ==> i == after.len() - 1 && asked
        &&& after[i].for_application() || after[i] is ConnectionClose
            || after[i] is ConnectionPollable
    } by {
        if i < routed.len() {
            assert(after[i] == raised[i]);
            assert(raised[i] == routed[i]);
            assert(routed[i] == routed.last());
        } else if i < raised.len() {
            assert(after[i] == raised[i]);
            assert(raised[i].applies_to(id));
        } else {
            assert(asked);
            assert(after[i] == Callback::ConnectionPollable { connection: id });
        }
    }
}

/// The number that the host knows a connection by: the low 32 bits of its handle.
pub open spec fn connection_id_of(handle: usize) -> u32 {
    (handle as u64 & 0xFFFF_FFFF) as u32
}

/// What becomes of the timer of a connection: the deadline to keep, and whether the
/// expired timers are handled now. A deadline that has passed is handled and
/// forgotten; one that lies ahead is kept.
pub open spec fn timer_step_of(deadline: Option<Instant>, expired: bool) -> (Option<Instant>, bool) {
    match deadline {
        None => (None, false),
        Some(time) => if expired {
            (None, true)
        } else {
            (Some(time), false)
        },
    }
}

/// The callback for an event of a connection itself; none for what is not passed
/// on, and none for stream events, which [`stream_callback_of`] covers.
pub open spec fn lifecycle_callback_of(connection: u32, event: AppEvent) -> Option<Callback> {
    match event {
        AppEvent::HandshakeDataReady => None,
        AppEvent::Connected => Some(Callback::Connected { connection }),
        AppEvent::ConnectionLost => Some(Callback::ConnectionLost { connection }),
        AppEvent::DatagramReceived => Some(Callback::DatagramReceived { connection }),
        AppEvent::Stream(_) => None,
    }
}

/// The callback for an event of a stream. `accepted` is the stream that was
/// accepted after the peer opened streams, if there was one to accept.
pub open spec fn stream_callback_of(connection: u32, event: StreamEvent, accepted: Option<u64>) -> Option<
    Callback,
> {
    match event {
        StreamEvent::Writable { id } => Some(
            Callback::StreamWritable {
                connection,
                stream_id: id,
                dir: byte_of_dir(dir_of_stream(id)),
            },
        ),
        StreamEvent::Opened { dir } => match accepted {
            Some(id) => Some(
                Callback::StreamOpened {
                    connection,
                    stream_id: id,
                    dir: byte_of_dir(dir_of_byte(dir)),
                },
            ),
            None => None,
        },
        StreamEvent::Readable { id } => Some(
            Callback::StreamReadable {
                connection,
                stream_id: id,
                dir: byte_of_dir(dir_of_stream(id)),
            },
        ),
        StreamEvent::Available { dir } => Some(
            Callback::StreamAvailable { connection, dir: byte_of_dir(dir_of_byte(dir)) },
        ),
        StreamEvent::Finished { id } => Some(
            Callback::StreamFinished {
                connection,
                stream_id: id,
                dir: byte_of_dir(dir_of_stream(id)),
            },
        ),
        StreamEvent::Stopped { id } => Some(
            Callback::StreamStopped {
                connection,
                stream_id: id,
                dir: byte_of_dir(dir_of_stream(id)),
            },
        ),
    }
}

/// What a read from a stream gave.
pub struct StreamRead {
    /// The bytes that were read, for the host.
    pub bytes: Vec<u8>,
    /// How the read ended.
    pub ended: Result<(), FFIErrorKind>,
}

/// What a write to a stream gave.
pub struct StreamWrite {
    /// The number of bytes that the stream accepted.
    pub count: usize,
    /// How the write ended.
    pub ended: Result<(), FFIErrorKind>,
}

impl StreamRead {
    /// The bytes that were read, if the read ended well.
    pub fn into_result(self) -> (result: Result<Vec<u8>, FFIErrorKind>)
        ensures
            result == (match self.ended {
                Ok(_) => Ok::<Vec<u8>, FFIErrorKind>(self.bytes),
                Err(error) => Err(error),
            }),
    {
        match self.ended {
            Ok(_) => Ok(self.bytes),
            Err(error) => Err(error),
        }
    }
}

impl StreamWrite {
    /// The number of bytes that were accepted, if the write ended well.
    pub fn into_result(self) -> (result: Result<usize, FFIErrorKind>)
        ensures
            result == (match self.ended {
                Ok(_) => Ok::<usize, FFIErrorKind>(self.count),
                Err(error) => Err(error),
            }),
    {
        match self.ended {
            Ok(_) => Ok(self.count),
            Err(error) => Err(error),
        }
    }
}

/// The bytes that a chunk holds for the host: none at the end of the stream, and
/// none after a failure.
pub open spec fn bytes_of(chunk: Result<Option<Vec<u8>>, FFIErrorKind>) -> Seq<u8> {
    match chunk {
        Ok(Some(bytes)) => bytes@,
        _ => Seq::empty(),
    }
}

/// How a read ends of which the protocol connection has given `chunk`.
pub open spec fn ended_of(chunk: Result<Option<Vec<u8>>, FFIErrorKind>) -> Result<
    (),
    FFIErrorKind,
> {
    match chunk {
        Ok(_) => Ok(()),
        Err(error) => Err(error),
    }
}

/// The callbacks after the connection `id` has been marked pollable, if it has
/// been, where the host polls: the host is told that the connection is pollable.
pub open spec fn marked_of(out: Seq<Callback>, id: u32, marked: bool) -> Seq<Callback> {
    if marked {
        out.push(Callback::ConnectionPollable { connection: id })
    } else {
        out
    }
}

/// The error for a read that failed: a read that is only blocked is reported by its
/// own result kind, every other failure by its message.
pub open spec fn read_failure_of(blocked: bool, message: Seq<char>) -> ErrorView {
    if blocked {
        ErrorView::KindCode(FFIResultKind::BufferBlocked)
    } else {
        ErrorView::Io(message)
    }
}

/// Whether `id` can be the stream that the connection end `side` is given when it
/// accepts a stream of the direction `dir`: a stream of that direction that the
/// peer opened.
pub open spec fn accepted_by(side: Side, dir: u8, id: u64) -> bool {
    &&& id <= MAX_STREAM_ID
    &&& dir_of_stream(id) == dir_of_byte(dir)
    &&& initiator_of_stream(id) != side
}

/// Whether `id` can be the stream that the connection end `side` is given when it
/// opens a stream of the direction `dir`: a stream of that direction that it opened
/// itself.
pub open spec fn opened_by(side: Side, dir: u8, id: u64) -> bool {
    &&& id <= MAX_STREAM_ID
    &&& dir_of_stream(id) == dir_of_byte(dir)
    &&& initiator_of_stream(id) == side
}

/// The error for a stream that cannot be opened because no more streams of its
/// direction are allowed now.
pub open spec fn exhausted_error() -> ErrorView {
    ErrorView::Io("streams exhausted in direction"@)
}

/// The direction byte of a stream, computed from its identifier.
pub fn stream_dir_byte(id: u64) -> (dir: u8)
    ensures
        dir == byte_of_dir(dir_of_stream(id)),
{
    if id & 0x2 == 0 {
        0
    } else {
        1
    }
}

/// Decides what becomes of the timer of a connection, given the deadline that the
/// protocol connection asked for and whether that deadline has passed.
pub fn timer_step(deadline: Option<Instant>, expired: bool) -> (step: (Option<Instant>, bool))
    ensures
        step == timer_step_of(deadline, expired),
{
    match deadline {
        None => (None, false),
        Some(time) => if expired {
            (None, true)
        } else {
            (Some(time), false)
        },
    }
}

/// The callback that tells the host of an event of the connection itself.
pub fn lifecycle_callback(connection: u32, event: AppEvent) -> (callback: Option<Callback>)
    ensures
        callback == lifecycle_callback_of(connection, event),
        callback matches Some(raised) ==> raised.applies_to(connection),
{
    match event {
        AppEvent::HandshakeDataReady => None,
        AppEvent::Connected => Some(Callback::Connected { connection }),
        AppEvent::ConnectionLost => Some(Callback::ConnectionLost { connection }),
        AppEvent::DatagramReceived => Some(Callback::DatagramReceived { connection }),
        AppEvent::Stream(_) => None,
    }
}

/// The callback that tells the host of an event of a stream.
pub fn stream_callback(connection: u32, event: StreamEvent, accepted: Option<u64>) -> (callback:
    Option<Callback>)
    ensures
        callback == stream_callback_of(connection, event, accepted),
        (event matches StreamEvent::Opened { dir } ==> (accepted matches Some(id)
            ==> dir_of_stream(id) == dir_of_byte(dir))) ==> (callback matches Some(raised)
            ==> raised.applies_to(connection)),
{
    match event {
        StreamEvent::Writable { id } => Some(
            Callback::StreamWritable { connection, stream_id: id, dir: stream_dir_byte(id) },
        ),
        StreamEvent::Opened { dir } => match accepted {
            Some(id) => Some(
                Callback::StreamOpened { connection, stream_id: id, dir: dir_from_u8(dir).to_u8() },
            ),
            None => None,
        },
        StreamEvent::Readable { id } => Some(
            Callback::StreamReadable { connection, stream_id: id, dir: stream_dir_byte(id) },
        ),
        StreamEvent::Available { dir } => Some(
            Callback::StreamAvailable { connection, dir: dir_from_u8(dir).to_u8() },
        ),
        StreamEvent::Finished { id } => Some(
            Callback::StreamFinished { connection, stream_id: id, dir: stream_dir_byte(id) },
        ),
        StreamEvent::Stopped { id } => Some(
            Callback::StreamStopped { connection, stream_id: id, dir: stream_dir_byte(id) },
        ),
    }
}

/// The error that a failed read is reported with.
pub fn read_failure(blocked: bool, message: String) -> (error: FFIErrorKind)
    ensures
        error@ == read_failure_of(blocked, message@),
{
    if blocked {
        FFIErrorKind::KindCode(FFIResultKind::BufferBlocked)
    } else {
        FFIErrorKind::Io(message)
    }
}

impl ConnectionImpl {
    /// The handle that the protocol endpoint gave the connection.
    pub closed spec fn handle(&self) -> usize {
        self.connection_handle
    }

    /// The end of the connection that this process is: the end that the protocol
    /// connection is.
    pub closed spec fn side(&self) -> Side {
        side_of(self.inner)
    }

    /// The stream that the protocol connection opens next in the given direction;
    /// `None` where it may open no stream of that direction now.
    pub closed spec fn next_opened(&self, dir: Dir) -> Option<u64> {
        connection_opens(self.inner, dir)
    }

    /// The stream that the protocol connection accepts next in the given direction;
    /// `None` where the peer has opened none that was not accepted yet.
    pub closed spec fn next_accepted(&self, dir: Dir) -> Option<u64> {
        connection_accepts(self.inner, dir)
    }

    /// What the protocol connection gives to the next read of at most `max_length`
    /// bytes from the stream `id`.
    pub closed spec fn next_read(&self, id: u64, max_length: usize) -> Reading {
        connection_reads(self.inner, id, max_length)
    }

    /// The number of bytes of `data` that the stream `id` accepts with the next
    /// write; `None` where the write fails.
    pub closed spec fn next_written(&self, id: u64, data: Seq<u8>) -> Option<usize> {
        connection_writes(self.inner, id, data)
    }

    /// Whether the runtime polls the connection itself, or leaves it to the host.
    pub closed spec fn auto_poll(&self) -> bool {
        self.auto_poll
    }

    /// The deadline of the timer that is waited for, if any.
    pub closed spec fn deadline(&self) -> Option<Instant> {
        self.timer_deadline
    }

    /// What the last poll of the connection did.
    pub closed spec fn report(&self) -> PollReport {
        self.polled
    }

    /// The number that the host knows the connection by.
    pub open spec fn id(&self) -> u32 {
        connection_id_of(self.handle())
    }

    /// The channel on which the connection sends what it has for its endpoint.
    pub closed spec fn inbox(&self) -> Sender<(usize, EndpointEvent)> {
        self.endpoint_events
    }

    /// The channel on which the connection wakes the poller of its endpoint, if it
    /// has one.
    pub closed spec fn notifier(&self) -> Option<Sender<u8>> {
        self.endpoint_poll_notifier
    }

    /// Whether this is the connection `other` at another moment: same handle, same
    /// side, same mode of polling, and the same channels to the endpoint and to its
    /// poller.
    pub open spec fn same_connection(&self, other: &ConnectionImpl) -> bool {
        &&& self.handle() == other.handle()
        &&& self.side() == other.side()
        &&& self.auto_poll() == other.auto_poll()
        &&& self.inbox() == other.inbox()
        &&& self.notifier() == other.notifier()
    }

    /// Whether `error` is one that the work of the connection can end with: an I/O
    /// error, or the error of the binding layer where the connection is to wake a
    /// poller and has no notifier for it.
    pub open spec fn can_fail_with(&self, error: ErrorView) -> bool {
        error is Io || (error is Ffi && self.auto_poll() && !self.has_notifier())
    }

    /// Wraps a protocol connection. `recv` brings the events that the endpoint
    /// routes to the connection, `endpoint_events_tx` takes what the connection has
    /// for the endpoint. With `auto_poll` the connection polls itself whenever it is
    /// marked pollable and wakes the endpoint's poller through
    /// `endpoint_poll_notifier`.
    pub fn new(
        inner: quinn_proto::Connection,
        handle: usize,
        recv: Receiver<ConnectionEvent>,
        endpoint_events_tx: Sender<(usize, EndpointEvent)>,
        endpoint_poll_notifier: Option<Sender<u8>>,
        auto_poll: bool,
    ) -> (connection: ConnectionImpl)
        ensures
            connection.handle() == handle,
            connection.side() == side_of(inner),
            connection.auto_poll() == auto_poll,
            connection.inbox() == endpoint_events_tx,
            connection.notifier() == endpoint_poll_notifier,
            connection.deadline() is None,
            connection.report() == PollReport::nothing(),
    {
        ConnectionImpl {
            inner,
            connection_handle: handle,
            auto_poll,
            connection_events: recv,
            endpoint_events: endpoint_events_tx,
            timer_deadline: None,
            endpoint_poll_notifier,
            polled: PollReport::nothing(),
        }
    }

    /// What the last poll of the connection did.
    pub fn last_poll(&self) -> (report: PollReport)
        ensures
            report == self.report(),
    {
        self.polled
    }

    /// The handle that the protocol endpoint gave the connection.
    pub fn connection_handle(&self) -> (handle: usize)
        ensures
            handle == self.handle(),
    {
        self.connection_handle
    }

    /// The number that the host knows the connection by.
    pub fn connection_id(&self) -> (id: u32)
        ensures
            id == self.id(),
    {
        let wide: u64 = self.connection_handle as u64;
        let low: u64 = wide & 0xFFFF_FFFF;
        assert(low <= 0xFFFF_FFFF) by (bit_vector)
            requires
                low == wide & 0xFFFF_FFFF,
        ;
        low as u32
    }

    /// Whether the connection can wake the poller of its endpoint.
    pub open spec fn has_notifier(&self) -> bool {
        self.notifier() is Some
    }

    /// Wakes the poller of the endpoint. Without a notifier this fails with
    /// [`FFIErrorKind::Ffi`]; with one it fails only where the poller is gone, and
    /// then with an I/O error.
    fn notify_endpoint(&self) -> (notified: Result<(), FFIErrorKind>)
        ensures
            !self.has_notifier() ==> (notified matches Err(error) && error@ == ErrorView::Ffi),
            self.has_notifier() ==> (notified matches Err(error) ==> error is Io),
    {
        match &self.endpoint_poll_notifier {
            Some(notifier) => match notifier.send(0) {
                Ok(_) => Ok(()),
                Err(error) => Err(FFIErrorKind::from_display(&error)),
            },
            None => Err(FFIErrorKind::Ffi),
        }
    }

    /// Sends an event to the endpoint and, where the runtime polls by itself, wakes
    /// the poller of the endpoint. Where the runtime polls by itself and the
    /// connection has no notifier, the call fails with [`FFIErrorKind::Ffi`] and
    /// nothing is sent; every other failure is an I/O error.
    fn forward(&self, event: EndpointEvent) -> (forwarded: Result<(), FFIErrorKind>)
        ensures
            forwarded matches Err(error) ==> self.can_fail_with(error@),
            self.auto_poll() && !self.has_notifier() ==> (forwarded matches Err(error) && error@
                == ErrorView::Ffi),
            !(self.auto_poll() && !self.has_notifier()) ==> (forwarded matches Err(error)
                ==> error is Io),
    {
        if self.auto_poll && self.endpoint_poll_notifier.is_none() {
            return Err(FFIErrorKind::Ffi);
        }
        match self.endpoint_events.send((self.connection_handle, event)) {
            Ok(_) => {},
            Err(error) => {
                return Err(FFIErrorKind::from_display(&error));
            },
        }
        if self.auto_poll {
            self.notify_endpoint()
        } else {
            Ok(())
        }
    }

    /// Asks for another poll of the connection: the host is told that the
    /// connection is pollable, or, where the runtime polls by itself, the poller of
    /// the endpoint is woken.
    fn request_poll(&self, out: &mut Vec<Callback>) -> (requested: Result<(), FFIErrorKind>)
        ensures
            !self.auto_poll() ==> requested is Ok && final(out)@ == old(out)@.push(
                Callback::ConnectionPollable { connection: self.id() },
            ),
            self.auto_poll() ==> final(out)@ == old(out)@,
            self.auto_poll() && !self.has_notifier() ==> (requested matches Err(error) && error@
                == ErrorView::Ffi),
            raised_since(final(out)@, old(out)@, self.id()),
            requested matches Err(error) ==> self.can_fail_with(error@),
    {
        if self.auto_poll {
            self.notify_endpoint()
        } else {
            out.push(Callback::ConnectionPollable { connection: self.connection_id() });
            Ok(())
        }
    }

    /// Polls the connection.
    ///
    /// 1. Takes at most one event that was routed to the connection.
    /// 2. Handles the timer.
    /// 3. Forwards the events for the endpoint.
    /// 4. Raises the callbacks for the application.
    /// 5. Forwards the datagrams to transmit.
    ///
    /// What each step did is kept as the report of the poll. The callbacks are
    /// raised in the order of the steps. Where the poll left work behind and did
    /// not fail, another poll is asked for: the host is told as the last callback
    /// that the connection is pollable, or, where the runtime polls by itself, the
    /// poller of the endpoint is woken.
    pub fn poll(&mut self, out: &mut Vec<Callback>) -> (polled: Result<(), FFIErrorKind>)
        ensures
            final(self).same_connection(old(self)),
            final(self).report().bounded(),
            raised_since(final(out)@, old(out)@, old(self).id()),
            final(out)@.len() <= old(out)@.len() + IO_LOOP_BOUND + 2,
            poll_raised(
                final(out)@,
                old(out)@,
                old(self).id(),
                final(self).report(),
                !old(self).auto_poll() && polled is Ok && final(self).report().asks_again(),
            ),
            polled matches Err(error) ==> old(self).can_fail_with(error@),
            old(self).auto_poll() && !old(self).has_notifier() ==> final(self).report().transmits
                == 0 && final(self).report().endpoint_events == 0,
    {
        let ghost id = self.id();
        let ghost before = out@;
        self.polled = PollReport::nothing();
        let _ = self.handle_connection_events(out);
        let ghost routed = out@;
        let _ = self.handle_timer();
        let _ = self.handle_endpoint_events();
        let _ = self.handle_app_events(out);
        let ghost raised = out@;
        proof {
            lemma_applied_is_raised(raised, routed, id);
            lemma_raised_since_twice(before, routed, raised, id);
        }
        match self.handle_transmits() {
            Ok(_) => {},
            Err(error) => {
                proof {
                    lemma_poll_raised(before, routed, raised, out@, id, self.report(), false);
                }
                return Err(error);
            },
        }
        if self.polled.needs_poll() {
            let requested = self.request_poll(out);
            proof {
                lemma_raised_since_twice(before, raised, out@, id);
                lemma_poll_raised(
                    before,
                    routed,
                    raised,
                    out@,
                    id,
                    self.report(),
                    !self.auto_poll(),
                );
            }
            requested
        } else {
            proof {
                lemma_poll_raised(before, routed, raised, out@, id, self.report(), false);
            }
            Ok(())
        }
    }

    /// Marks the connection as pollable, which is due after every I/O operation and
    /// when a timer has expired. Where the host polls, it is told that the
    /// connection is pollable and nothing else happens; where the runtime polls by
    /// itself, the connection is polled and the poller of the endpoint is woken,
    /// which fails where the connection has no notifier.
    pub fn mark_pollable(&mut self, out: &mut Vec<Callback>) -> (marked: Result<(), FFIErrorKind>)
        ensures
            final(self).same_connection(old(self)),
            raised_since(final(out)@, old(out)@, old(self).id()),
            final(out)@.len() <= old(out)@.len() + IO_LOOP_BOUND + 2,
            marked matches Err(error) ==> old(self).can_fail_with(error@),
            old(self).auto_poll() && !old(self).has_notifier() ==> marked is Err,
            old(self).auto_poll() ==> final(self).report().bounded() && poll_raised(
                final(out)@,
                old(out)@,
                old(self).id(),
                final(self).report(),
                false,
            ),
            !old(self).auto_poll() ==> marked is Ok && final(out)@ == old(out)@.push(
                Callback::ConnectionPollable { connection: old(self).id() },
            ) && final(self).deadline() == old(self).deadline(),
    {
        if self.auto_poll {
            match self.poll(out) {
                Ok(_) => self.notify_endpoint(),
                Err(error) => Err(error),
            }
        } else {
            self.request_poll(out)
        }
    }

    /// Closes the connection at once, with a code below 2^62 and a reason for the
    /// peer. A code that does not fit is refused and nothing is closed.
    pub fn close(&mut self, error_code: u64, reason: &[u8]) -> (closed: Result<(), FFIErrorKind>)
        ensures
            final(self).same_connection(old(self)),
            final(self).deadline() == old(self).deadline(),
            error_code <= MAX_VARINT <==> closed is Ok,
            closed matches Err(error) ==> error is Io,
    {
        match varint_from_u64(error_code) {
            Ok(code) => {
                connection_close(&mut self.inner, Instant::now(), code, reason);
                Ok(())
            },
            Err(error) => Err(FFIErrorKind::from_display(&error)),
        }
    }

    /// Handles the timer: asks the protocol connection for its next deadline and,
    /// if that has passed, lets it process its timers. The result says whether it
    /// did, in which case the deadline is forgotten; a deadline that lies ahead is
    /// kept. The report of the poll takes the result.
    fn handle_timer(&mut self) -> (fired: bool)
        ensures
            final(self).same_connection(old(self)),
            final(self).report() == (PollReport { timer_fired: fired, ..old(self).report() }),
            exists|deadline: Option<Instant>, expired: bool|
                (final(self).deadline(), fired) == #[trigger] timer_step_of(deadline, expired),
    {
        let deadline = connection_poll_timeout(&mut self.inner);
        let expired = match &deadline {
            Some(time) => is_later(&Instant::now(), time),
            None => false,
        };
        let (kept, fired) = timer_step(deadline, expired);
        if fired {
            connection_handle_timeout(&mut self.inner, Instant::now());
        }
        self.timer_deadline = kept;
        self.polled.timer_fired = fired;
        fired
    }

    /// Forwards the datagrams that the protocol connection wants sent to the
    /// endpoint, at most [`IO_LOOP_BOUND`] of them. The report of the poll takes
    /// their number. The result says whether the bound was reached, so that
    /// datagrams may be left. Where the runtime polls by itself and the connection
    /// has no notifier, no datagram can be forwarded.
    fn handle_transmits(&mut self) -> (more: Result<bool, FFIErrorKind>)
        ensures
            final(self).same_connection(old(self)),
            final(self).deadline() == old(self).deadline(),
            final(self).report() == (PollReport {
                transmits: final(self).report().transmits,
                ..old(self).report()
            }),
            final(self).report().transmits <= IO_LOOP_BOUND,
            more matches Ok(reached) ==> reached == (final(self).report().transmits
                == IO_LOOP_BOUND),
            more matches Err(error) ==> old(self).can_fail_with(error@),
            old(self).auto_poll() && !old(self).has_notifier() ==> final(self).report().transmits
                == 0,
    {
        let mut forwarded: usize = 0;
        self.polled.transmits = 0;
        while forwarded < IO_LOOP_BOUND
            invariant
                forwarded <= IO_LOOP_BOUND,
                self.same_connection(old(self)),
                self.deadline() == old(self).deadline(),
                self.report() == (PollReport { transmits: forwarded, ..old(self).report() }),
                old(self).auto_poll() && !old(self).has_notifier() ==> forwarded == 0,
            decreases IO_LOOP_BOUND - forwarded,
        {
            match connection_poll_transmit(&mut self.inner, Instant::now()) {
                Some(transmit) => match self.forward(EndpointEvent::Transmit(transmit)) {
                    Ok(_) => {},
                    Err(error) => {
                        return Err(error);
                    },
                },
                None => {
                    return Ok(false);
                },
            }
            forwarded = forwarded + 1;
            self.polled.transmits = forwarded;
        }
        Ok(true)
    }

    /// Forwards the events that the protocol connection has for the protocol
    /// endpoint, at most [`IO_LOOP_BOUND`] of them. The report of the poll takes
    /// their number. The result says whether the bound was reached, so that events
    /// may be left. Where the runtime polls by itself and the connection has no
    /// notifier, no event can be forwarded.
    fn handle_endpoint_events(&mut self) -> (more: Result<bool, FFIErrorKind>)
        ensures
            final(self).same_connection(old(self)),
            final(self).deadline() == old(self).deadline(),
            final(self).report() == (PollReport {
                endpoint_events: final(self).report().endpoint_events,
                ..old(self).report()
            }),
            final(self).report().endpoint_events <= IO_LOOP_BOUND,
            more matches Ok(reached) ==> reached == (final(self).report().endpoint_events
                == IO_LOOP_BOUND),
            more matches Err(error) ==> old(self).can_fail_with(error@),
            old(self).auto_poll() && !old(self).has_notifier() ==> final(self).report().endpoint_events
                == 0,
    {
        let mut forwarded: usize = 0;
        self.polled.endpoint_events = 0;
        while forwarded < IO_LOOP_BOUND
            invariant
                forwarded <= IO_LOOP_BOUND,
                self.same_connection(old(self)),
                self.deadline() == old(self).deadline(),
                self.report() == (PollReport { endpoint_events: forwarded, ..old(self).report() }),
                old(self).auto_poll() && !old(self).has_notifier() ==> forwarded == 0,
            decreases IO_LOOP_BOUND - forwarded,
        {
            match connection_poll_endpoint_events(&mut self.inner) {
                Some(event) => match self.forward(EndpointEvent::Proto(endpoint_notice(event))) {
                    Ok(_) => {},
                    Err(error) => {
                        return Err(error);
                    },
                },
                None => {
                    return Ok(false);
                },
            }
            forwarded = forwarded + 1;
            self.polled.endpoint_events = forwarded;
        }
        Ok(true)
    }

    /// Handles an event that was routed to the connection. A request to close is
    /// passed on to the host, an event of the protocol goes to the protocol
    /// connection, and a ping is sent.
    pub fn handle_connection_event(&mut self, event: ConnectionEvent, out: &mut Vec<Callback>)
        ensures
            final(self).same_connection(old(self)),
            final(self).deadline() == old(self).deadline(),
            final(self).report() == old(self).report(),
            final(out)@ == routed_of(old(out)@, old(self).id(), event),
    {
        match event {
            ConnectionEvent::Close { error_code, reason } => {
                out.push(
                    Callback::ConnectionClose {
                        connection: self.connection_id(),
                        error_code,
                        reason,
                    },
                );
            },
            ConnectionEvent::Proto(event) => {
                connection_handle_event(&mut self.inner, event);
            },
            ConnectionEvent::Ping => {
                connection_ping(&mut self.inner);
            },
        }
    }

    /// Takes at most one event that was routed to the connection and handles it as
    /// [`ConnectionImpl::handle_connection_event`] does. Fails with an I/O error
    /// where no event is waiting; nothing is raised then. The report of the poll
    /// takes whether an event was taken.
    fn handle_connection_events(&mut self, out: &mut Vec<Callback>) -> (handled: Result<
        (),
        FFIErrorKind,
    >)
        ensures
            final(self).same_connection(old(self)),
            final(self).deadline() == old(self).deadline(),
            final(self).report() == (PollReport { routed: handled is Ok, ..old(self).report() }),
            handled is Ok ==> exists|event: ConnectionEvent|
                final(out)@ == #[trigger] routed_of(old(out)@, old(self).id(), event),
            handled matches Err(error) ==> error is Io && final(out)@ == old(out)@,
            close_added(final(out)@, old(out)@, old(self).id()),
            raised_since(final(out)@, old(out)@, old(self).id()),
    {
        let event = match self.connection_events.try_recv() {
            Ok(event) => event,
            Err(error) => {
                self.polled.routed = false;
                return Err(FFIErrorKind::from_display(&error));
            },
        };
        self.polled.routed = true;
        let ghost taken = event;
        self.handle_connection_event(event, out);
        assert(out@ == routed_of(old(out)@, old(self).id(), taken));
        Ok(())
    }

    /// Accepts the next stream of the given direction that the peer has opened, and
    /// marks the connection pollable.
    ///
    /// - Where the peer has opened none that was not accepted yet, the call fails
    ///   with the reason "no stream to accept!" and nothing is raised.
    /// - An identifier of 2^62 or above, which no stream has, is refused with
    ///   [`FFIErrorKind::Ffi`], and nothing is raised.
    /// - Otherwise the connection is marked pollable, and the stream is returned
    ///   unless the marking fails, which it cannot where the host polls. The stream
    ///   was opened by the peer in that direction, so this end may read from it.
    pub fn accept_stream(&mut self, dir: u8, out: &mut Vec<Callback>) -> (accepted: Result<
        u64,
        FFIErrorKind,
    >)
        ensures
            final(self).same_connection(old(self)),
            raised_since(final(out)@, old(out)@, old(self).id()),
            accepted matches Ok(id) ==> accepted_by(old(self).side(), dir, id),
            accepted matches Err(error) ==> old(self).can_fail_with(error@) || error is Ffi,
            match old(self).next_accepted(dir_of_byte(dir)) {
                None => {
                    &&& accepted matches Err(error) && error@ == ErrorView::Io(
                        "no stream to accept!"@,
                    )
                    &&& final(out)@ == old(out)@
                },
                Some(id) => if id > MAX_STREAM_ID {
                    &&& accepted matches Err(error) && error@ == ErrorView::Ffi
                    &&& final(out)@ == old(out)@
                } else {
                    &&& !old(self).auto_poll() ==> accepted == Ok::<u64, FFIErrorKind>(id)
                        && final(out)@ == old(out)@.push(
                        Callback::ConnectionPollable { connection: old(self).id() },
                    )
                    &&& old(self).auto_poll() ==> {
                        &&& accepted is Ok ==> accepted == Ok::<u64, FFIErrorKind>(id)
                        &&& !old(self).has_notifier() ==> accepted is Err
                        &&& final(self).report().bounded()
                        &&& poll_raised(
                            final(out)@,
                            old(out)@,
                            old(self).id(),
                            final(self).report(),
                            false,
                        )
                    }
                },
            },
    {
        match connection_accept(&mut self.inner, dir_from_u8(dir)) {
            Some(id) => if id > MAX_STREAM_ID {
                Err(FFIErrorKind::Ffi)
            } else {
                match self.mark_pollable(out) {
                    Ok(_) => Ok(id),
                    Err(error) => Err(error),
                }
            },
            None => Err(FFIErrorKind::io_error("no stream to accept!")),
        }
    }

    /// Opens a stream of the given direction.
    ///
    /// - Where the protocol connection may open no stream of the direction now, the
    ///   call fails, and the reason says that the streams are exhausted.
    /// - An identifier of 2^62 or above, which no stream has, is refused with
    ///   [`FFIErrorKind::Ffi`].
    /// - Otherwise the stream is returned. It is opened by this end, so this end
    ///   may write to it.
    pub fn open_stream(&mut self, dir: u8) -> (opened: Result<u64, FFIErrorKind>)
        ensures
            final(self).same_connection(old(self)),
            final(self).deadline() == old(self).deadline(),
            final(self).report() == old(self).report(),
            match old(self).next_opened(dir_of_byte(dir)) {
                None => opened matches Err(error) && error@ == exhausted_error(),
                Some(id) => if id > MAX_STREAM_ID {
                    opened matches Err(error) && error@ == ErrorView::Ffi
                } else {
                    opened == Ok::<u64, FFIErrorKind>(id)
                },
            },
            opened matches Ok(id) ==> opened_by(old(self).side(), dir, id),
    {
        match connection_open(&mut self.inner, dir_from_u8(dir)) {
            Some(id) => if id > MAX_STREAM_ID {
                Err(FFIErrorKind::Ffi)
            } else {
                Ok(id)
            },
            None => Err(FFIErrorKind::io_error("streams exhausted in direction")),
        }
    }

    /// Ends a read for which the protocol connection has given `chunk`, and has
    /// said whether it has something to transmit because of the read. The bytes of
    /// the chunk are for the host; there are none at the end of the stream and
    /// after a failure. The connection is marked pollable if and only if it has
    /// something to transmit. The read ends as the chunk says, unless the marking
    /// fails, which it cannot where the host polls.
    pub fn finish_read(
        &mut self,
        chunk: Result<Option<Vec<u8>>, FFIErrorKind>,
        should_transmit: bool,
        out: &mut Vec<Callback>,
    ) -> (read: StreamRead)
        ensures
            final(self).same_connection(old(self)),
            raised_since(final(out)@, old(out)@, old(self).id()),
            read.bytes@ == bytes_of(chunk),
            !should_transmit ==> final(out)@ == old(out)@ && read.ended == ended_of(chunk),
            !old(self).auto_poll() ==> final(out)@ == marked_of(
                old(out)@,
                old(self).id(),
                should_transmit,
            ) && read.ended == ended_of(chunk),
            read.ended == ended_of(chunk) || (should_transmit && old(self).auto_poll() && (
            read.ended matches Err(error) && old(self).can_fail_with(error@))),
            should_transmit && old(self).auto_poll() && !old(self).has_notifier() ==> read.ended
                is Err,
    {
        let marked = if should_transmit {
            self.mark_pollable(out)
        } else {
            Ok(())
        };
        let (bytes, ended) = match chunk {
            Ok(Some(bytes)) => (bytes, Ok(())),
            Ok(None) => (Vec::new(), Ok(())),
            Err(error) => (Vec::new(), Err(error)),
        };
        match marked {
            Ok(_) => StreamRead { bytes, ended },
            Err(error) => StreamRead { bytes, ended: Err(error) },
        }
    }

    /// Reads one chunk of at most `buf_len` bytes from a stream. At the end of the
    /// stream the chunk is empty. A read that finds no data fails with the kind
    /// `BufferBlocked`. An identifier of 2^62 or above and a stream that this end
    /// cannot read from are refused before the protocol connection is asked. What
    /// the protocol connection answers is handled as
    /// [`ConnectionImpl::finish_read`] does it: the host gets the bytes that the
    /// protocol connection gives, and the connection is marked pollable if and only
    /// if it has something to transmit because of the read.
    pub fn read_stream(&mut self, stream_id: u64, buf_len: usize, out: &mut Vec<Callback>) -> (read:
        StreamRead)
        ensures
            final(self).same_connection(old(self)),
            raised_since(final(out)@, old(out)@, old(self).id()),
            read.bytes@.len() <= buf_len,
            read.ended is Err ==> read.bytes@.len() == 0 || old(self).auto_poll(),
            read.ended is Ok ==> stream_id <= MAX_STREAM_ID && readable_by(
                old(self).side(),
                stream_id,
            ),
            read.ended matches Err(error) ==> old(self).can_fail_with(error@) || error@
                == ErrorView::KindCode(FFIResultKind::BufferBlocked),
            stream_id > MAX_STREAM_ID ==> (read.ended matches Err(error) && error is Io
                && read.bytes@.len() == 0 && final(out)@ == old(out)@),
            stream_id <= MAX_STREAM_ID && !readable_by(old(self).side(), stream_id) ==> (
            read.ended matches Err(error) && error@ == ErrorView::Io(
                "stream cannot be read from at this end"@,
            ) && read.bytes@.len() == 0 && final(out)@ == old(out)@),
            !old(self).auto_poll() ==> exists|should_transmit: bool|
                final(out)@ == #[trigger] marked_of(old(out)@, old(self).id(), should_transmit),
            stream_id <= MAX_STREAM_ID && readable_by(old(self).side(), stream_id) ==> match old(
                self,
            ).next_read(stream_id, buf_len) {
                Reading::Unreadable => {
                    &&& read.ended matches Err(error) && error is Io
                    &&& read.bytes@.len() == 0
                    &&& final(out)@ == old(out)@
                },
                Reading::Read { chunk, should_transmit } => {
                    &&& read.bytes@ == match chunk {
                        Some(Some(bytes)) => bytes,
                        _ => Seq::<u8>::empty(),
                    }
                    &&& chunk is None ==> read.ended is Err
                    &&& !should_transmit ==> final(out)@ == old(out)@
                    &&& !should_transmit || !old(self).auto_poll() ==> (read.ended is Ok
                        <==> chunk is Some)
                    &&& !old(self).auto_poll() ==> final(out)@ == marked_of(
                        old(out)@,
                        old(self).id(),
                        should_transmit,
                    )
                },
            },
    {
        let id = match StreamId::from_u64(stream_id) {
            Ok(id) => id,
            Err(error) => {
                assert(out@ == marked_of(old(out)@, old(self).id(), false));
                return StreamRead { bytes: Vec::new(), ended: Err(error) };
            },
        };
        let side = connection_side(&self.inner);
        if !(id.dir() == Dir::Bi || id.initiator() != side) {
            assert(out@ == marked_of(old(out)@, old(self).id(), false));
            return StreamRead {
                bytes: Vec::new(),
                ended: Err(FFIErrorKind::io_error("stream cannot be read from at this end")),
            };
        }
        match connection_read(&mut self.inner, id.to_u64(), buf_len) {
            ReadAttempt::Unreadable(error) => {
                let ended = Err(FFIErrorKind::from_display(&error));
                assert(out@ == marked_of(old(out)@, old(self).id(), false));
                StreamRead { bytes: Vec::new(), ended }
            },
            ReadAttempt::Read { chunk, should_transmit } => {
                let chunk = match chunk {
                    Ok(chunk) => Ok(chunk),
                    Err(error) => Err(read_failure(is_blocked(&error), error.to_string())),
                };
                let read = self.finish_read(chunk, should_transmit, out);
                assert(!old(self).auto_poll() ==> out@ == marked_of(
                    old(out)@,
                    old(self).id(),
                    should_transmit,
                ));
                read
            },
        }
    }

    /// Ends a write of which the protocol connection has said how many bytes the
    /// stream accepted, or why it accepted none. After a failure nothing is raised,
    /// and the write ends with that failure. After a success the host gets the
    /// number, and the connection is marked pollable; the write ends well unless
    /// the marking fails, which it cannot where the host polls.
    pub fn finish_write(&mut self, written: Result<usize, FFIErrorKind>, out: &mut Vec<Callback>) -> (
    write: StreamWrite)
        ensures
            final(self).same_connection(old(self)),
            raised_since(final(out)@, old(out)@, old(self).id()),
            match written {
                Err(error) => {
                    &&& write.count == 0
                    &&& write.ended == Err::<(), FFIErrorKind>(error)
                    &&& final(out)@ == old(out)@
                    &&& final(self).report() == old(self).report()
                    &&& final(self).deadline() == old(self).deadline()
                },
                Ok(count) => {
                    &&& write.count == count
                    &&& write.ended matches Err(error) ==> old(self).can_fail_with(error@)
                    &&& !old(self).auto_poll() ==> write.ended is Ok && final(out)@ == old(
                        out,
                    )@.push(Callback::ConnectionPollable { connection: old(self).id() })
                    &&& old(self).auto_poll() ==> {
                        &&& !old(self).has_notifier() ==> write.ended is Err
                        &&& final(self).report().bounded()
                        &&& poll_raised(
                            final(out)@,
                            old(out)@,
                            old(self).id(),
                            final(self).report(),
                            false,
                        )
                    }
                },
            },
    {
        match written {
            Ok(count) => StreamWrite { count, ended: self.mark_pollable(out) },
            Err(error) => StreamWrite { count: 0, ended: Err(error) },
        }
    }

    /// Writes `data` to a stream and, if the stream accepted it, marks the
    /// connection pollable. The host gets the number of bytes that the stream
    /// accepted. An identifier of 2^62 or above and a stream that this end cannot
    /// write to are refused before the protocol connection is asked. What the
    /// protocol connection answers is handled as [`ConnectionImpl::finish_write`]
    /// does it: where the host polls, it is told that the connection is pollable if
    /// and only if the write succeeded.
    pub fn write_stream(&mut self, stream_id: u64, data: &[u8], out: &mut Vec<Callback>) -> (written:
        StreamWrite)
        ensures
            final(self).same_connection(old(self)),
            raised_since(final(out)@, old(out)@, old(self).id()),
            written.count <= data@.len(),
            written.ended is Err ==> written.count == 0 || old(self).auto_poll(),
            written.ended is Ok ==> stream_id <= MAX_STREAM_ID && writable_by(
                old(self).side(),
                stream_id,
            ),
            written.ended matches Err(error) ==> old(self).can_fail_with(error@),
            stream_id > MAX_STREAM_ID ==> (written.ended matches Err(error) && error is Io
                && written.count == 0 && final(out)@ == old(out)@),
            stream_id <= MAX_STREAM_ID && !writable_by(old(self).side(), stream_id) ==> (
            written.ended matches Err(error) && error@ == ErrorView::Io(
                "stream cannot be written to at this end"@,
            ) && written.count == 0 && final(out)@ == old(out)@),
            !old(self).auto_poll() ==> final(out)@ == marked_of(
                old(out)@,
                old(self).id(),
                written.ended is Ok,
            ),
            old(self).auto_poll() && !old(self).has_notifier() ==> written.ended is Err,
            stream_id <= MAX_STREAM_ID && writable_by(old(self).side(), stream_id) ==> match old(
                self,
            ).next_written(stream_id, data@) {
                None => {
                    &&& written.ended matches Err(error) && error is Io
                    &&& written.count == 0
                    &&& final(out)@ == old(out)@
                },
                Some(count) => {
                    &&& written.count == count
                    &&& !old(self).auto_poll() ==> written.ended is Ok
                },
            },
    {
        let id = match StreamId::from_u64(stream_id) {
            Ok(id) => id,
            Err(error) => {
                return StreamWrite { count: 0, ended: Err(error) };
            },
        };
        let side = connection_side(&self.inner);
        if !(id.dir() == Dir::Bi || id.initiator() == side) {
            return StreamWrite {
                count: 0,
                ended: Err(FFIErrorKind::io_error("stream cannot be written to at this end")),
            };
        }
        let written = match connection_write(&mut self.inner, id.to_u64(), data) {
            Ok(count) => Ok(count),
            Err(error) => Err(FFIErrorKind::from_display(&error)),
        };
        self.finish_write(written, out)
    }

    /// Hands every event that the protocol connection has for the application to
    /// the host, as the callback of [`lifecycle_callback_of`] or
    /// [`stream_callback_of`]. When the peer has opened streams, the next one is
    /// accepted and announced. At most [`IO_LOOP_BOUND`] events are handled. The
    /// report of the poll takes their number, and no more callbacks are raised than
    /// that. The result says whether the bound was reached, so that events may be
    /// left.
    fn handle_app_events(&mut self, out: &mut Vec<Callback>) -> (more: bool)
        ensures
            final(self).same_connection(old(self)),
            final(self).deadline() == old(self).deadline(),
            final(self).report() == (PollReport {
                app_events: final(self).report().app_events,
                ..old(self).report()
            }),
            final(self).report().app_events <= IO_LOOP_BOUND,
            more == (final(self).report().app_events == IO_LOOP_BOUND),
            applied_since(final(out)@, old(out)@, old(self).id()),
            final(out)@.len() <= old(out)@.len() + final(self).report().app_events,
    {
        let id = self.connection_id();
        let ghost before = out@;
        let mut handled: usize = 0;
        self.polled.app_events = 0;
        while handled < IO_LOOP_BOUND
            invariant
                handled <= IO_LOOP_BOUND,
                out@.len() <= before.len() + handled,
                self.same_connection(old(self)),
                self.deadline() == old(self).deadline(),
                self.report() == (PollReport { app_events: handled, ..old(self).report() }),
                id == old(self).id(),
                before == old(out)@,
                applied_since(out@, before, id),
            decreases IO_LOOP_BOUND - handled,
        {
            let callback = match connection_poll(&mut self.inner) {
                None => {
                    return false;
                },
                Some(AppEvent::Stream(event)) => {
                    let event = stream_event(event);
                    let accepted = match event {
                        StreamEvent::Opened { dir } => connection_accept(
                            &mut self.inner,
                            dir_from_u8(dir),
                        ),
                        _ => None,
                    };
                    stream_callback(id, event, accepted)
                },
                Some(event) => lifecycle_callback(id, event),
            };
            match callback {
                Some(callback) => {
                    out.push(callback);
                },
                None => {},
            }
            handled = handled + 1;
            self.polled.app_events = handled;
        }
        true
    }
}

/// A stream that was accepted passes the checks that reading makes before it asks
/// the protocol connection; it passes those of writing if and only if it is
/// bidirectional.
pub proof fn lemma_accepted_stream_is_usable(side: Side, dir: u8, id: u64)
    requires
        accepted_by(side, dir, id),
    ensures
        id <= MAX_STREAM_ID,
        readable_by(side, id),
        writable_by(side, id) <==> dir == 0,
{
}

/// A stream that was opened passes the checks that writing makes before it asks
/// the protocol connection; it passes those of reading if and only if it is
/// bidirectional.
pub proof fn lemma_opened_stream_is_usable(side: Side, dir: u8, id: u64)
    requires
        opened_by(side, dir, id),
    ensures
        id <= MAX_STREAM_ID,
        writable_by(side, id),
        readable_by(side, id) <==> dir == 0,
{
}

/// A read that finds no data is reported to the host as `BufferBlocked`, and the
/// last error stays as it is.
pub proof fn lemma_blocked_read_is_reported(slot: Option<ErrorView>, message: Seq<char>)
    ensures
        reported(slot, Some(read_failure_of(true, message))) == (
            FFIResultKind::BufferBlocked,
            slot,
        ),
{
}

/// Streams that are exhausted are reported to the host as `Error`, and the reason
/// that is recorded has the word "exhausted" in it.
pub proof fn lemma_exhausted_streams_are_reported(slot: Option<ErrorView>)
    ensures
        reported(slot, Some(exhausted_error())) == (FFIResultKind::Error, Some(exhausted_error())),
        reason_of(exhausted_error()).subrange(8, 17) == "exhausted"@,
{
    reveal_strlit("streams exhausted in direction");
    reveal_strlit("exhausted");
    assert(reason_of(exhausted_error()).subrange(8, 17) =~= "exhausted"@);
}

} // verus!
