//! What the host can be told. The binding layer keeps the table of the functions
//! that the host registered and calls the one that a [`Callback`] names.
use crate::proto_impl::connection::ConnectionImpl;
use crate::proto_impl::stream::{byte_of_dir, dir_of_stream};
use std::sync::{Arc, Mutex};
use vstd::prelude::*;

verus! {

/// One call of a function that the host registered, with its arguments.
pub enum Callback {
    /// A peer has started a connection to an endpoint of this process.
    NewConnection { handle: Arc<Mutex<ConnectionImpl>>, connection: u32, endpoint_id: u8 },
    /// The connection is established.
    Connected { connection: u32 },
    /// The connection was lost.
    ConnectionLost { connection: u32 },
    /// The connection was asked to close, with a code and a reason.
    ConnectionClose { connection: u32, error_code: u64, reason: Vec<u8> },
    /// The stream accepts data again.
    StreamWritable { connection: u32, stream_id: u64, dir: u8 },
    /// The stream has data or an error to read.
    StreamReadable { connection: u32, stream_id: u64, dir: u8 },
    /// The stream was finished and acknowledged, or stopped.
    StreamFinished { connection: u32, stream_id: u64, dir: u8 },
    /// The peer asked to stop sending on the stream.
    StreamStopped { connection: u32, stream_id: u64, dir: u8 },
    /// Streams of the direction can be opened again.
    StreamAvailable { connection: u32, dir: u8 },
    /// The peer has opened the stream.
    StreamOpened { connection: u32, stream_id: u64, dir: u8 },
    /// Application datagrams have arrived.
    DatagramReceived { connection: u32 },
    /// The connection has work to do: the host should poll it.
    ConnectionPollable { connection: u32 },
    /// The datagram must be sent on the socket of the endpoint.
    Transmit { endpoint: u8, transmit: quinn_proto::Transmit },
}

impl Callback {
    /// The connection that the callback is about, if it is about one.
    pub open spec fn connection(self) -> Option<u32> {
        match self {
            Callback::NewConnection { connection, .. } => Some(connection),
            Callback::Connected { connection } => Some(connection),
            Callback::ConnectionLost { connection } => Some(connection),
            Callback::ConnectionClose { connection, .. } => Some(connection),
            Callback::StreamWritable { connection, .. } => Some(connection),
            Callback::StreamReadable { connection, .. } => Some(connection),
            Callback::StreamFinished { connection, .. } => Some(connection),
            Callback::StreamStopped { connection, .. } => Some(connection),
            Callback::StreamAvailable { connection, .. } => Some(connection),
            Callback::StreamOpened { connection, .. } => Some(connection),
            Callback::DatagramReceived { connection } => Some(connection),
            Callback::ConnectionPollable { connection } => Some(connection),
            Callback::Transmit { .. } => None,
        }
    }

    /// Whether the callback names a stream together with the direction that is
    /// encoded in the stream's identifier.
    pub open spec fn stream_dir_agrees(self) -> bool {
        match self {
            Callback::StreamWritable { stream_id, dir, .. } => dir == byte_of_dir(
                dir_of_stream(stream_id),
            ),
            Callback::StreamReadable { stream_id, dir, .. } => dir == byte_of_dir(
                dir_of_stream(stream_id),
            ),
            Callback::StreamFinished { stream_id, dir, .. } => dir == byte_of_dir(
                dir_of_stream(stream_id),
            ),
            Callback::StreamStopped { stream_id, dir, .. } => dir == byte_of_dir(
                dir_of_stream(stream_id),
            ),
            Callback::StreamOpened { stream_id, dir, .. } => dir == byte_of_dir(
                dir_of_stream(stream_id),
            ),
            _ => true,
        }
    }

    /// Whether the callback is one that a connection raises for the application:
    /// an event of the connection `id` or of one of its streams.
    pub open spec fn raised_by(self, id: u32) -> bool {
        &&& self.connection() == Some(id)
        &&& self.stream_dir_agrees()
        &&& !(self is NewConnection)
    }

    /// Whether the callback tells the application of an event of a connection or of
    /// one of its streams.
    pub open spec fn for_application(self) -> bool {
        ||| self is Connected
        ||| self is ConnectionLost
        ||| self is DatagramReceived
        ||| self is StreamWritable
        ||| self is StreamReadable
        ||| self is StreamFinished
        ||| self is StreamStopped
        ||| self is StreamAvailable
        ||| self is StreamOpened
    }

    /// Whether the callback tells the application of an event of the connection `id`
    /// or of one of its streams.
    pub open spec fn applies_to(self, id: u32) -> bool {
        self.raised_by(id) && self.for_application()
    }

    /// Whether the callback hands out a datagram of the endpoint `id`.
    pub open spec fn transmit_of(self, id: u8) -> bool {
        self matches Callback::Transmit { endpoint, .. } && endpoint == id
    }

    /// Whether the callback can come from the endpoint `id`: a datagram of the
    /// endpoint, a new connection of the endpoint, or what one of its connections
    /// raises.
    pub open spec fn from_endpoint(self, id: u8) -> bool {
        match self {
            Callback::Transmit { endpoint, .. } => endpoint == id,
            Callback::NewConnection { endpoint_id, .. } => endpoint_id == id,
            _ => self.stream_dir_agrees(),
        }
    }
}

/// Whether `after` is `before` with callbacks added at its end, each of them
/// `allowed`.
pub open spec fn added_with(
    after: Seq<Callback>,
    before: Seq<Callback>,
    allowed: spec_fn(Callback) -> bool,
) -> bool {
    &&& before.is_prefix_of(after)
    &&& forall|i: int| before.len() <= i < after.len() ==> allowed(#[trigger] after[i])
}

/// Whether `after` is `before` with callbacks added at its end, each of them raised
/// by the connection `id`.
pub open spec fn raised_since(after: Seq<Callback>, before: Seq<Callback>, id: u32) -> bool {
    added_with(after, before, |callback: Callback| callback.raised_by(id))
}

/// Whether `after` is `before` with callbacks added at its end, each of them
/// telling the application of an event of the connection `id` or of one of its
/// streams.
pub open spec fn applied_since(after: Seq<Callback>, before: Seq<Callback>, id: u32) -> bool {
    added_with(after, before, |callback: Callback| callback.applies_to(id))
}

/// Whether `after` is `before` with callbacks added at its end, each of them a
/// datagram to transmit for the endpoint `id`.
pub open spec fn transmits_since(after: Seq<Callback>, before: Seq<Callback>, id: u8) -> bool {
    added_with(after, before, |callback: Callback| callback.transmit_of(id))
}

/// Whether `after` is `before` with callbacks added at its end, each of them one
/// that can come from the endpoint `id`.
pub open spec fn endpoint_raised_since(after: Seq<Callback>, before: Seq<Callback>, id: u8) -> bool {
    added_with(after, before, |callback: Callback| callback.from_endpoint(id))
}

/// Whether `after` is `before` with callbacks added at its end, each of them one
/// that can come from the endpoint `id`, and none of them the announcement of a
/// new connection.
pub open spec fn quiet_since(after: Seq<Callback>, before: Seq<Callback>, id: u8) -> bool {
    added_with(
        after,
        before,
        |callback: Callback| callback.from_endpoint(id) && !(callback is NewConnection),
    )
}

/// Callbacks that were added in two steps were added.
pub proof fn lemma_added_twice(
    first: Seq<Callback>,
    second: Seq<Callback>,
    third: Seq<Callback>,
    allowed: spec_fn(Callback) -> bool,
)
    requires
        added_with(second, first, allowed),
        added_with(third, second, allowed),
    ensures
        added_with(third, first, allowed),
{
    assert(first.is_prefix_of(third)) by {
        assert(first =~= second.subrange(0, first.len() as int));
        assert(second =~= third.subrange(0, second.len() as int));
        assert(first =~= third.subrange(0, first.len() as int));
    }
    assert forall|i: int| first.len() <= i < third.len() implies allowed(#[trigger] third[i]) by {
        if i < second.len() {
            assert(second =~= third.subrange(0, second.len() as int));
            assert(third[i] == second[i]);
        }
    }
}

/// Callbacks that are all `strong` are all `weak`, where `strong` implies `weak`.
pub proof fn lemma_added_weaker(
    after: Seq<Callback>,
    before: Seq<Callback>,
    strong: spec_fn(Callback) -> bool,
    weak: spec_fn(Callback) -> bool,
)
    requires
        added_with(after, before, strong),
        forall|callback: Callback| #[trigger] strong(callback) ==> weak(callback),
    ensures
        added_with(after, before, weak),
{
    assert forall|i: int| before.len() <= i < after.len() implies weak(#[trigger] after[i]) by {
        assert(strong(after[i]));
    }
}

/// Callbacks that were raised by a connection in two steps were raised by it.
pub proof fn lemma_raised_since_twice(
    first: Seq<Callback>,
    second: Seq<Callback>,
    third: Seq<Callback>,
    id: u32,
)
    requires
        raised_since(second, first, id),
        raised_since(third, second, id),
    ensures
        raised_since(third, first, id),
{
    lemma_added_twice(first, second, third, |callback: Callback| callback.raised_by(id));
}

/// What tells the application of an event of a connection is raised by that
/// connection.
pub proof fn lemma_applied_is_raised(after: Seq<Callback>, before: Seq<Callback>, id: u32)
    requires
        applied_since(after, before, id),
    ensures
        raised_since(after, before, id),
{
    lemma_added_weaker(
        after,
        before,
        |callback: Callback| callback.applies_to(id),
        |callback: Callback| callback.raised_by(id),
    );
}

/// Datagrams that were handed out in two steps were handed out.
pub proof fn lemma_transmits_since_twice(
    first: Seq<Callback>,
    second: Seq<Callback>,
    third: Seq<Callback>,
    id: u8,
)
    requires
        transmits_since(second, first, id),
        transmits_since(third, second, id),
    ensures
        transmits_since(third, first, id),
{
    lemma_added_twice(first, second, third, |callback: Callback| callback.transmit_of(id));
}

/// Callbacks that came from an endpoint in two steps, without the announcement of a
/// new connection, came from it without one.
pub proof fn lemma_quiet_since_twice(
    first: Seq<Callback>,
    second: Seq<Callback>,
    third: Seq<Callback>,
    id: u8,
)
    requires
        quiet_since(second, first, id),
        quiet_since(third, second, id),
    ensures
        quiet_since(third, first, id),
{
    lemma_added_twice(
        first,
        second,
        third,
        |callback: Callback| callback.from_endpoint(id) && !(callback is NewConnection),
    );
}

/// Datagrams of an endpoint announce no new connection.
pub proof fn lemma_transmits_are_quiet(after: Seq<Callback>, before: Seq<Callback>, id: u8)
    requires
        transmits_since(after, before, id),
    ensures
        quiet_since(after, before, id),
{
    lemma_added_weaker(
        after,
        before,
        |callback: Callback| callback.transmit_of(id),
        |callback: Callback| callback.from_endpoint(id) && !(callback is NewConnection),
    );
}

/// What a connection raises announces no new connection.
pub proof fn lemma_raised_is_quiet(
    after: Seq<Callback>,
    before: Seq<Callback>,
    connection: u32,
    id: u8,
)
    requires
        raised_since(after, before, connection),
    ensures
        quiet_since(after, before, id),
{
    lemma_added_weaker(
        after,
        before,
        |callback: Callback| callback.raised_by(connection),
        |callback: Callback| callback.from_endpoint(id) && !(callback is NewConnection),
    );
}

/// What comes from an endpoint without the announcement of a new connection comes
/// from the endpoint.
pub proof fn lemma_quiet_comes_from_endpoint(after: Seq<Callback>, before: Seq<Callback>, id: u8)
    requires
        quiet_since(after, before, id),
    ensures
        endpoint_raised_since(after, before, id),
{
    lemma_added_weaker(
        after,
        before,
        |callback: Callback| callback.from_endpoint(id) && !(callback is NewConnection),
        |callback: Callback| callback.from_endpoint(id),
    );
}

/// What a connection raises can come from any endpoint.
pub proof fn lemma_raised_comes_from_endpoint(
    after: Seq<Callback>,
    before: Seq<Callback>,
    connection: u32,
    id: u8,
)
    requires
        raised_since(after, before, connection),
    ensures
        endpoint_raised_since(after, before, id),
{
    lemma_added_weaker(
        after,
        before,
        |callback: Callback| callback.raised_by(connection),
        |callback: Callback| callback.from_endpoint(id),
    );
}

} // verus!
