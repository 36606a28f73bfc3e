//! Stream identifiers and directions as they cross the boundary.
//!
//! A stream identifier is a 62-bit number: bit 0 says which side opened the stream,
//! bit 1 says whether it carries data one way or both ways, the rest counts the
//! streams of that kind. The host sees it as a 64-bit unsigned integer and a
//! direction byte.
use crate::proto::varint_from_u64;
use crate::proto_impl::result::FFIErrorKind;
use vstd::prelude::*;

verus! {

/// The largest number that the protocol's variable-length integers hold, 2^62 - 1.
pub const MAX_VARINT: u64 = 0x3FFF_FFFF_FFFF_FFFF;

/// The largest stream identifier, 2^62 - 1.
pub const MAX_STREAM_ID: u64 = 0x3FFF_FFFF_FFFF_FFFF;

/// The largest index of a stream among those of its kind, 2^60 - 1.
pub const MAX_STREAM_INDEX: u64 = 0x0FFF_FFFF_FFFF_FFFF;

/// Whether a stream carries data both ways or one way.
#[derive(Debug, Clone, Copy, PartialEq, Eq, Structural)]
pub enum Dir {
    /// Data flows in both directions.
    Bi,
    /// Data flows only from the side that opened the stream.
    Uni,
}

/// The two ends of a connection.
#[derive(Debug, Clone, Copy, PartialEq, Eq, Structural)]
pub enum Side {
    /// The end that started the connection.
    Client,
    /// The end that accepted the connection.
    Server,
}

/// The direction that a byte stands for: 0 is bidirectional, anything else is
/// unidirectional.
pub open spec fn dir_of_byte(dir: u8) -> Dir {
    if dir == 0 {
        Dir::Bi
    } else {
        Dir::Uni
    }
}

/// The byte that stands for a direction.
pub open spec fn byte_of_dir(dir: Dir) -> u8 {
    match dir {
        Dir::Bi => 0,
        Dir::Uni => 1,
    }
}

/// The bit that stands for a side.
pub open spec fn bit_of_side(side: Side) -> u64 {
    match side {
        Side::Client => 0,
        Side::Server => 1,
    }
}

/// The direction encoded in a stream identifier.
pub open spec fn dir_of_stream(id: u64) -> Dir {
    if id & 0x2 == 0 {
        Dir::Bi
    } else {
        Dir::Uni
    }
}

/// The side that opened the stream with this identifier.
pub open spec fn initiator_of_stream(id: u64) -> Side {
    if id & 0x1 == 0 {
        Side::Client
    } else {
        Side::Server
    }
}

/// The number of the stream among those of its initiator and direction.
pub open spec fn index_of_stream(id: u64) -> u64 {
    id >> 2
}

/// The identifier of the stream with the given initiator, direction and index.
pub open spec fn stream_id_of(initiator: Side, dir: Dir, index: u64) -> u64 {
    index << 2 | (byte_of_dir(dir) as u64) << 1 | bit_of_side(initiator)
}

/// Whether the connection end `side` may read from the stream `id`: every
/// bidirectional stream, and the unidirectional ones that the peer opened.
pub open spec fn readable_by(side: Side, id: u64) -> bool {
    dir_of_stream(id) == Dir::Bi || initiator_of_stream(id) != side
}

/// Whether the connection end `side` may write to the stream `id`: every
/// bidirectional stream, and the unidirectional ones that it opened itself.
pub open spec fn writable_by(side: Side, id: u64) -> bool {
    dir_of_stream(id) == Dir::Bi || initiator_of_stream(id) == side
}

/// The direction that a byte of the host stands for.
pub fn dir_from_u8(dir: u8) -> (decoded: Dir)
    ensures
        decoded == dir_of_byte(dir),
{
    if dir == 0 {
        Dir::Bi
    } else {
        Dir::Uni
    }
}

impl Dir {
    /// The byte that the host is given for this direction.
    pub fn to_u8(self) -> (byte: u8)
        ensures
            byte == byte_of_dir(self),
            dir_of_byte(byte) == self,
    {
        match self {
            Dir::Bi => 0,
            Dir::Uni => 1,
        }
    }
}

impl Side {
    /// The other end.
    pub fn peer(self) -> (other: Side)
        ensures
            other != self,
    {
        match self {
            Side::Client => Side::Server,
            Side::Server => Side::Client,
        }
    }
}

/// The identifier of a stream within a connection.
#[derive(Debug, Clone, Copy, PartialEq, Eq, Structural)]
pub struct StreamId {
    id: u64,
}

impl View for StreamId {
    type V = u64;

    closed spec fn view(&self) -> u64 {
        self.id
    }
}

impl StreamId {
    /// Every identifier fits in 62 bits.
    #[verifier::type_invariant]
    pub closed spec fn valid(self) -> bool {
        self.id <= MAX_STREAM_ID
    }

    /// The identifier of the stream with the given initiator, direction and index.
    pub fn new(initiator: Side, dir: Dir, index: u64) -> (stream: StreamId)
        requires
            index <= MAX_STREAM_INDEX,
        ensures
            stream@ == stream_id_of(initiator, dir, index),
            stream@ <= MAX_STREAM_ID,
    {
        let side_bit: u64 = match initiator {
            Side::Client => 0,
            Side::Server => 1,
        };
        let dir_bit: u64 = match dir {
            Dir::Bi => 0,
            Dir::Uni => 1,
        };
        assert(index << 2 | dir_bit << 1 | side_bit <= 0x3FFF_FFFF_FFFF_FFFFu64) by (bit_vector)
            requires
                index <= 0x0FFF_FFFF_FFFF_FFFFu64,
                dir_bit <= 1,
                side_bit <= 1,
        ;
        StreamId { id: index << 2 | dir_bit << 1 | side_bit }
    }

    /// Decodes the 64-bit number that the host uses for a stream. Numbers of 2^62
    /// and above stand for no stream.
    pub fn from_u64(id: u64) -> (decoded: Result<StreamId, FFIErrorKind>)
        ensures
            id <= MAX_STREAM_ID <==> decoded is Ok,
            decoded matches Ok(stream) ==> stream@ == id,
            decoded matches Err(error) ==> error is Io,
    {
        match varint_from_u64(id) {
            Ok(value) => Ok(StreamId { id: value }),
            Err(error) => Err(FFIErrorKind::from_display(&error)),
        }
    }

    /// The 64-bit number that the host uses for this stream.
    pub fn to_u64(self) -> (id: u64)
        ensures
            id == self@,
            id <= MAX_STREAM_ID,
    {
        proof {
            use_type_invariant(self);
        }
        self.id
    }

    /// Whether the stream carries data one way or both ways.
    pub fn dir(self) -> (dir: Dir)
        ensures
            dir == dir_of_stream(self@),
    {
        if self.id & 0x2 == 0 {
            Dir::Bi
        } else {
            Dir::Uni
        }
    }

    /// The side that opened the stream.
    pub fn initiator(self) -> (side: Side)
        ensures
            side == initiator_of_stream(self@),
    {
        if self.id & 0x1 == 0 {
            Side::Client
        } else {
            Side::Server
        }
    }

    /// The number of the stream among those of its initiator and direction.
    pub fn index(self) -> (index: u64)
        ensures
            index == index_of_stream(self@),
    {
        self.id >> 2
    }
}

/// Encoding a stream identifier for the host and decoding it again gives the same
/// identifier: same number, same direction, same initiator, same index.
pub proof fn lemma_stream_id_round_trip(id: u64)
    requires
        id <= MAX_STREAM_ID,
    ensures
        stream_id_of(initiator_of_stream(id), dir_of_stream(id), index_of_stream(id)) == id,
        index_of_stream(id) <= MAX_STREAM_INDEX,
{
    assert((id >> 2) << 2 | (if id & 0x2 == 0 {
        0u64
    } else {
        1u64
    }) << 1 | (if id & 0x1 == 0 {
        0u64
    } else {
        1u64
    }) == id) by (bit_vector);
    assert(id >> 2 <= 0x0FFF_FFFF_FFFF_FFFFu64) by (bit_vector)
        requires
            id <= 0x3FFF_FFFF_FFFF_FFFFu64,
    ;
}

/// The identifier built from an initiator, a direction and an index gives them
/// back, and fits in 62 bits.
pub proof fn lemma_stream_id_parts(initiator: Side, dir: Dir, index: u64)
    requires
        index <= MAX_STREAM_INDEX,
    ensures
        stream_id_of(initiator, dir, index) <= MAX_STREAM_ID,
        initiator_of_stream(stream_id_of(initiator, dir, index)) == initiator,
        dir_of_stream(stream_id_of(initiator, dir, index)) == dir,
        index_of_stream(stream_id_of(initiator, dir, index)) == index,
        dir_of_byte(byte_of_dir(dir)) == dir,
{
    let d: u64 = byte_of_dir(dir) as u64;
    let s: u64 = bit_of_side(initiator);
    assert((index << 2 | d << 1 | s) <= 0x3FFF_FFFF_FFFF_FFFFu64 && ((index << 2 | d << 1 | s)
        & 0x1 == 0 <==> s == 0) && ((index << 2 | d << 1 | s) & 0x2 == 0 <==> d == 0) && (index
        << 2 | d << 1 | s) >> 2 == index) by (bit_vector)
        requires
            index <= 0x0FFF_FFFF_FFFF_FFFFu64,
            d <= 1,
            s <= 1,
    ;
}

} // verus!
