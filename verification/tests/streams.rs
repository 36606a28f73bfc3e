use quinn_ffi::ffi::callbacks::Callback;
use quinn_ffi::ffi::ffi_result::FFIResultKind;
use quinn_ffi::proto::{AppEvent, StreamEvent};
use quinn_ffi::proto_impl::connection::{
    lifecycle_callback, read_failure, stream_callback, stream_dir_byte, timer_step,
};
use quinn_ffi::proto_impl::stream::{
    dir_from_u8, Dir, Side, StreamId, MAX_STREAM_ID, MAX_STREAM_INDEX,
};
use quinn_ffi::proto_impl::FFIErrorKind;
use std::time::{Duration, Instant};

#[test]
fn directions_have_their_bytes() {
    assert_eq!(dir_from_u8(0), Dir::Bi);
    assert_eq!(dir_from_u8(1), Dir::Uni);
    assert_eq!(dir_from_u8(2), Dir::Uni);
    assert_eq!(dir_from_u8(255), Dir::Uni);
    assert_eq!(Dir::Bi.to_u8(), 0);
    assert_eq!(Dir::Uni.to_u8(), 1);
    assert_eq!(dir_from_u8(Dir::Bi.to_u8()), Dir::Bi);
    assert_eq!(dir_from_u8(Dir::Uni.to_u8()), Dir::Uni);
    assert_eq!(Side::Client.peer(), Side::Server);
    assert_eq!(Side::Server.peer(), Side::Client);
}

#[test]
fn stream_ids_are_built_from_their_parts() {
    assert_eq!(StreamId::new(Side::Client, Dir::Bi, 0).to_u64(), 0);
    assert_eq!(StreamId::new(Side::Server, Dir::Bi, 0).to_u64(), 1);
    assert_eq!(StreamId::new(Side::Client, Dir::Uni, 0).to_u64(), 2);
    assert_eq!(StreamId::new(Side::Server, Dir::Uni, 0).to_u64(), 3);
    assert_eq!(StreamId::new(Side::Server, Dir::Uni, 5).to_u64(), 23);
    assert_eq!(StreamId::new(Side::Server, Dir::Uni, MAX_STREAM_INDEX).to_u64(), MAX_STREAM_ID);
    assert_eq!(
        StreamId::new(Side::Client, Dir::Bi, 7).to_u64(),
        quinn_proto::StreamId::new(quinn_proto::Side::Client, quinn_proto::Dir::Bi, 7).0
    );
}

#[test]
fn stream_ids_round_trip() {
    for id in [0u64, 1, 2, 3, 4, 23, 1 << 32, MAX_STREAM_ID - 1, MAX_STREAM_ID] {
        let stream = StreamId::from_u64(id).unwrap();
        assert_eq!(stream.to_u64(), id);
        let rebuilt = StreamId::new(stream.initiator(), stream.dir(), stream.index());
        assert_eq!(rebuilt, stream);
        assert_eq!(rebuilt.dir(), stream.dir());
        assert_eq!(rebuilt.to_u64(), id);
    }
    let stream = StreamId::from_u64(23).unwrap();
    assert_eq!(stream.dir(), Dir::Uni);
    assert_eq!(stream.initiator(), Side::Server);
    assert_eq!(stream.index(), 5);
}

#[test]
fn stream_ids_are_below_two_to_the_62() {
    assert!(StreamId::from_u64(MAX_STREAM_ID).is_ok());
    let refused = StreamId::from_u64(MAX_STREAM_ID + 1);
    assert!(matches!(
        refused,
        Err(FFIErrorKind::Io(message)) if message == "value too large for varint encoding"
    ));
    assert!(StreamId::from_u64(u64::MAX).is_err());
}

#[test]
fn streams_carry_their_direction() {
    assert_eq!(stream_dir_byte(0), 0);
    assert_eq!(stream_dir_byte(1), 0);
    assert_eq!(stream_dir_byte(2), 1);
    assert_eq!(stream_dir_byte(3), 1);
    assert_eq!(stream_dir_byte(4), 0);
    assert_eq!(stream_dir_byte(MAX_STREAM_ID), 1);
}

#[test]
fn connection_events_have_their_callbacks() {
    assert!(lifecycle_callback(9, AppEvent::HandshakeDataReady).is_none());
    assert!(matches!(
        lifecycle_callback(9, AppEvent::Connected),
        Some(Callback::Connected { connection: 9 })
    ));
    assert!(matches!(
        lifecycle_callback(9, AppEvent::ConnectionLost),
        Some(Callback::ConnectionLost { connection: 9 })
    ));
    assert!(matches!(
        lifecycle_callback(9, AppEvent::DatagramReceived),
        Some(Callback::DatagramReceived { connection: 9 })
    ));
    let stream = quinn_proto::StreamEvent::Readable { id: quinn_proto::StreamId(4) };
    assert!(lifecycle_callback(9, AppEvent::Stream(stream)).is_none());
}

#[test]
fn stream_events_have_their_callbacks() {
    assert!(matches!(
        stream_callback(3, StreamEvent::Writable { id: 6 }, None),
        Some(Callback::StreamWritable { connection: 3, stream_id: 6, dir: 1 })
    ));
    assert!(matches!(
        stream_callback(3, StreamEvent::Readable { id: 4 }, None),
        Some(Callback::StreamReadable { connection: 3, stream_id: 4, dir: 0 })
    ));
    assert!(matches!(
        stream_callback(3, StreamEvent::Finished { id: 7 }, None),
        Some(Callback::StreamFinished { connection: 3, stream_id: 7, dir: 1 })
    ));
    assert!(matches!(
        stream_callback(3, StreamEvent::Stopped { id: 8 }, None),
        Some(Callback::StreamStopped { connection: 3, stream_id: 8, dir: 0 })
    ));
    assert!(matches!(
        stream_callback(3, StreamEvent::Available { dir: 1 }, None),
        Some(Callback::StreamAvailable { connection: 3, dir: 1 })
    ));
    assert!(matches!(
        stream_callback(3, StreamEvent::Opened { dir: 0 }, Some(1)),
        Some(Callback::StreamOpened { connection: 3, stream_id: 1, dir: 0 })
    ));
    assert!(matches!(
        stream_callback(3, StreamEvent::Opened { dir: 1 }, Some(3)),
        Some(Callback::StreamOpened { connection: 3, stream_id: 3, dir: 1 })
    ));
    assert!(stream_callback(3, StreamEvent::Opened { dir: 0 }, None).is_none());
    assert!(matches!(
        stream_callback(3, StreamEvent::Opened { dir: 0 }, Some(2)),
        Some(Callback::StreamOpened { connection: 3, stream_id: 2, dir: 0 })
    ));
}

#[test]
fn timers_fire_when_their_deadline_has_passed() {
    let deadline = Instant::now() + Duration::from_secs(1);
    assert_eq!(timer_step(None, false), (None, false));
    assert_eq!(timer_step(None, true), (None, false));
    assert_eq!(timer_step(Some(deadline), true), (None, true));
    assert_eq!(timer_step(Some(deadline), false), (Some(deadline), false));
}

#[test]
fn blocked_reads_have_their_own_kind() {
    assert!(matches!(
        read_failure(true, "blocked".to_string()),
        FFIErrorKind::KindCode(FFIResultKind::BufferBlocked)
    ));
    assert!(matches!(
        read_failure(false, "reset by peer: code 7".to_string()),
        FFIErrorKind::Io(message) if message == "reset by peer: code 7"
    ));
}
