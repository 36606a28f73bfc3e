use quinn_ffi::ffi::ffi_result::{last_error, FFIResult, FFIResultKind, LastResult};
use quinn_ffi::ffi::null::{check_arguments, Argument};
use quinn_ffi::ffi::IsNull;
use quinn_ffi::proto_impl::endpoint::unknown_connection;
use quinn_ffi::proto_impl::{FFIErrorKind, IpAddr};

fn reason_of(slot: &LastResult) -> Option<String> {
    slot.error().map(|error| error.reason())
}

#[test]
fn constructors_give_their_kind() {
    assert_eq!(FFIResult::new(FFIResultKind::BufferBlocked).kind, FFIResultKind::BufferBlocked);
    assert_eq!(FFIResult::ok().kind, FFIResultKind::Success);
    assert_eq!(FFIResult::err().kind, FFIResultKind::Error);
    assert_eq!(FFIResult::buffer_too_small().kind, FFIResultKind::BufferTooSmall);
    assert_eq!(FFIResult::buffer_blocked().kind, FFIResultKind::BufferBlocked);
    assert_eq!(FFIResult::argument_null().kind, FFIResultKind::ArgumentNull);
}

#[test]
fn only_success_is_no_error() {
    assert!(!FFIResult::ok().is_err());
    assert!(FFIResult::err().is_err());
    assert!(FFIResult::buffer_too_small().is_err());
    assert!(FFIResult::buffer_blocked().is_err());
    assert!(FFIResult::argument_null().is_err());
}

#[test]
fn kinds_have_their_codes() {
    assert_eq!(FFIResultKind::Success.code(), 0);
    assert_eq!(FFIResultKind::Error.code(), 1);
    assert_eq!(FFIResultKind::BufferTooSmall.code(), 2);
    assert_eq!(FFIResultKind::BufferBlocked.code(), 3);
    assert_eq!(FFIResultKind::ArgumentNull.code(), 4);
    for code in 0..5 {
        assert_eq!(FFIResultKind::from_code(code).unwrap().code(), code);
    }
    assert_eq!(FFIResultKind::from_code(5), None);
    assert_eq!(FFIResultKind::from_code(u32::MAX), None);
}

#[test]
fn results_describe_themselves() {
    assert_eq!(FFIResult::ok().to_string(), "Successful");
    assert_eq!(FFIResult::err().to_string(), "Some error occurred");
    assert_eq!(FFIResult::buffer_too_small().to_string(), "The supplied buffer was to small.");
    assert_eq!(
        FFIResult::buffer_blocked().to_string(),
        "There is no data in the buffer to be read."
    );
    assert_eq!(FFIResult::argument_null().to_string(), "An argument was null.");
}

#[test]
fn context_replaces_the_last_error() {
    let mut slot = LastResult::new();
    assert!(slot.error().is_none());
    let first = FFIResult::err().context(&mut slot, FFIErrorKind::io_error("first"));
    assert_eq!(first, FFIResult::err());
    assert_eq!(reason_of(&slot).unwrap(), "first");
    let second = FFIResult::buffer_blocked().context(&mut slot, FFIErrorKind::io_error("second"));
    assert_eq!(second, FFIResult::buffer_blocked());
    assert_eq!(reason_of(&slot).unwrap(), "second");
    slot.clear();
    assert!(slot.error().is_none());
}

#[test]
fn from_last_result_sees_the_slot() {
    let mut slot = LastResult::new();
    let seen = FFIResult::from_last_result(&slot, |error| error.is_some());
    assert!(!seen);
    FFIResult::err().context(&mut slot, FFIErrorKind::io_error("seen"));
    let seen = FFIResult::from_last_result(&slot, |error| error.map(|e| e.reason()));
    assert_eq!(seen.unwrap(), "seen");
}

#[test]
fn errors_have_their_reasons() {
    assert_eq!(FFIErrorKind::io_error("gone").reason(), "gone");
    assert_eq!(
        FFIErrorKind::Protocol { code: 3, reason: "flow control".to_string() }.reason(),
        "flow control"
    );
    assert_eq!(FFIErrorKind::Ffi.reason(), "Error occurred in the FFI layer");
    assert_eq!(
        FFIErrorKind::KindCode(FFIResultKind::BufferBlocked).reason(),
        "There is no data in the buffer to be read."
    );
    assert!(matches!(
        unknown_connection(),
        FFIErrorKind::Protocol { code: 10, reason } if reason == "no connection for the handle"
    ));
}

#[test]
fn errors_describe_themselves() {
    assert_eq!(FFIErrorKind::io_error("gone").to_string(), "Io Error Occurred: gone");
    assert_eq!(
        FFIErrorKind::Protocol { code: 42, reason: "flow control".to_string() }.to_string(),
        "QuinnError Error; code: 42 reason: flow control"
    );
    assert_eq!(
        FFIErrorKind::Protocol { code: 0, reason: String::new() }.to_string(),
        "QuinnError Error; code: 0 reason: "
    );
    assert_eq!(
        FFIErrorKind::Protocol { code: u32::MAX, reason: "x".to_string() }.to_string(),
        "QuinnError Error; code: 4294967295 reason: x"
    );
    assert_eq!(FFIErrorKind::Ffi.to_string(), "Error occurred in the FFI layer");
    assert_eq!(
        FFIErrorKind::KindCode(FFIResultKind::BufferBlocked).to_string(),
        "Quinn error kind Occurred: BufferBlocked"
    );
    assert_eq!(FFIResultKind::Success.name(), "Success");
    assert_eq!(FFIResultKind::BufferTooSmall.name(), "BufferTooSmall");
    assert_eq!(FFIResultKind::ArgumentNull.name(), "ArgumentNull");
    assert_eq!(FFIResultKind::Error.name(), "Error");
}

#[test]
fn displayable_errors_become_io_errors() {
    let blocked = FFIErrorKind::from_display(&quinn_proto::ReadError::Blocked);
    assert!(matches!(blocked, FFIErrorKind::Io(message) if message == "blocked"));
    let unknown = FFIErrorKind::from_display(&quinn_proto::WriteError::UnknownStream);
    assert!(matches!(unknown, FFIErrorKind::Io(message) if message == "unknown stream"));
    let bounds = FFIErrorKind::from_display(&quinn_proto::VarIntBoundsExceeded);
    assert_eq!(bounds.reason(), "value too large for varint encoding");
}

#[test]
fn results_are_reported_by_kind() {
    let mut slot = LastResult::new();
    let success: Result<u32, FFIErrorKind> = Ok(7);
    assert_eq!(FFIResult::from_result(&mut slot, success).kind, FFIResultKind::Success);
    assert!(slot.error().is_none());

    for kind in [
        FFIResultKind::Success,
        FFIResultKind::Error,
        FFIResultKind::BufferTooSmall,
        FFIResultKind::BufferBlocked,
        FFIResultKind::ArgumentNull,
    ] {
        let chosen: Result<(), FFIErrorKind> = Err(FFIErrorKind::KindCode(kind));
        assert_eq!(FFIResult::from_result(&mut slot, chosen).kind, kind);
        assert!(slot.error().is_none());
    }

    let failed: Result<(), FFIErrorKind> = Err(FFIErrorKind::io_error("channel closed"));
    assert_eq!(FFIResult::from_result(&mut slot, failed).kind, FFIResultKind::Error);
    assert_eq!(reason_of(&slot).unwrap(), "channel closed");

    let protocol: Result<(), FFIErrorKind> =
        Err(FFIErrorKind::Protocol { code: 1, reason: "internal".to_string() });
    assert_eq!(FFIResult::from_result(&mut slot, protocol).kind, FFIResultKind::Error);
    assert!(matches!(slot.error(), Some(FFIErrorKind::Protocol { code: 1, .. })));

    let binding: Result<(), FFIErrorKind> = Err(FFIErrorKind::Ffi);
    assert_eq!(FFIResult::from_result(&mut slot, binding).kind, FFIResultKind::Error);
    assert!(matches!(slot.error(), Some(FFIErrorKind::Ffi)));

    let succeeded: Result<(), FFIErrorKind> = Ok(());
    assert_eq!(FFIResult::from_result(&mut slot, succeeded).kind, FFIResultKind::Success);
    assert!(matches!(slot.error(), Some(FFIErrorKind::Ffi)));
}

#[test]
fn a_message_is_an_error() {
    let mut slot = LastResult::new();
    assert_eq!(FFIResult::from_message(&mut slot, "bad input").kind, FFIResultKind::Error);
    assert_eq!(reason_of(&slot).unwrap(), "bad input");
}

#[test]
fn buffer_too_small_last_error() {
    let mut slot = LastResult::new();
    let result = FFIResult::err().context(&mut slot, FFIErrorKind::io_error("no stream to accept!"));
    assert_eq!(result.kind, FFIResultKind::Error);
    let answer = last_error(&slot, 4);
    assert_eq!(answer.result.kind, FFIResultKind::BufferTooSmall);
    assert_eq!(answer.actual_len, "no stream to accept!".len());
    assert_eq!(answer.actual_len, 20);
    assert!(answer.bytes.is_empty());
}

#[test]
fn last_error_fits_exactly() {
    let mut slot = LastResult::new();
    FFIResult::err().context(&mut slot, FFIErrorKind::io_error("no stream to accept!"));
    let too_small = last_error(&slot, 19);
    assert_eq!(too_small.result.kind, FFIResultKind::BufferTooSmall);
    assert_eq!(too_small.actual_len, 20);
    let exact = last_error(&slot, 20);
    assert_eq!(exact.result.kind, FFIResultKind::Success);
    assert_eq!(exact.actual_len, 20);
    assert_eq!(exact.bytes, b"no stream to accept!".to_vec());
    let large = last_error(&slot, 1024);
    assert_eq!(large.result.kind, FFIResultKind::Success);
    assert_eq!(large.bytes, b"no stream to accept!".to_vec());
}

#[test]
fn last_error_counts_bytes() {
    let mut slot = LastResult::new();
    FFIResult::err().context(&mut slot, FFIErrorKind::io_error("größe"));
    let answer = last_error(&slot, 6);
    assert_eq!(answer.result.kind, FFIResultKind::BufferTooSmall);
    assert_eq!(answer.actual_len, 7);
    assert_eq!(last_error(&slot, 7).bytes, "größe".as_bytes().to_vec());
}

#[test]
fn last_error_is_empty_after_success() {
    let mut slot = LastResult::new();
    FFIResult::err().context(&mut slot, FFIErrorKind::io_error("left over"));
    let result = FFIResult::catch(&mut slot, |slot| (slot, Ok(FFIResult::ok())));
    assert_eq!(result.kind, FFIResultKind::Success);
    let answer = last_error(&slot, 0);
    assert_eq!(answer.result.kind, FFIResultKind::Success);
    assert_eq!(answer.actual_len, 0);
    assert!(answer.bytes.is_empty());
}

#[test]
fn catch_keeps_what_the_body_recorded() {
    let mut slot = LastResult::new();
    let result = FFIResult::catch(&mut slot, |mut slot| {
        let failed = FFIResult::from_message(&mut slot, "refused");
        (slot, Ok(failed))
    });
    assert_eq!(result.kind, FFIResultKind::Error);
    assert_eq!(reason_of(&slot).unwrap(), "refused");
}

#[test]
fn panic_containment() {
    let mut slot = LastResult::new();
    let result = FFIResult::catch(&mut slot, |slot| (slot, Err(Some("callback failed".to_string()))));
    assert_eq!(result.kind, FFIResultKind::Error);
    let reason = reason_of(&slot).unwrap();
    assert!(reason.starts_with("internal panic with "));
    assert_eq!(reason, "internal panic with 'callback failed'");

    let result = FFIResult::after_call(&mut slot, Err(None));
    assert_eq!(result.kind, FFIResultKind::Error);
    assert_eq!(reason_of(&slot).unwrap(), "internal panic with an unknown payload");
}

#[test]
fn after_call_hands_results_on() {
    let mut slot = LastResult::new();
    FFIResult::err().context(&mut slot, FFIErrorKind::io_error("kept"));
    let result = FFIResult::after_call(&mut slot, Ok(FFIResult::buffer_blocked()));
    assert_eq!(result.kind, FFIResultKind::BufferBlocked);
    assert_eq!(reason_of(&slot).unwrap(), "kept");
}

#[test]
fn null_argument() {
    let mut slot = LastResult::new();
    let arguments = vec![
        Argument { name: "handle", null: true },
        Argument { name: "out_endpoint_id", null: false },
        Argument { name: "out_endpoint_handle", null: false },
    ];
    let refused = check_arguments(&mut slot, &arguments);
    assert_eq!(refused, Some(FFIResult::argument_null()));
    let answer = last_error(&slot, 64);
    assert_eq!(answer.bytes, b"handle".to_vec());
    assert_eq!(answer.actual_len, 6);
}

#[test]
fn first_null_argument_is_named() {
    let mut slot = LastResult::new();
    let arguments = vec![
        Argument { name: "handle", null: false },
        Argument { name: "buffer", null: true },
        Argument { name: "written", null: true },
    ];
    assert_eq!(check_arguments(&mut slot, &arguments), Some(FFIResult::argument_null()));
    assert_eq!(reason_of(&slot).unwrap(), "buffer");
}

#[test]
fn arguments_without_null_pass() {
    let mut slot = LastResult::new();
    FFIResult::err().context(&mut slot, FFIErrorKind::io_error("earlier"));
    let arguments =
        vec![Argument { name: "handle", null: false }, Argument { name: "buffer", null: false }];
    assert_eq!(check_arguments(&mut slot, &arguments), None);
    assert_eq!(reason_of(&slot).unwrap(), "earlier");
    assert_eq!(check_arguments(&mut slot, &Vec::new()), None);
}

#[test]
fn numbers_and_addresses_are_never_null() {
    assert!(!0usize.is_null());
    assert!(!0isize.is_null());
    assert!(!0u8.is_null());
    assert!(!0u16.is_null());
    assert!(!0u32.is_null());
    assert!(!0u64.is_null());
    assert!(!0u128.is_null());
    assert!(!0i8.is_null());
    assert!(!0i16.is_null());
    assert!(!0i32.is_null());
    assert!(!0i64.is_null());
    assert!(!0i128.is_null());
    assert!(!false.is_null());
    assert!(!IpAddr::new([0, 0, 0, 0], 0).is_null());
}

#[test]
fn addresses_round_trip() {
    let address = IpAddr::new([192, 168, 7, 1], 4433);
    assert_eq!(address.octets(), [192, 168, 7, 1]);
    assert_eq!(address.port(), 4433);
    let again = IpAddr::new(address.octets(), address.port());
    assert_eq!(again.octets(), address.octets());
    assert_eq!(again.port(), address.port());
    let extreme = IpAddr::new([255, 255, 255, 255], u16::MAX);
    assert_eq!(extreme.octets(), [255; 4]);
    assert_eq!(extreme.port(), 65535);
}
