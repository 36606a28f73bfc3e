//! Result kinds that cross the boundary and the slot that keeps the last error.
use crate::proto_impl::result::{reason_of, ErrorView, FFIErrorKind};
use vstd::prelude::*;
use vstd::string::*;
use vstd::utf8::encode_utf8;

verus! {

/// What a call across the boundary reports.
#[derive(Debug, Clone, Copy, PartialEq, Eq, Structural)]
pub enum FFIResultKind {
    /// The call succeeded.
    Success,
    /// The call failed; the reason is in the last-error slot.
    Error,
    /// The buffer is too small: resize it and call again.
    BufferTooSmall,
    /// There is no data to read yet.
    BufferBlocked,
    /// An argument of the call was null.
    ArgumentNull,
}

/// The number that stands for a kind at the boundary.
pub open spec fn kind_code(kind: FFIResultKind) -> u32 {
    match kind {
        FFIResultKind::Success => 0,
        FFIResultKind::Error => 1,
        FFIResultKind::BufferTooSmall => 2,
        FFIResultKind::BufferBlocked => 3,
        FFIResultKind::ArgumentNull => 4,
    }
}

/// The name of a kind.
pub open spec fn kind_name(kind: FFIResultKind) -> Seq<char> {
    match kind {
        FFIResultKind::Success => "Success"@,
        FFIResultKind::Error => "Error"@,
        FFIResultKind::BufferTooSmall => "BufferTooSmall"@,
        FFIResultKind::BufferBlocked => "BufferBlocked"@,
        FFIResultKind::ArgumentNull => "ArgumentNull"@,
    }
}

/// The sentence that describes a kind.
pub open spec fn kind_description(kind: FFIResultKind) -> Seq<char> {
    match kind {
        FFIResultKind::Success => "Successful"@,
        FFIResultKind::Error => "Some error occurred"@,
        FFIResultKind::BufferTooSmall => "The supplied buffer was to small."@,
        FFIResultKind::BufferBlocked => "There is no data in the buffer to be read."@,
        FFIResultKind::ArgumentNull => "An argument was null."@,
    }
}

impl FFIResultKind {
    /// The number that stands for this kind at the boundary.
    pub fn code(&self) -> (code: u32)
        ensures
            code == kind_code(*self),
    {
        match self {
            FFIResultKind::Success => 0,
            FFIResultKind::Error => 1,
            FFIResultKind::BufferTooSmall => 2,
            FFIResultKind::BufferBlocked => 3,
            FFIResultKind::ArgumentNull => 4,
        }
    }

    /// The kind that a number stands for, if any.
    pub fn from_code(code: u32) -> (kind: Option<FFIResultKind>)
        ensures
            code <= 4 <==> kind is Some,
            kind matches Some(k) ==> kind_code(k) == code,
    {
        if code == 0 {
            Some(FFIResultKind::Success)
        } else if code == 1 {
            Some(FFIResultKind::Error)
        } else if code == 2 {
            Some(FFIResultKind::BufferTooSmall)
        } else if code == 3 {
            Some(FFIResultKind::BufferBlocked)
        } else if code == 4 {
            Some(FFIResultKind::ArgumentNull)
        } else {
            None
        }
    }

    /// The name of this kind.
    pub fn name(&self) -> (text: &'static str)
        ensures
            text@ == kind_name(*self),
    {
        match self {
            FFIResultKind::Success => "Success",
            FFIResultKind::Error => "Error",
            FFIResultKind::BufferTooSmall => "BufferTooSmall",
            FFIResultKind::BufferBlocked => "BufferBlocked",
            FFIResultKind::ArgumentNull => "ArgumentNull",
        }
    }

    /// The sentence that describes this kind.
    pub fn description(&self) -> (text: String)
        ensures
            text@ == kind_description(*self),
    {
        match self {
            FFIResultKind::Success => String::from_str("Successful"),
            FFIResultKind::Error => String::from_str("Some error occurred"),
            FFIResultKind::BufferTooSmall => String::from_str("The supplied buffer was to small."),
            FFIResultKind::BufferBlocked => String::from_str(
                "There is no data in the buffer to be read.",
            ),
            FFIResultKind::ArgumentNull => String::from_str("An argument was null."),
        }
    }
}

/// The slot that keeps the error of the last failed call of a thread.
#[derive(Debug)]
pub struct LastResult {
    err: Option<FFIErrorKind>,
}

impl View for LastResult {
    type V = Option<ErrorView>;

    closed spec fn view(&self) -> Option<ErrorView> {
        match self.err {
            Some(error) => Some(error@),
            None => None,
        }
    }
}

impl LastResult {
    /// A slot that holds no error.
    pub fn new() -> (slot: LastResult)
        ensures
            slot@ is None,
    {
        LastResult { err: None }
    }

    /// Forgets the error, if there is one.
    pub fn clear(&mut self)
        ensures
            final(self)@ is None,
    {
        self.err = None;
    }

    /// The error in the slot, if there is one.
    pub fn error(&self) -> (error: Option<&FFIErrorKind>)
        ensures
            shows(self@, error),
    {
        self.err.as_ref()
    }
}

/// The result that a call across the boundary returns: only a kind. The details of
/// an error are kept in the [`LastResult`] slot.
#[derive(Debug, Clone, Copy, PartialEq, Eq, Structural)]
pub struct FFIResult {
    pub kind: FFIResultKind,
}

impl FFIResult {
    /// The result of the given kind.
    pub fn new(kind: FFIResultKind) -> (result: FFIResult)
        ensures
            result.kind == kind,
    {
        FFIResult { kind }
    }

    /// The call succeeded.
    pub fn ok() -> (result: Self)
        ensures
            result.kind == FFIResultKind::Success,
    {
        FFIResult::new(FFIResultKind::Success)
    }

    /// The call failed.
    pub fn err() -> (result: Self)
        ensures
            result.kind == FFIResultKind::Error,
    {
        FFIResult::new(FFIResultKind::Error)
    }

    /// The buffer of the host is too small.
    pub fn buffer_too_small() -> (result: Self)
        ensures
            result.kind == FFIResultKind::BufferTooSmall,
    {
        FFIResult::new(FFIResultKind::BufferTooSmall)
    }

    /// There is no data to read yet.
    pub fn buffer_blocked() -> (result: Self)
        ensures
            result.kind == FFIResultKind::BufferBlocked,
    {
        FFIResult::new(FFIResultKind::BufferBlocked)
    }

    /// An argument of the call was null.
    pub fn argument_null() -> (result: Self)
        ensures
            result.kind == FFIResultKind::ArgumentNull,
    {
        FFIResult::new(FFIResultKind::ArgumentNull)
    }

    /// Whether the result is anything but a success.
    pub fn is_err(&self) -> (failed: bool)
        ensures
            failed <==> self.kind != FFIResultKind::Success,
    {
        match self.kind {
            FFIResultKind::Success => false,
            _ => true,
        }
    }

    /// Records `e` in the slot, replacing what was there, and hands the result on.
    pub fn context(self, slot: &mut LastResult, e: FFIErrorKind) -> (result: Self)
        ensures
            result == self,
            final(slot)@ == Some(e@),
    {
        slot.err = Some(e);
        self
    }

    /// Calls `f` with the error in the slot, if there is one, and returns what it
    /// returns.
    pub fn from_last_result<R, F: FnOnce(Option<&FFIErrorKind>) -> R>(
        slot: &LastResult,
        f: F,
    ) -> (output: R)
        requires
            forall|error: Option<&FFIErrorKind>|
                shows(slot@, error) ==> #[trigger] f.requires((error,)),
        ensures
            exists|error: Option<&FFIErrorKind>|
                shows(slot@, error) && #[trigger] f.ensures((error,), output),
    {
        let message = slot.error();
        f(message)
    }

    /// The sentence that describes the kind of this result.
    pub fn to_string(&self) -> (text: String)
        ensures
            text@ == kind_description(self.kind),
    {
        self.kind.description()
    }

    /// The result of a fallible operation as the host sees it. A kind that the
    /// operation chose itself is handed on untouched; every other error is recorded
    /// in the slot and reported as `Error`.
    pub fn from_result<T>(slot: &mut LastResult, result: Result<T, FFIErrorKind>) -> (converted:
        FFIResult)
        ensures
            (converted.kind, final(slot)@) == reported(old(slot)@, result_view(result)),
    {
        match result {
            Ok(_) => FFIResult::ok(),
            Err(e) => match e {
                FFIErrorKind::KindCode(kind) => FFIResult::new(kind),
                e => FFIResult::err().context(slot, e),
            },
        }
    }

    /// A failure with the given reason.
    pub fn from_message(slot: &mut LastResult, message: &str) -> (converted: FFIResult)
        ensures
            converted.kind == FFIResultKind::Error,
            final(slot)@ == Some(ErrorView::Io(message@)),
    {
        FFIResult::err().context(slot, FFIErrorKind::io_error(message))
    }

    /// Settles a guarded call: a body that returned hands its result on and leaves
    /// the slot as it is; a body that panicked is reported as `Error`, and the slot
    /// records the panic.
    pub fn after_call(slot: &mut LastResult, outcome: Result<FFIResult, Option<String>>) -> (result:
        FFIResult)
        ensures
            (result, final(slot)@) == settled(old(slot)@, outcome_view(outcome)),
    {
        match outcome {
            Ok(result) => result,
            Err(payload) => {
                let message = match payload {
                    Some(text) => {
                        let mut message = String::from_str("internal panic with '");
                        message.append(text.as_str());
                        message.append("'");
                        message
                    },
                    None => String::from_str("internal panic with an unknown payload"),
                };
                FFIResult::err().context(slot, FFIErrorKind::Io(message))
            },
        }
    }

    /// Runs `f` as the body of a guarded call. The slot is emptied first and handed
    /// to `f`, which returns it together with the result of the body, or with the
    /// message of the panic that ended it.
    pub fn catch<F: FnOnce(LastResult) -> (LastResult, Result<FFIResult, Option<String>>)>(
        slot: &mut LastResult,
        f: F,
    ) -> (result: FFIResult)
        requires
            forall|empty: LastResult| empty@ is None ==> f.requires((empty,)),
        ensures
            exists|empty: LastResult, used: LastResult, outcome: Result<FFIResult, Option<String>>|
                {
                    &&& empty@ is None
                    &&& #[trigger] f.ensures((empty,), (used, outcome))
                    &&& (result, final(slot)@) == settled(used@, outcome_view(outcome))
                },
    {
        let (used, outcome) = f(LastResult::new());
        *slot = used;
        FFIResult::after_call(slot, outcome)
    }
}

/// Whether `error` is what a reader of the slot is shown: the error in the slot, or
/// nothing where the slot is empty.
pub open spec fn shows(slot: Option<ErrorView>, error: Option<&FFIErrorKind>) -> bool {
    match error {
        Some(shown) => slot == Some(shown@),
        None => slot is None,
    }
}

/// What a fallible operation returned, without the value of a success.
pub open spec fn result_view<T>(result: Result<T, FFIErrorKind>) -> Option<ErrorView> {
    match result {
        Ok(_) => None,
        Err(error) => Some(error@),
    }
}

/// The kind that is reported for the outcome of an operation (`None` for success),
/// and what the slot holds afterwards.
pub open spec fn reported(slot: Option<ErrorView>, outcome: Option<ErrorView>) -> (
    FFIResultKind,
    Option<ErrorView>,
) {
    match outcome {
        None => (FFIResultKind::Success, slot),
        Some(ErrorView::KindCode(kind)) => (kind, slot),
        Some(error) => (FFIResultKind::Error, Some(error)),
    }
}

/// The reason that is recorded for a panic: its message where it had one.
pub open spec fn panic_reason(payload: Option<Seq<char>>) -> Seq<char> {
    match payload {
        Some(text) => "internal panic with '"@ + text + "'"@,
        None => "internal panic with an unknown payload"@,
    }
}

/// How a guarded body ended: with a result, or with a panic and its message.
pub open spec fn outcome_view(outcome: Result<FFIResult, Option<String>>) -> Result<
    FFIResult,
    Option<Seq<char>>,
> {
    match outcome {
        Ok(result) => Ok(result),
        Err(Some(text)) => Err(Some(text@)),
        Err(None) => Err(None),
    }
}

/// The result of a guarded call and the slot after it.
pub open spec fn settled(slot: Option<ErrorView>, outcome: Result<FFIResult, Option<Seq<char>>>) -> (
    FFIResult,
    Option<ErrorView>,
) {
    match outcome {
        Ok(result) => (result, slot),
        Err(payload) => (
            FFIResult { kind: FFIResultKind::Error },
            Some(ErrorView::Io(panic_reason(payload))),
        ),
    }
}

/// After a guarded call that returned `Success` and recorded nothing, the host
/// finds no last error: the reason is empty, whatever the size of its buffer.
pub proof fn lemma_no_error_after_success(result: FFIResult, buf_len: int)
    requires
        result.kind == FFIResultKind::Success,
    ensures
        settled(None, Ok(result)) == (result, None::<ErrorView>),
        last_error_of(settled(None, Ok(result)).1, buf_len) == (
            FFIResultKind::Success,
            0int,
            Seq::<u8>::empty(),
        ),
{
}

/// A fallible operation that succeeded, or that chose its result kind itself, is
/// reported without touching the last error. So a result of `Success` never comes
/// with a new reason.
pub proof fn lemma_success_records_nothing(slot: Option<ErrorView>, outcome: Option<ErrorView>)
    ensures
        reported(slot, outcome).0 == FFIResultKind::Success ==> reported(slot, outcome).1 == slot,
        reported(slot, outcome).1 != slot ==> reported(slot, outcome).0 == FFIResultKind::Error,
{
}

/// A guarded call whose body panicked returns `Error`, and the reason that is
/// recorded begins with "internal panic with ".
pub proof fn lemma_panic_is_reported(slot: Option<ErrorView>, payload: Option<Seq<char>>)
    ensures
        settled(slot, Err(payload)).0.kind == FFIResultKind::Error,
        settled(slot, Err(payload)).1 matches Some(ErrorView::Io(reason)) && reason.len() >= 20
            && reason.subrange(0, 20) == "internal panic with "@,
{
    reveal_strlit("internal panic with \'");
    reveal_strlit("\'");
    reveal_strlit("internal panic with an unknown payload");
    reveal_strlit("internal panic with ");
    let reason = panic_reason(payload);
    assert(reason.len() >= 20);
    assert(reason.subrange(0, 20) =~= "internal panic with "@);
}

/// What the host is handed when it asks for the last error.
pub struct LastError {
    /// `BufferTooSmall` where the reason does not fit, else `Success`.
    pub result: FFIResult,
    /// The length of the reason in bytes; 0 where there is no error.
    pub actual_len: usize,
    /// The bytes of the reason, where they fit.
    pub bytes: Vec<u8>,
}

/// The answer to a request for the last error with a buffer of `buf_len` bytes:
/// the kind, the length of the reason and the bytes that are copied.
pub open spec fn last_error_of(slot: Option<ErrorView>, buf_len: int) -> (
    FFIResultKind,
    int,
    Seq<u8>,
) {
    match slot {
        None => (FFIResultKind::Success, 0, Seq::empty()),
        Some(error) => {
            let bytes = encode_utf8(reason_of(error));
            if buf_len < bytes.len() {
                (FFIResultKind::BufferTooSmall, bytes.len() as int, Seq::empty())
            } else {
                (FFIResultKind::Success, bytes.len() as int, bytes)
            }
        },
    }
}

/// Retrieves the reason of the last error for a buffer of `buf_len` bytes. The
/// length of the reason is always reported; its bytes only where they fit.
pub fn last_error(slot: &LastResult, buf_len: usize) -> (answer: LastError)
    ensures
        (answer.result.kind, answer.actual_len as int, answer.bytes@) == last_error_of(
            slot@,
            buf_len as int,
        ),
{
    match slot.error() {
        Some(error) => {
            let reason = error.reason();
            let bytes = reason.as_str().as_bytes_vec();
            let actual_len = bytes.len();
            if buf_len < actual_len {
                LastError { result: FFIResult::buffer_too_small(), actual_len, bytes: Vec::new() }
            } else {
                LastError { result: FFIResult::ok(), actual_len, bytes }
            }
        },
        None => LastError { result: FFIResult::ok(), actual_len: 0, bytes: Vec::new() },
    }
}

} // verus!
