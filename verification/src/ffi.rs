//! The boundary discipline: handles, result kinds, the last-error slot, null checks
//! and the description of every callback the host can be sent.
use crate::ffi::safe_api::poisoned_error;
use crate::proto_impl::result::FFIErrorKind;
use vstd::prelude::*;

pub mod callbacks;
pub mod ffi_result;
pub mod handle_mut;
pub mod handle_shared;
pub mod null;
pub mod safe_api;

pub use callbacks::Callback;
pub use ffi_result::{FFIResult, FFIResultKind, LastError, LastResult};
pub use handle_mut::FFIHandleMut;
pub use handle_shared::FFIHandleRef;
pub use null::IsNull;
pub use safe_api::{
    ConnectionHandle, EndpointHandle, RustlsClientConfigHandle, RustlsServerConfigHandle,
};

verus! {

/// A handle through which the host reads an object of the runtime.
pub trait HandleRef<Inner>: IsNull + Sized {
    /// Allocates the object and returns the handle for it, which is not null.
    fn new(instance: Inner) -> (handle: Self)
        ensures
            !handle.null(),
    ;

    /// Calls `cb` with the object while its lock is held. The handle must not be
    /// null. The access fails without a call of `cb` only where the lock was
    /// poisoned; otherwise it returns what `cb` returns.
    fn ref_access<F: FnOnce(&Inner) -> Result<(), FFIErrorKind>>(&self, cb: F) -> (accessed:
        Result<(), FFIErrorKind>)
        requires
            !self.null(),
            forall|inner: &Inner| cb.requires((inner,)),
        ensures
            (exists|inner: &Inner| #[trigger] cb.ensures((inner,), accessed)) || (
            accessed matches Err(error) && error@ == poisoned_error()),
    ;
}

/// A handle through which the host reads and writes an object of the runtime.
pub trait HandleMut<Inner>: HandleRef<Inner> {
    /// Calls `cb` with the object, for writing, while its lock is held. The handle
    /// must not be null. The access fails without a call of `cb` only where the lock
    /// was poisoned; otherwise it returns what `cb` returns.
    fn mut_access<F: FnOnce(&mut Inner) -> Result<(), FFIErrorKind>>(
        &mut self,
        cb: F,
    ) -> (accessed: Result<(), FFIErrorKind>)
        requires
            !old(self).null(),
            forall|inner: &mut Inner| cb.requires((inner,)),
        ensures
            !final(self).null(),
            (exists|inner: &mut Inner| #[trigger] cb.ensures((inner,), accessed)) || (
            accessed matches Err(error) && error@ == poisoned_error()),
    ;
}

} // verus!
