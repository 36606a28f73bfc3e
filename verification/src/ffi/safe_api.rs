//! The handles of the objects that the host works with, and how they are accessed.
//!
//! Every object sits behind a lock. A configuration is owned by its handle alone;
//! an endpoint or a connection is shared with the runtime, which polls it. A lock
//! that was poisoned by a panic is made usable again, and the access fails.
use crate::ffi::handle_mut::FFIHandleMut;
use crate::ffi::null::IsNull;
use crate::ffi::{HandleMut, HandleRef};
use crate::proto_impl::connection::ConnectionImpl;
use crate::proto_impl::endpoint::EndpointImpl;
use crate::proto_impl::result::{ErrorView, FFIErrorKind};
use crate::sync::{lock, locked, new_mutex, LockAttempt};
use std::sync::{Arc, Mutex};
use vstd::prelude::*;

verus! {

/// The handle of a client configuration.
pub type RustlsClientConfigHandle = FFIHandleMut<Mutex<quinn_proto::ClientConfig>>;

/// The handle of a server configuration.
pub type RustlsServerConfigHandle = FFIHandleMut<Mutex<quinn_proto::ServerConfig>>;

/// The handle of an endpoint.
pub type EndpointHandle = FFIHandleMut<Arc<Mutex<EndpointImpl>>>;

/// The handle of a connection.
pub type ConnectionHandle = FFIHandleMut<Arc<Mutex<ConnectionImpl>>>;

/// The error for an access through a handle whose lock was poisoned.
pub open spec fn poisoned_error() -> ErrorView {
    ErrorView::Io("handle lock was poisoned"@)
}

/// The error for an access through a handle whose lock was poisoned.
pub fn poisoned() -> (error: FFIErrorKind)
    ensures
        error@ == poisoned_error(),
{
    FFIErrorKind::io_error("handle lock was poisoned")
}

impl<T> HandleRef<T> for FFIHandleMut<Mutex<T>> {
    fn new(instance: T) -> (handle: Self) {
        FFIHandleMut::allocate(new_mutex(instance))
    }

    fn ref_access<F: FnOnce(&T) -> Result<(), FFIErrorKind>>(&self, cb: F) -> (accessed: Result<
        (),
        FFIErrorKind,
    >) {
        match lock(self.deref()) {
            LockAttempt::Acquired(mut guard) => {
                let inner = locked(&mut guard);
                cb(&*inner)
            },
            _ => Err(poisoned()),
        }
    }
}

impl<T> HandleMut<T> for FFIHandleMut<Mutex<T>> {
    fn mut_access<F: FnOnce(&mut T) -> Result<(), FFIErrorKind>>(&mut self, cb: F) -> (accessed:
        Result<(), FFIErrorKind>) {
        match lock(self.deref()) {
            LockAttempt::Acquired(mut guard) => {
                let inner = locked(&mut guard);
                cb(inner)
            },
            _ => Err(poisoned()),
        }
    }
}

impl<T> HandleRef<T> for FFIHandleMut<Arc<Mutex<T>>> {
    fn new(instance: T) -> (handle: Self) {
        FFIHandleMut::allocate(Arc::new(new_mutex(instance)))
    }

    fn ref_access<F: FnOnce(&T) -> Result<(), FFIErrorKind>>(&self, cb: F) -> (accessed: Result<
        (),
        FFIErrorKind,
    >) {
        match lock(self.deref()) {
            LockAttempt::Acquired(mut guard) => {
                let inner = locked(&mut guard);
                cb(&*inner)
            },
            _ => Err(poisoned()),
        }
    }
}

impl<T> HandleMut<T> for FFIHandleMut<Arc<Mutex<T>>> {
    fn mut_access<F: FnOnce(&mut T) -> Result<(), FFIErrorKind>>(&mut self, cb: F) -> (accessed:
        Result<(), FFIErrorKind>) {
        match lock(self.deref()) {
            LockAttempt::Acquired(mut guard) => {
                let inner = locked(&mut guard);
                cb(inner)
            },
            _ => Err(poisoned()),
        }
    }
}

} // verus!
