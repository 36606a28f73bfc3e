//! The handle that owns a value for the host and lets it be read.
use crate::ffi::null::IsNull;
use vstd::prelude::*;

verus! {

/// A handle that can be read through.
///
/// The handle owns a value on the heap, or it is null. The value behind it is
/// never written to.
pub struct FFIHandleRef<T> {
    cell: Option<Box<T>>,
}

impl<T> FFIHandleRef<T> {
    /// The value that the handle owns; `None` for a null handle.
    pub closed spec fn value(&self) -> Option<T> {
        match self.cell {
            Some(boxed) => Some(*boxed),
            None => None,
        }
    }

    /// Moves the value to the heap and returns the handle that owns it.
    pub fn allocate(value: T) -> (handle: Self)
        ensures
            handle.value() == Some(value),
    {
        FFIHandleRef { cell: Some(Box::new(value)) }
    }

    /// The handle that owns nothing.
    pub fn null() -> (handle: Self)
        ensures
            handle.value() is None,
    {
        FFIHandleRef { cell: None }
    }

    /// Takes the value back from the heap and hands it to `f`. The handle is used
    /// up. It must not be null.
    pub fn dealloc<R, F: FnOnce(T) -> R>(handle: Self, f: F) -> (output: R)
        requires
            handle.value() is Some,
            f.requires((handle.value()->0,)),
        ensures
            f.ensures((handle.value()->0,), output),
    {
        match handle.cell {
            Some(boxed) => f(*boxed),
            None => vstd::pervasive::unreached(),
        }
    }

    /// The value that the handle owns. The handle must not be null.
    pub fn deref(&self) -> (value: &T)
        requires
            self.value() is Some,
        ensures
            *value == self.value()->0,
    {
        match &self.cell {
            Some(boxed) => &**boxed,
            None => vstd::pervasive::unreached(),
        }
    }
}

impl<T> IsNull for FFIHandleRef<T> {
    open spec fn null(&self) -> bool {
        self.value() is None
    }

    fn is_null(&self) -> (null: bool) {
        self.cell.is_none()
    }
}

} // verus!
