//! Null checks on what the host passes in.
//!
//! Before the body of a call runs, every argument is asked whether it is null. The
//! first null argument ends the call: its name is recorded as the reason.
use crate::ffi::ffi_result::{FFIResult, FFIResultKind, LastResult};
use crate::proto_impl::addr::IpAddr;
use crate::proto_impl::result::{ErrorView, FFIErrorKind};
use vstd::prelude::*;

verus! {

/// Whether or not a value passed across the boundary is null.
pub trait IsNull {
    /// Whether the value is null.
    spec fn null(&self) -> bool;

    fn is_null(&self) -> (null: bool)
        ensures
            null == self.null(),
    ;
}

impl IsNull for usize {
    open spec fn null(&self) -> bool {
        false
    }

    fn is_null(&self) -> (null: bool) {
        false
    }
}

impl IsNull for isize {
    open spec fn null(&self) -> bool {
        false
    }

    fn is_null(&self) -> (null: bool) {
        false
    }
}

impl IsNull for u8 {
    open spec fn null(&self) -> bool {
        false
    }

    fn is_null(&self) -> (null: bool) {
        false
    }
}

impl IsNull for u16 {
    open spec fn null(&self) -> bool {
        false
    }

    fn is_null(&self) -> (null: bool) {
        false
    }
}

impl IsNull for u32 {
    open spec fn null(&self) -> bool {
        false
    }

    fn is_null(&self) -> (null: bool) {
        false
    }
}

impl IsNull for u64 {
    open spec fn null(&self) -> bool {
        false
    }

    fn is_null(&self) -> (null: bool) {
        false
    }
}

impl IsNull for u128 {
    open spec fn null(&self) -> bool {
        false
    }

    fn is_null(&self) -> (null: bool) {
        false
    }
}

impl IsNull for i8 {
    open spec fn null(&self) -> bool {
        false
    }

    fn is_null(&self) -> (null: bool) {
        false
    }
}

impl IsNull for i16 {
    open spec fn null(&self) -> bool {
        false
    }

    fn is_null(&self) -> (null: bool) {
        false
    }
}

impl IsNull for i32 {
    open spec fn null(&self) -> bool {
        false
    }

    fn is_null(&self) -> (null: bool) {
        false
    }
}

impl IsNull for i64 {
    open spec fn null(&self) -> bool {
        false
    }

    fn is_null(&self) -> (null: bool) {
        false
    }
}

impl IsNull for i128 {
    open spec fn null(&self) -> bool {
        false
    }

    fn is_null(&self) -> (null: bool) {
        false
    }
}

impl IsNull for bool {
    open spec fn null(&self) -> bool {
        false
    }

    fn is_null(&self) -> (null: bool) {
        false
    }
}

impl IsNull for IpAddr {
    open spec fn null(&self) -> bool {
        false
    }

    fn is_null(&self) -> (null: bool) {
        false
    }
}

/// An argument of a call: its name, and whether the host passed null for it.
pub struct Argument<'a> {
    pub name: &'a str,
    pub null: bool,
}

/// Whether the argument at `index` is the first one that is null.
pub open spec fn first_null(arguments: Seq<Argument>, index: int) -> bool {
    &&& 0 <= index < arguments.len()
    &&& arguments[index].null
    &&& forall|earlier: int| 0 <= earlier < index ==> !(#[trigger] arguments[earlier]).null
}

/// The position of the first null argument, if there is one.
pub open spec fn first_null_index(arguments: Seq<Argument>) -> Option<int> {
    if exists|index: int| first_null(arguments, index) {
        Some(choose|index: int| first_null(arguments, index))
    } else {
        None
    }
}

/// What the check of the arguments of a call gives: the result that ends the call,
/// if an argument is null, and what the slot holds afterwards.
pub open spec fn checked(slot: Option<ErrorView>, arguments: Seq<Argument>) -> (
    Option<FFIResult>,
    Option<ErrorView>,
) {
    match first_null_index(arguments) {
        Some(index) => (
            Some(FFIResult { kind: FFIResultKind::ArgumentNull }),
            Some(ErrorView::Io(arguments[index].name@)),
        ),
        None => (None, slot),
    }
}

/// Checks the arguments of a call in their order. The first null argument ends the
/// call with `ArgumentNull`, and its name is recorded in the slot. Where no argument
/// is null there is no result yet, and the slot stays as it is.
pub fn check_arguments(slot: &mut LastResult, arguments: &Vec<Argument>) -> (refused: Option<
    FFIResult,
>)
    ensures
        (refused, final(slot)@) == checked(old(slot)@, arguments@),
{
    let mut index: usize = 0;
    while index < arguments.len()
        invariant
            index <= arguments.len(),
            forall|earlier: int| 0 <= earlier < index ==> !(#[trigger] arguments@[earlier]).null,
            *slot == *old(slot),
        decreases arguments.len() - index,
    {
        if arguments[index].null {
            let refused = FFIResult::argument_null().context(
                slot,
                FFIErrorKind::io_error(arguments[index].name),
            );
            proof {
                assert(first_null(arguments@, index as int));
                lemma_first_null_is_unique(
                    arguments@,
                    index as int,
                    first_null_index(arguments@)->0,
                );
            }
            return Some(refused);
        }
        index = index + 1;
    }
    None
}

/// There is one first null argument at most.
pub proof fn lemma_first_null_is_unique(arguments: Seq<Argument>, one: int, other: int)
    requires
        first_null(arguments, one),
        first_null(arguments, other),
    ensures
        one == other,
{
    if one < other {
        assert(!arguments[one].null);
    } else if other < one {
        assert(!arguments[other].null);
    }
}

/// A call with a null argument is ended with `ArgumentNull`, and the reason that is
/// recorded is the name of the first null argument, whatever the slot held before.
pub proof fn lemma_null_argument_is_reported(
    slot: Option<ErrorView>,
    arguments: Seq<Argument>,
    index: int,
)
    requires
        0 <= index < arguments.len(),
        arguments[index].null,
    ensures
        checked(slot, arguments).0 == Some(FFIResult { kind: FFIResultKind::ArgumentNull }),
        exists|first: int|
            #![trigger arguments[first]]
            first_null(arguments, first) && first <= index && checked(slot, arguments).1 == Some(
                ErrorView::Io(arguments[first].name@),
            ),
{
    let first = least_null(arguments, index);
    lemma_first_null_is_unique(arguments, first, first_null_index(arguments)->0);
}

/// A call without a null argument is not ended by the check, and the slot stays as
/// it is.
pub proof fn lemma_no_null_argument_passes(slot: Option<ErrorView>, arguments: Seq<Argument>)
    requires
        forall|index: int| 0 <= index < arguments.len() ==> !(#[trigger] arguments[index]).null,
    ensures
        checked(slot, arguments) == (None::<FFIResult>, slot),
{
}

/// The position of the first null argument, given that the argument at `index` is
/// null.
pub proof fn least_null(arguments: Seq<Argument>, index: int) -> (first: int)
    requires
        0 <= index < arguments.len(),
        arguments[index].null,
    ensures
        first_null(arguments, first),
        first <= index,
    decreases index,
{
    if exists|earlier: int| 0 <= earlier < index && (#[trigger] arguments[earlier]).null {
        let earlier = choose|earlier: int|
            0 <= earlier < index && (#[trigger] arguments[earlier]).null;
        least_null(arguments, earlier)
    } else {
        index
    }
}

} // verus!
