//! The calls into the standard library and `parking_lot` that are taken on trust.

use core::fmt::Debug;
use parking_lot::RwLock;
use std::sync::Arc;
use std::time::Duration;
use vstd::prelude::*;

verus! {

/// `lock_api::RwLock`, of which `parking_lot::RwLock` is an instance. Nothing inside it is visible.
#[verifier::external_type_specification]
#[verifier::external_body]
#[verifier::reject_recursive_types(R)]
#[verifier::reject_recursive_types(T)]
pub struct ExRwLock<R, T: ?Sized>(parking_lot::lock_api::RwLock<R, T>);

/// `parking_lot::RawRwLock`, the raw lock inside `parking_lot::RwLock`.
#[verifier::external_type_specification]
#[verifier::external_body]
pub struct ExRawRwLock(parking_lot::RawRwLock);

/// Calls `parking_lot::RwLock::new`, which puts `value` in a new, unlocked lock.
///
/// What a lock holds later is not a function of the lock: whoever shares it may write to it. So
/// no clause describes its contents; `lock_made_from` says which value a lock was made from.
#[verifier::external_body]
fn new_rwlock<T>(value: T) -> (lock: RwLock<T>) {
    RwLock::new(value)
}

/// `lock` is what `parking_lot::RwLock::new` returned when it was given `value`.
pub closed spec fn lock_made_from<T>(lock: RwLock<T>, value: T) -> bool {
    call_ensures(new_rwlock::<T>, (value,), lock)
}

/// A new, unlocked lock made from `value`.
pub(crate) fn new_lock<T>(value: T) -> (lock: RwLock<T>)
    ensures
        lock_made_from(lock, value),
{
    new_rwlock(value)
}

/// Calls `Arc::clone`, which makes another pointer to the same allocation, hence to the same value.
#[verifier::external_body]
pub(crate) fn share<T>(pointer: &Arc<T>) -> (other: Arc<T>)
    ensures
        other == *pointer,
{
    Arc::clone(pointer)
}

/// The number of nanoseconds in a `Duration`, as `Duration::as_nanos` gives it.
pub uninterp spec fn duration_nanos(duration: Duration) -> nat;

/// Calls `Duration::from_secs`, which makes a duration of `secs` whole seconds.
#[verifier::external_body]
pub(crate) fn whole_seconds(secs: u64) -> (duration: Duration)
    ensures
        duration_nanos(duration) == secs * 1_000_000_000,
{
    Duration::from_secs(secs)
}

/// Formats `value` with `format!` and `{:?}`. What comes out is up to the `Debug` implementation of
/// `T`, so nothing is promised of it; `debug_prints` says that a text came out of this call.
#[verifier::external_body]
fn format_debug<T: Debug>(value: &T) -> (text: String) {
    format!("{:?}", value)
}

/// Formatting `value` with `{:?}` gave `text`.
pub closed spec fn debug_prints<T: Debug>(value: T, text: Seq<char>) -> bool {
    exists|s: String| #[trigger] call_ensures(format_debug::<T>, (&value,), s) && s@ == text
}

/// What `{:?}` prints for `value`.
pub(crate) fn debug_text<T: Debug>(value: &T) -> (text: String)
    ensures
        debug_prints(*value, text@),
{
    format_debug(value)
}

/// The two relations above are the calls: `RwLock::new` on the value, and formatting the value.
proof fn relations_are_the_calls<T, X: Debug>(lock: RwLock<T>, value: T, error: X, text: Seq<char>)
    ensures
        lock_made_from(lock, value) <==> call_ensures(new_rwlock::<T>, (value,), lock),
        debug_prints(error, text) ==> exists|s: String| #[trigger]
            call_ensures(format_debug::<X>, (&error,), s) && s@ == text,
{
}

} // verus!
