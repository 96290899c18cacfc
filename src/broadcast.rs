use vstd::prelude::*;

use watch::{WatchReceiver, WatchSender};

verus! {

#[verifier::external_type_specification]
#[verifier::external_body]
#[verifier::reject_recursive_types(T)]
pub struct ExWatchSender<T>(WatchSender<T>);

#[verifier::external_type_specification]
#[verifier::external_body]
#[verifier::reject_recursive_types(T)]
pub struct ExWatchReceiver<T>(WatchReceiver<T>);

/// Relies on watch's `Clone` for `WatchSender`: another sender of the same slot.
pub assume_specification<T>[ <WatchSender<T> as Clone>::clone ](tx: &WatchSender<T>) -> WatchSender<T>;

/// Relies on watch's `Clone` for `WatchReceiver`: another receiver of the same
/// slot, which has seen what this one has seen.
pub assume_specification<T>[ <WatchReceiver<T> as Clone>::clone ](rx: &WatchReceiver<T>) -> WatchReceiver<T>;

/// Relies on watch's `channel`: a sender and a receiver sharing one slot that
/// holds `value`. What a receiver reads later depends on every sender of the
/// slot, so nothing is promised of it.
#[verifier::external_body]
pub(crate) fn channel<T: Clone>(value: T) -> (WatchSender<T>, WatchReceiver<T>) {
    watch::channel(value)
}

/// Relies on watch's `WatchSender::send`: replaces the value of the slot
/// without blocking.
#[verifier::external_body]
pub(crate) fn send<T>(tx: &WatchSender<T>, value: T) {
    tx.send(value)
}

/// Relies on watch's `WatchSender::subscribe`: a new receiver of the slot.
#[verifier::external_body]
pub(crate) fn subscribe<T>(tx: &WatchSender<T>) -> WatchReceiver<T> {
    tx.subscribe()
}

/// Relies on watch's `WatchReceiver::get`: the latest value of the slot.
#[verifier::external_body]
pub(crate) fn latest<T: Clone>(rx: &mut WatchReceiver<T>) -> T {
    rx.get()
}

/// Relies on watch's `WatchReceiver::get_if_new`: the latest value of the slot,
/// or `None` where this receiver has already read that version.
#[verifier::external_body]
pub(crate) fn latest_if_new<T: Clone>(rx: &mut WatchReceiver<T>) -> Option<T> {
    rx.get_if_new()
}

} // verus!
