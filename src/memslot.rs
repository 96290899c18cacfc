use vstd::prelude::*;

use std::sync::{Arc, RwLock};

verus! {

#[verifier::external_type_specification]
#[verifier::external_body]
#[verifier::reject_recursive_types(T)]
pub struct ExRwLock<T: ?Sized>(RwLock<T>);

/// Relies on std's `RwLock::new`: a lock holding `value`.
#[verifier::external_body]
fn new_lock<T>(value: T) -> RwLock<T> {
    RwLock::new(value)
}

/// Relies on std's `RwLock::read`: a copy of the value held. What it is
/// depends on every writer of the slot, so nothing is promised of it. A lock
/// left poisoned by a writer that panicked is read all the same.
#[verifier::external_body]
fn read_lock<T: Clone>(lock: &RwLock<T>) -> T {
    lock.read().unwrap_or_else(std::sync::PoisonError::into_inner).clone()
}

/// Relies on std's `RwLock::write`: the value held is replaced by `value`.
/// A lock left poisoned by a writer that panicked is written all the same.
#[verifier::external_body]
fn write_lock<T>(lock: &RwLock<T>, value: T) {
    *lock.write().unwrap_or_else(std::sync::PoisonError::into_inner) = value;
}

/// Relies on std's `Clone` for `Arc`: another handle to the same value.
#[verifier::external_body]
fn share<T>(slot: &Arc<RwLock<T>>) -> Arc<RwLock<T>> {
    Arc::clone(slot)
}

/// A value shared between threads, split into a reading and a writing end.
#[verifier::reject_recursive_types(T)]
pub struct Memslot<T: Clone + Send + Sync> {
    inner: Arc<RwLock<T>>,
}

/// The reading end of a slot.
#[verifier::reject_recursive_types(T)]
pub struct ReadHalf<T: Clone + Send + Sync>(Arc<RwLock<T>>);

/// The writing end of a slot.
#[verifier::reject_recursive_types(T)]
pub struct WriteHalf<T: Clone + Send + Sync>(Arc<RwLock<T>>);

impl<T: Clone + Send + Sync> Memslot<T> {
    /// A slot holding `value`.
    pub fn new(value: T) -> Self {
        Memslot { inner: Arc::new(new_lock(value)) }
    }

    /// The writing and the reading end of the slot.
    pub fn split(self) -> (WriteHalf<T>, ReadHalf<T>) {
        let read = ReadHalf(share(&self.inner));
        let write = WriteHalf(share(&self.inner));
        (write, read)
    }
}

impl<T: Clone + Send + Sync> Clone for ReadHalf<T> {
    fn clone(&self) -> Self {
        ReadHalf(share(&self.0))
    }
}

impl<T: Clone + Send + Sync> Clone for WriteHalf<T> {
    fn clone(&self) -> Self {
        WriteHalf(share(&self.0))
    }
}

impl<T: Clone + Send + Sync> ReadHalf<T> {
    /// A copy of the value in the slot now.
    pub fn get(&self) -> T {
        read_lock(&self.0)
    }
}

impl<T: Clone + Send + Sync> WriteHalf<T> {
    /// Replaces the value in the slot.
    pub fn set(&mut self, new: T) {
        write_lock(&self.0, new)
    }
}

} // verus!
