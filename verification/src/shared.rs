//! The shared store: one store behind one lock, reached from every
//! connection through a handle.
//!
//! Every operation takes the lock, does one step on the store and gives the
//! lock back before it returns. No operation waits for anything but the
//! lock, so the operations of all handles happen one after another, in the
//! order in which they got the lock; what holds of a store that serves a
//! history of commands holds of that order.

use crate::session::Session;
use crate::store::{Contents, Store};
use std::sync::{Arc, Mutex, MutexGuard};
use vstd::prelude::*;

verus! {

/// The lock, `std::sync::Mutex`.
#[verifier::external_type_specification]
#[verifier::external_body]
#[verifier::reject_recursive_types(T)]
pub struct ExMutex<T: ?Sized>(Mutex<T>);

/// The proof of holding the lock, `std::sync::MutexGuard`.
#[verifier::external_type_specification]
#[verifier::external_body]
#[verifier::reject_recursive_types(T)]
pub struct ExMutexGuard<'a, T: ?Sized + 'a>(MutexGuard<'a, T>);

/// A handle to the store that all connections share. Handles are cheap to
/// make and all of them reach the same store.
pub struct SharedStore {
    inner: Arc<Mutex<Store>>,
}

/// The contents of the store with which a lock was made. This is no
/// statement on what the lock holds later: that is up to those who take it.
pub uninterp spec fn made_with(lock: Mutex<Store>) -> Contents;

/// Calls `Mutex::new`, which makes a new lock that holds `store`.
#[verifier::external_body]
fn guard_store(store: Store) -> (mutex: Mutex<Store>)
    ensures
        made_with(mutex) == store@,
{
    Mutex::new(store)
}

/// Calls `Arc::clone`, which makes one more pointer to the same lock and
/// copies neither the lock nor the store.
#[verifier::external_body]
fn share(inner: &Arc<Mutex<Store>>) -> (handle: Arc<Mutex<Store>>)
    ensures
        handle == *inner,
{
    Arc::clone(inner)
}

/// Calls `Mutex::lock`, which waits until the lock is free and takes it. A
/// lock that a panicking holder left behind is taken all the same. Nothing
/// is claimed of the store that the guard gives access to: it holds what
/// the holders of the lock before left in it.
#[verifier::external_body]
fn lock<'a>(mutex: &'a Mutex<Store>) -> (guard: MutexGuard<'a, Store>) {
    match mutex.lock() {
        Ok(guard) => guard,
        Err(poisoned) => poisoned.into_inner(),
    }
}

/// Dereferences a `MutexGuard`: the store behind the lock, for as long as
/// the guard is borrowed.
#[verifier::external_body]
fn locked<'a, 'b>(guard: &'a mut MutexGuard<'b, Store>) -> (store: &'a mut Store) {
    &mut **guard
}

impl SharedStore {
    /// The contents with which the store behind this handle started out.
    /// All handles to one store agree on it.
    pub closed spec fn initial(&self) -> Contents {
        made_with(*self.inner)
    }

    /// A new store without any key, and the first handle to it.
    pub fn new() -> (shared: SharedStore)
        ensures
            shared.initial() == Contents::empty(),
    {
        SharedStore { inner: Arc::new(guard_store(Store::new())) }
    }

    /// One more handle to the same store.
    pub fn handle(&self) -> (handle: SharedStore)
        ensures
            handle == *self,
    {
        SharedStore { inner: share(&self.inner) }
    }

    /// The value that the store holds under `key` at the time of the call,
    /// or `None` where it holds none.
    pub fn get(&self, key: &str) -> (found: Option<Vec<u8>>) {
        let mut guard = lock(&self.inner);
        let store = locked(&mut guard);
        store.get(key)
    }

    /// Puts `value` under `key`, in place of any value that was there.
    pub fn set(&self, key: String, value: Vec<u8>) {
        let mut guard = lock(&self.inner);
        let store = locked(&mut guard);
        store.set(key, value);
    }

    /// Dispatches a session on the store, under the lock: the session gets
    /// the answer that the contents of the store at that time give.
    pub fn dispatch(&self, session: Session) -> (next: Session)
        ensures
            exists|contents: Contents| next@ == Session::after_dispatch(session@, contents),
    {
        let mut guard = lock(&self.inner);
        let store = locked(&mut guard);
        session.dispatch(store)
    }
}

} // verus!
