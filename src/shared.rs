use vstd::prelude::*;
use std::sync::Mutex;
use std::sync::MutexGuard;
use crate::history::{deliver, LineHistory, Writable};

verus! {

/// `std::sync::Mutex`, which guards a destination shared between threads.
#[verifier::external_type_specification]
#[verifier::external_body]
#[verifier::reject_recursive_types(T)]
pub struct ExMutex<T: ?Sized>(Mutex<T>);

/// `std::sync::MutexGuard`, exclusive access to a locked value until dropped.
#[verifier::external_type_specification]
#[verifier::external_body]
#[verifier::reject_recursive_types(T)]
pub struct ExMutexGuard<'a, T: ?Sized + 'a>(MutexGuard<'a, T>);

/// Relies on `Mutex::lock`: blocks until access is exclusive; `None` when a
/// former holder panicked and left the lock poisoned.
#[verifier::external_body]
pub(crate) fn lock_shared<T>(m: &Mutex<T>) -> (r: Option<MutexGuard<'_, T>>) {
    m.lock().ok()
}

/// Relies on `MutexGuard`'s `DerefMut`: the value that the guard holds.
#[verifier::external_body]
pub(crate) fn guarded<'a, 'b, T>(g: &'a mut MutexGuard<'b, T>) -> (r: &'a mut T) {
    &mut **g
}

/// Appends `line`, if any, to a shared destination under its lock, through
/// `deliver`. A poisoned lock makes this a no-op.
pub fn deliver_shared<W: Writable>(shared: &Mutex<W>, line: Option<String>) {
    match lock_shared(shared) {
        Some(mut g) => deliver(guarded(&mut g), line),
        None => {},
    }
}

/// Empties a shared destination. A poisoned lock makes this a no-op.
pub fn flush_shared<W: Writable>(shared: &Mutex<W>) {
    match lock_shared(shared) {
        Some(mut g) => {
            let w = guarded(&mut g);
            w.flush();
        },
        None => {},
    }
}

/// Copies the most recent `max_count` lines of a shared history, oldest
/// first. A poisoned lock gives no lines.
pub fn read_tail(shared: &Mutex<LineHistory>, max_count: usize) -> (r: Vec<String>)
    ensures
        r@.len() <= max_count,
{
    match lock_shared(shared) {
        Some(mut g) => {
            let h = guarded(&mut g);
            let r = h.tail(max_count);
            assert(r@.map_values(|l: String| l@).len() == r@.len());
            r
        },
        None => Vec::new(),
    }
}

} // verus!
