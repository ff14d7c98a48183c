//! Lock-protected shared slots read by the frontend and written by worker
//! tasks.
//!
//! Each slot is independently guarded; there is no cross-slot atomicity. A
//! slot's contents are shared across threads, so nothing can be promised
//! about what a lock acquisition finds: the contracts of the slot editors
//! in `worker` say what each critical section does to the data it found.

use vstd::prelude::*;
use std::sync::{Arc, Mutex, MutexGuard};
use crate::guild::Server;
use crate::model::{Channel, Member, Message};

verus! {

#[verifier::external_type_specification]
#[verifier::external_body]
#[verifier::reject_recursive_types(T)]
pub struct ExMutex<T: ?Sized>(Mutex<T>);

#[verifier::external_type_specification]
#[verifier::external_body]
#[verifier::reject_recursive_types(T)]
pub struct ExMutexGuard<'a, T: ?Sized + 'a>(MutexGuard<'a, T>);

/// A shared-ownership handle to one lock-protected slot.
#[derive(Debug)]
#[verifier::reject_recursive_types(T)]
pub struct ArcMutex<T> {
    data: Arc<Mutex<T>>,
}

impl<T> ArcMutex<T> {
    /// Relies on std::sync::Mutex::new and Arc::new: builds a fresh slot
    /// holding `value`, shared by every clone of the returned handle.
    #[verifier::external_body]
    pub fn new(value: T) -> Self {
        Self { data: Arc::new(Mutex::new(value)) }
    }

    /// Scoped exclusive access to the slot, released when the guard is
    /// dropped. Relies on std::sync::Mutex::lock; a poisoned lock — a
    /// previous holder failed while holding it — still yields the guard
    /// with whatever data the slot holds, choosing liveness over strict
    /// consistency: one faulty writer must not make the slot unreadable.
    #[verifier::external_body]
    pub fn guard<'a>(&'a self) -> MutexGuard<'a, T> {
        match self.data.lock() {
            Ok(guard) => guard,
            Err(poisoned) => poisoned.into_inner(),
        }
    }
}

impl<T> Clone for ArcMutex<T> {
    /// Relies on Arc::clone: a new handle to the very same slot and lock —
    /// no copy of the data is made, so a write through the clone's guard
    /// is seen through the original's and vice versa. Deriving Clone would
    /// wrongly demand `T: Clone`.
    #[verifier::external_body]
    fn clone(&self) -> (r: Self)
        ensures
            r == *self,
    {
        Self { data: self.data.clone() }
    }
}

/// Relies on std::sync::MutexGuard's DerefMut: the guard dereferences to
/// the slot's data, exclusively held until the guard is dropped.
#[verifier::external_body]
pub fn slot_mut<'a, 'b, T>(guard: &'b mut MutexGuard<'a, T>) -> &'b mut T {
    &mut **guard
}

/// The latest known value per resource, one slot each. A slot holds the
/// result of the most recently completed write for that slot; slots are not
/// transactionally related, so a reader may see the channel list and the
/// message list describe different servers within one frame.
pub struct SharedCache {
    pub servers: ArcMutex<Vec<Server>>,
    pub channels: ArcMutex<(Vec<Channel>, Vec<Channel>)>,
    pub messages: ArcMutex<Vec<Message>>,
    pub members: ArcMutex<Vec<Member>>,
    pub file_bytes: ArcMutex<Vec<u8>>,
    pub file_name: ArcMutex<String>,
    pub rendered_msg_ids: ArcMutex<Vec<u64>>,
}

impl SharedCache {
    pub fn new() -> Self {
        Self {
            servers: ArcMutex::new(Vec::new()),
            channels: ArcMutex::new((Vec::new(), Vec::new())),
            messages: ArcMutex::new(Vec::new()),
            members: ArcMutex::new(Vec::new()),
            file_bytes: ArcMutex::new(Vec::new()),
            rendered_msg_ids: ArcMutex::new(Vec::new()),
            file_name: ArcMutex::new(String::new()),
        }
    }
}

} // verus!
