use std::sync::{Arc, Mutex, TryLockError};
use vstd::prelude::*;

verus! {

#[verifier::external_type_specification]
#[verifier::external_body]
#[verifier::reject_recursive_types(T)]
pub struct ExMutex<T: ?Sized>(Mutex<T>);

/// Relies on std's `Mutex::new`: an unlocked lock around the slot.
#[verifier::external_body]
fn new_slot<T>(v: Option<T>) -> Mutex<Option<T>> {
    Mutex::new(v)
}

/// What one attempt to move the value out of a shared slot found.
pub enum SlotTake<T> {
    /// The lock was free and the value was still there: it has left the slot.
    Taken(T),
    /// The lock was free but another copy had already taken the value.
    Empty,
    /// Another copy holds the lock: the slot was not touched.
    Busy,
    /// A holder of the lock panicked: the slot was not touched.
    Poisoned,
}

/// Relies on std's `Mutex::try_lock`, and on `Option::take` under the lock.
/// The slot of a `MessageData` only ever holds the value it was made with,
/// or nothing once that value was taken (`new` fills it, `clone` shares it,
/// and nothing else touches it), so a value that comes out is that value.
/// Whether it comes out depends on other threads.
#[verifier::external_body]
fn try_take_slot<T>(m: &MessageData<T>) -> (r: SlotTake<T>)
    ensures
        r matches SlotTake::Taken(v) ==> v == m.value(),
{
    match m.content.try_lock() {
        Ok(mut slot) => match slot.take() {
            Some(v) => SlotTake::Taken(v),
            None => SlotTake::Empty,
        },
        Err(TryLockError::WouldBlock) => SlotTake::Busy,
        Err(TryLockError::Poisoned(_)) => SlotTake::Poisoned,
    }
}

/// A value posted to many subscribers at once: every copy of the message
/// shares one slot, and the value leaves it at most once. A `take` that
/// meets the lock busy gives up rather than wait.
#[verifier::reject_recursive_types(T)]
pub struct MessageData<T> {
    content: Arc<Mutex<Option<T>>>,
    value: Ghost<T>,
}

/// What a `take` returns after a given attempt on the slot: the value only
/// if it was moved out; a busy or poisoned lock, like an empty slot, gives
/// nothing, and is not retried.
pub open spec fn take_result<T>(attempt: SlotTake<T>) -> Option<T> {
    match attempt {
        SlotTake::Taken(v) => Some(v),
        _ => None,
    }
}

impl<T> MessageData<T> {
    /// The value the payload was made with.
    pub closed spec fn value(&self) -> T {
        self.value@
    }

    pub fn new(content: T) -> (r: MessageData<T>)
        ensures
            r.value() == content,
    {
        let ghost v = content;
        MessageData { content: Arc::new(new_slot(Some(content))), value: Ghost(v) }
    }

    /// Moves the value out, if it is still there and the lock is free.
    pub fn take(self) -> (r: Option<T>)
        ensures
            r matches Some(v) ==> v == self.value(),
    {
        let attempt = try_take_slot(&self);
        take_outcome(attempt)
    }
}

/// Turns an attempt on the slot into what `take` returns.
pub fn take_outcome<T>(attempt: SlotTake<T>) -> (r: Option<T>)
    ensures
        r == take_result(attempt),
{
    match attempt {
        SlotTake::Taken(v) => Some(v),
        _ => None,
    }
}

impl<T> Clone for MessageData<T> {
    /// Another handle on the same slot, holding the same value.
    fn clone(&self) -> (r: MessageData<T>)
        ensures
            r.value() == self.value(),
    {
        MessageData { content: Arc::clone(&self.content), value: Ghost(self.value@) }
    }
}

/// A busy or poisoned lock yields nothing, like an empty slot; only a value
/// that was moved out is returned.
pub proof fn lemma_contended_take_is_none<T>(v: T)
    ensures
        take_result(SlotTake::<T>::Busy) is None,
        take_result(SlotTake::<T>::Poisoned) is None,
        take_result(SlotTake::<T>::Empty) is None,
        take_result(SlotTake::Taken(v)) == Some(v),
{
}

} // verus!
