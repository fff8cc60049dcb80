//! When to store the consumer's Kafka offset.
use vstd::prelude::*;
use std::time::SystemTime;

verus! {

/// `std::time::SystemTime`, the moment of the last stored offset.
#[verifier::external_type_specification]
#[verifier::external_body]
pub struct ExSystemTime(SystemTime);

/// Calls `SystemTime::now`; nothing is promised of the moment it returns.
#[verifier::external_body]
fn system_time_now() -> SystemTime {
    SystemTime::now()
}

/// Calls `SystemTime::elapsed` and keeps whole seconds; `None` when the clock
/// went backwards. Nothing is promised of the value, which depends on the clock.
#[verifier::external_body]
fn elapsed_secs(t: &SystemTime) -> Option<u64> {
    match t.elapsed() {
        Ok(d) => Some(d.as_secs()),
        Err(_) => None,
    }
}

/// Seconds after which the offset is stored.
pub const STORE_INTERVAL_SECS: u64 = 10;

/// Number of events after which the offset is stored.
pub const STORE_EVENT_COUNT: i32 = 500;

/// Why an offset was not stored.
#[derive(Debug, Clone, Copy, PartialEq, Eq, Structural)]
pub enum OffsetError {
    /// Neither the time nor the event count calls for it yet.
    NoTimeToSave,
    /// The consumer refused to store it.
    CouldNotSave,
}

/// Whether a store is due: more than ten seconds passed, the clock went
/// backwards (`None`), or 500 events were counted.
pub open spec fn store_due(counter: i32, elapsed: Option<u64>) -> bool {
    match elapsed {
        None => true,
        Some(secs) => secs > STORE_INTERVAL_SECS || counter >= STORE_EVENT_COUNT,
    }
}

/// The event count once one more event is counted; it stops at the largest
/// `i32`.
pub open spec fn counted(counter: i32) -> i32 {
    if counter < i32::MAX { (counter + 1) as i32 } else { counter }
}

/// Counts events and the time since the offset was last stored.
pub struct OffsetCounter {
    counter: i32,
    time: SystemTime,
}

impl OffsetCounter {
    /// Events counted since the last store.
    pub closed spec fn count(&self) -> i32 {
        self.counter
    }

    /// The moment of the last store (or of creation).
    pub closed spec fn last_store(&self) -> SystemTime {
        self.time
    }

    /// A helper to store Kafka offsets, starting now with no events counted.
    pub fn new() -> (r: OffsetCounter)
        ensures
            r.count() == 0,
    {
        OffsetCounter { counter: 0, time: system_time_now() }
    }

    /// Counts one event and stores the offset (through `store`) if a store is
    /// due after `elapsed` seconds, counting this event; otherwise only the
    /// event is counted.
    pub fn try_store_offset_after<F: FnOnce() -> bool>(&mut self, elapsed: Option<u64>, store: F) -> (r: Result<(), OffsetError>)
        requires
            store.requires(()),
        ensures
            !store_due(counted(old(self).count()), elapsed) ==> r == Err::<(), OffsetError>(OffsetError::NoTimeToSave),
            store_due(counted(old(self).count()), elapsed) ==> r != Err::<(), OffsetError>(OffsetError::NoTimeToSave),
            r is Ok ==> final(self).count() == 0 && store.ensures((), true),
            r is Err ==> final(self).count() == counted(old(self).count())
                && final(self).last_store() == old(self).last_store(),
            r == Err::<(), OffsetError>(OffsetError::CouldNotSave) ==> store.ensures((), false),
    {
        if self.counter < i32::MAX {
            self.counter = self.counter + 1;
        }
        let due = match elapsed {
            None => true,
            Some(secs) => secs > STORE_INTERVAL_SECS || self.counter >= STORE_EVENT_COUNT,
        };
        if due {
            self.store_offset(store)
        } else {
            Err(OffsetError::NoTimeToSave)
        }
    }

    /// Counts one event and stores the offset every 10 seconds or 500
    /// events, reading the clock.
    pub fn try_store_offset<F: FnOnce() -> bool>(&mut self, store: F) -> (r: Result<(), OffsetError>)
        requires
            store.requires(()),
        ensures
            counted(old(self).count()) >= STORE_EVENT_COUNT ==> r != Err::<(), OffsetError>(OffsetError::NoTimeToSave),
            r is Ok ==> final(self).count() == 0 && store.ensures((), true),
            r is Err ==> final(self).count() == counted(old(self).count())
                && final(self).last_store() == old(self).last_store(),
            r == Err::<(), OffsetError>(OffsetError::CouldNotSave) ==> store.ensures((), false),
    {
        let elapsed = elapsed_secs(&self.time);
        self.try_store_offset_after(elapsed, store)
    }

    /// Stores offset immediately (through `store`); on success the count and
    /// the clock start over, on failure both are kept.
    pub fn store_offset<F: FnOnce() -> bool>(&mut self, store: F) -> (r: Result<(), OffsetError>)
        requires
            store.requires(()),
        ensures
            r is Ok ==> final(self).count() == 0 && store.ensures((), true),
            r is Err ==> r == Err::<(), OffsetError>(OffsetError::CouldNotSave)
                && final(self).count() == old(self).count()
                && final(self).last_store() == old(self).last_store()
                && store.ensures((), false),
    {
        if store() {
            self.counter = 0;
            self.time = system_time_now();
            Ok(())
        } else {
            Err(OffsetError::CouldNotSave)
        }
    }
}

/// An event that brings the count since the last store to 500 calls for a
/// store, however little time passed.
pub proof fn store_after_event_count(count: i32, elapsed: Option<u64>)
    requires
        count >= STORE_EVENT_COUNT - 1,
    ensures
        store_due(counted(count), elapsed),
{
}

} // verus!
