//! Kafka plumbing shared by the services: configuration, the small futures
//! that hand results between threads, and the consumers' routing decisions.
pub mod request_consumer;
pub mod offset_counter;
pub mod push_consumer;
pub mod response_producer;
use vstd::prelude::*;
use std::sync::{Arc, Mutex};

verus! {

/// `std::sync::Mutex`, held by the hand-off futures below.
#[verifier::external_type_specification]
#[verifier::external_body]
#[verifier::reject_recursive_types(T)]
pub struct ExMutex<T: ?Sized>(Mutex<T>);

/// Calls `Arc::clone`, which makes a new pointer to the same allocation, so the
/// clone holds the same value.
#[verifier::external_body]
fn arc_clone<T>(a: &Arc<T>) -> (r: Arc<T>)
    ensures
        r == *a,
{
    a.clone()
}

/// Kafka topics, consumer group and brokers.
#[derive(Debug, Clone, PartialEq, Eq)]
pub struct Config {
    /// Kafka topic for incoming `PushNotification` events, triggering a push
    /// notification to be sent.
    pub input_topic: String,
    /// Kafka topic for incoming `Application` events, holding the tenant
    /// configuration.
    pub config_topic: String,
    /// Kafka topic for push notification responses.
    pub output_topic: String,
    /// Kafka consumer group ID.
    pub group_id: String,
    /// A comma-separated list of Kafka brokers to connect.
    pub brokers: String,
}

/// Success or failure of a hand-off.
#[derive(Debug, Clone, Copy, PartialEq, Eq, Structural)]
pub enum Erro {
    Done,
    Failed,
}

/// A future that is ready at once with the value it holds.
pub struct Rdy {
    pub inner: Erro,
}

impl Rdy {
    /// The held value.
    pub fn get(&self) -> (r: Erro)
        ensures
            r == self.inner,
    {
        match &self.inner {
            Erro::Done => Erro::Done,
            Erro::Failed => Erro::Failed,
        }
    }

    /// A future holding a copy of `item`.
    pub fn new(item: &Erro) -> (r: Rdy)
        ensures
            r.inner == *item,
    {
        Rdy {
            inner: match item {
                Erro::Done => Erro::Done,
                Erro::Failed => Erro::Failed,
            },
        }
    }
}

/// One poll of a future: a value, or not yet.
#[derive(Debug, Clone, PartialEq, Eq)]
pub enum PollOutcome<T> {
    Ready(T),
    Pending,
}

/// What a hand-off slot says about a send that another thread performs:
/// empty while it runs, then `Some(None)` for success, `Some(Some(Some(e)))`
/// for a failure with its error, `Some(Some(None))` for a failure without one.
pub type SendSlot<T> = Option<Option<Option<Arc<T>>>>;

/// The value a `Whoosh` yields for a slot; `None` stands for a poisoned lock.
pub open spec fn whoosh_outcome<T>(slot: Option<SendSlot<T>>) -> PollOutcome<Result<(), Result<Arc<T>, ()>>> {
    match slot {
        None => PollOutcome::Ready(Err(Err(()))),
        Some(None) => PollOutcome::Pending,
        Some(Some(None)) => PollOutcome::Ready(Ok(())),
        Some(Some(Some(Some(e)))) => PollOutcome::Ready(Err(Ok(e))),
        Some(Some(Some(None))) => PollOutcome::Ready(Err(Err(()))),
    }
}

/// A future over a slot that a sending thread fills in.
#[verifier::reject_recursive_types(T)]
pub struct Whoosh<T> {
    inner: Arc<Mutex<SendSlot<T>>>,
}

impl<T> Whoosh<T> {
    /// The shared slot.
    pub closed spec fn slot(&self) -> Arc<Mutex<SendSlot<T>>> {
        self.inner
    }

    /// Another handle to the shared slot.
    pub fn get(&self) -> (r: Arc<Mutex<SendSlot<T>>>)
        ensures
            r == self.slot(),
    {
        arc_clone(&self.inner)
    }

    /// A future over `item`.
    pub fn new(item: Arc<Mutex<SendSlot<T>>>) -> (r: Self)
        ensures
            r.slot() == item,
    {
        Whoosh { inner: item }
    }

    /// What one poll yields, given the locked slot (`None` when the lock is poisoned).
    pub fn poll_slot(slot: Option<&SendSlot<T>>) -> (r: PollOutcome<Result<(), Result<Arc<T>, ()>>>)
        ensures
            r == whoosh_outcome(match slot { Some(s) => Some(*s), None => None }),
    {
        match slot {
            None => PollOutcome::Ready(Err(Err(()))),
            Some(s) => match s {
                None => PollOutcome::Pending,
                Some(None) => PollOutcome::Ready(Ok(())),
                Some(Some(Some(e))) => PollOutcome::Ready(Err(Ok(arc_clone(e)))),
                Some(Some(None)) => PollOutcome::Ready(Err(Err(()))),
            },
        }
    }
}

/// A future that fails at once; it keeps the value it was made from.
pub struct GenericRor<T> {
    dummy: T,
}

impl<T> GenericRor<T> {
    /// The kept value.
    pub closed spec fn kept(&self) -> T {
        self.dummy
    }

    /// A failing future that keeps `item`.
    pub fn new(item: T) -> (r: GenericRor<T>)
        ensures
            r.kept() == item,
    {
        GenericRor { dummy: item }
    }

    /// What every poll yields: a failure without an error value.
    pub fn poll_once(&self) -> (r: PollOutcome<Result<(), Result<Arc<T>, ()>>>)
        ensures
            r == PollOutcome::<Result<(), Result<Arc<T>, ()>>>::Ready(Err(Err(()))),
    {
        PollOutcome::Ready(Err(Err(())))
    }
}

/// The value a `GenericFut` yields; `None` stands for a poisoned lock.
pub open spec fn generic_fut_outcome<T>(slot: Option<Option<Arc<T>>>) -> PollOutcome<Result<Arc<T>, ()>> {
    match slot {
        None => PollOutcome::Ready(Err(())),
        Some(Some(v)) => PollOutcome::Ready(Ok(v)),
        Some(None) => PollOutcome::Pending,
    }
}

/// A future over a slot that another thread fills with a value.
#[verifier::reject_recursive_types(T)]
pub struct GenericFut<T> {
    inner: Arc<Mutex<Option<Arc<T>>>>,
}

impl<T> GenericFut<T> {
    /// The shared slot.
    pub closed spec fn slot(&self) -> Arc<Mutex<Option<Arc<T>>>> {
        self.inner
    }

    /// A future over `item`.
    pub fn new(item: Arc<Mutex<Option<Arc<T>>>>) -> (r: GenericFut<T>)
        ensures
            r.slot() == item,
    {
        GenericFut { inner: item }
    }

    /// Another handle to the shared slot.
    pub fn get(&self) -> (r: Arc<Mutex<Option<Arc<T>>>>)
        ensures
            r == self.slot(),
    {
        arc_clone(&self.inner)
    }

    /// What one poll yields, given the locked slot (`None` when the lock is poisoned).
    pub fn poll_slot(slot: Option<&Option<Arc<T>>>) -> (r: PollOutcome<Result<Arc<T>, ()>>)
        ensures
            r == generic_fut_outcome(match slot { Some(s) => Some(*s), None => None }),
    {
        match slot {
            None => PollOutcome::Ready(Err(())),
            Some(Some(v)) => PollOutcome::Ready(Ok(arc_clone(v))),
            Some(None) => PollOutcome::Pending,
        }
    }
}

/// The value a `FutureMime` yields; `None` stands for a poisoned lock.
pub open spec fn future_mime_outcome(slot: Option<Option<Result<(), ()>>>) -> PollOutcome<Result<(), ()>> {
    match slot {
        None => PollOutcome::Ready(Err(())),
        Some(Some(Ok(()))) => PollOutcome::Ready(Ok(())),
        Some(Some(Err(()))) => PollOutcome::Ready(Err(())),
        Some(None) => PollOutcome::Pending,
    }
}

/// A future over a slot that a worker thread fills with its result.
pub struct FutureMime {
    inner: Arc<Mutex<Option<Result<(), ()>>>>,
}

impl FutureMime {
    /// The shared slot.
    pub closed spec fn slot(&self) -> Arc<Mutex<Option<Result<(), ()>>>> {
        self.inner
    }

    /// A future over `item`.
    pub fn new(item: Arc<Mutex<Option<Result<(), ()>>>>) -> (r: Self)
        ensures
            r.slot() == item,
    {
        FutureMime { inner: item }
    }

    /// Another handle to the shared slot.
    pub fn get(&self) -> (r: Arc<Mutex<Option<Result<(), ()>>>>)
        ensures
            r == self.slot(),
    {
        arc_clone(&self.inner)
    }

    /// What one poll yields, given the locked slot (`None` when the lock is poisoned).
    pub fn poll_slot(slot: Option<&Option<Result<(), ()>>>) -> (r: PollOutcome<Result<(), ()>>)
        ensures
            r == future_mime_outcome(match slot { Some(s) => Some(*s), None => None }),
    {
        match slot {
            None => PollOutcome::Ready(Err(())),
            Some(Some(Ok(()))) => PollOutcome::Ready(Ok(())),
            Some(Some(Err(()))) => PollOutcome::Ready(Err(())),
            Some(None) => PollOutcome::Pending,
        }
    }
}

} // verus!
