//! Counters and gauges, and the summary a timer reports.
use vstd::prelude::*;
use vstd::wrapping::usize_specs::{wrapping_add, wrapping_sub};

verus! {

/// The reading of a gauge or a counter; only the instrument's own methods
/// make or change one.
pub struct Reading {
    value: usize,
}

/// A value that goes up and down; it wraps around at the bounds of `usize`.
pub struct Gauge<'a> {
    pub name: &'a str,
    pub reading: Reading,
}

impl<'a> Gauge<'a> {
    /// The name.
    pub open spec fn label(&self) -> &'a str {
        self.name
    }

    /// The current value.
    pub closed spec fn value(&self) -> usize {
        self.reading.value
    }

    /// A gauge named `name` at zero.
    pub fn new(name: &'a str) -> (r: Gauge<'a>)
        ensures
            r.label() == name,
            r.value() == 0,
    {
        Gauge { name, reading: Reading { value: 0 } }
    }

    /// Raises the gauge by `value`.
    pub fn increment(&mut self, value: usize)
        ensures
            final(self).label() == old(self).label(),
            final(self).value() == wrapping_add(old(self).value(), value),
    {
        self.reading.value = self.reading.value.wrapping_add(value);
    }

    /// Lowers the gauge by `value`.
    pub fn decrement(&mut self, value: usize)
        ensures
            final(self).label() == old(self).label(),
            final(self).value() == wrapping_sub(old(self).value(), value),
    {
        self.reading.value = self.reading.value.wrapping_sub(value);
    }

    /// The current value.
    pub fn collect(&self) -> (r: usize)
        ensures
            r == self.value(),
    {
        self.reading.value
    }
}

/// Raising a gauge by an amount and lowering it by the same amount gives back
/// its value.
pub proof fn gauge_increment_then_decrement(before: usize, amount: usize)
    ensures
        wrapping_sub(wrapping_add(before, amount), amount) == before,
{
}

/// A count that only goes up; it wraps around at the bound of `usize`.
pub struct Counter<'a> {
    pub name: &'a str,
    pub reading: Reading,
}

impl<'a> Counter<'a> {
    /// The name.
    pub open spec fn label(&self) -> &'a str {
        self.name
    }

    /// The current count.
    pub closed spec fn value(&self) -> usize {
        self.reading.value
    }

    /// A counter named `name` at zero.
    pub fn new(name: &'a str) -> (r: Counter<'a>)
        ensures
            r.label() == name,
            r.value() == 0,
    {
        Counter { name, reading: Reading { value: 0 } }
    }

    /// Adds `value` to the count.
    pub fn increment(&mut self, value: usize)
        ensures
            final(self).label() == old(self).label(),
            final(self).value() == wrapping_add(old(self).value(), value),
    {
        self.reading.value = self.reading.value.wrapping_add(value);
    }

    /// The current count.
    pub fn collect(&self) -> (r: usize)
        ensures
            r == self.value(),
    {
        self.reading.value
    }
}

/// Without wrap-around, counting `a` then `b` adds `a + b`.
pub proof fn counter_increments_add(before: usize, a: usize, b: usize)
    requires
        before + a + b <= usize::MAX,
    ensures
        wrapping_add(wrapping_add(before, a), b) == before + a + b,
{
}

/// A summary of the durations a timer recorded.
#[derive(Debug, Clone, PartialEq, Eq)]
pub struct TimerSnapshot<'a> {
    pub name: &'a str,
    pub min: u64,
    pub mean: u64,
    pub p70: u64,
    pub p90: u64,
    pub p95: u64,
    pub p99: u64,
    pub max: u64,
}

} // verus!
