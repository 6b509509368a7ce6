//! The per-run configuration snapshot.

use vstd::prelude::*;
use crate::geometry::Rect;

verus! {

/// One run's settings: the target click rate, the repeat bound and the
/// optional region. A value of this type is immutable per run: the engine
/// snapshots it when a run starts and never re-reads it mid-run, so a later
/// update is visible only to the next start.
#[derive(Clone, Copy, PartialEq, Eq, Debug)]
pub struct Config {
    /// Target clicks per second; floored at 1 when the suspension interval
    /// is computed, so a zero rate never divides by zero nor runs away.
    pub cps: u32,
    /// Maximum clicks per run; 0 means unbounded.
    pub repeat: u32,
    /// Optional region bound: clicking continues only while the pointer
    /// stays inside it.
    pub region: Option<Rect>,
}

impl Config {
    /// The suspension interval between clicks, in nanoseconds: one second
    /// divided by the rate floored at 1.
    pub open spec fn spec_interval_nanos(self) -> u64 {
        (1_000_000_000int / (if self.cps == 0 { 1int } else { self.cps as int })) as u64
    }

    /// Computes the interval the loop suspends for after each click.
    pub fn interval_nanos(&self) -> (n: u64)
        ensures
            n == self.spec_interval_nanos(),
    {
        let cps: u64 = if self.cps == 0 { 1 } else { self.cps as u64 };
        1_000_000_000u64 / cps
    }
}

} // verus!
