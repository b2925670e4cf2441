//! The process-wide memory-pressure monitor: a usage estimate refreshed by a
//! periodic caller and a high-water mark registered once during startup
//! sizing. The monitor only reports the boolean pressure condition; what to
//! do about it is the caller's business.
//!
//! The process holds exactly one instance for its whole lifetime; every
//! operation is a plain read or overwrite of one scalar, with no
//! cross-field consistency requirement.

use vstd::prelude::*;

verus! {

/// The product of two byte counts, saturating at the largest representable
/// value.
pub open spec fn spec_mul_saturating(a: u64, b: u64) -> u64 {
    if a * b > u64::MAX {
        u64::MAX
    } else {
        (a * b) as u64
    }
}

/// Multiplies two byte counts, saturating.
pub fn mul_saturating(a: u64, b: u64) -> (r: u64)
    ensures
        r == spec_mul_saturating(a, b),
{
    proof {
        assert((a as int) * (b as int) <= (u64::MAX as int) * (u64::MAX as int))
            by (nonlinear_arith)
            requires
                a as int <= u64::MAX as int,
                b as int <= u64::MAX as int,
        ;
    }
    let wide = (a as u128) * (b as u128);
    if wide > u64::MAX as u128 {
        u64::MAX
    } else {
        wide as u64
    }
}

/// Relies on `procinfo::pid::statm_self`: the `resident` field of the
/// process's memory status, in pages; absent where the status cannot be
/// read.
#[verifier::external_body]
fn resident_pages() -> (r: Option<u64>) {
    procinfo::pid::statm_self().ok().map(|s| s.resident as u64)
}

/// Relies on `page_size::get`: the system's memory page size in bytes.
#[verifier::external_body]
fn page_size_bytes() -> (r: u64) {
    page_size::get() as u64
}

/// The process-wide memory-pressure monitor: a best-effort usage snapshot,
/// the registered high-water mark, and the deterministic override hook that
/// lets a test force the pressure condition without exhausting memory.
pub struct MemoryPressureMonitor {
    usage: u64,
    high_water: u64,
    forced: bool,
}

impl MemoryPressureMonitor {
    /// The current usage estimate in bytes.
    pub closed spec fn spec_usage(&self) -> u64 {
        self.usage
    }

    /// The registered high-water mark in bytes.
    pub closed spec fn spec_high_water(&self) -> u64 {
        self.high_water
    }

    /// Whether the test override forces the pressure condition.
    pub closed spec fn spec_forced(&self) -> bool {
        self.forced
    }

    /// A fresh monitor: no usage recorded yet, and a mark at the largest
    /// representable value, so that no pressure is reported before a mark
    /// is registered.
    pub fn new() -> (r: MemoryPressureMonitor)
        ensures
            r.spec_usage() == 0,
            r.spec_high_water() == u64::MAX,
            !r.spec_forced(),
    {
        MemoryPressureMonitor { usage: 0, high_water: u64::MAX, forced: false }
    }

    /// The current global memory usage in bytes, as last recorded.
    pub fn get_global_memory_usage(&self) -> (r: u64)
        ensures
            r == self.spec_usage(),
    {
        self.usage
    }

    /// Overwrites the usage estimate with the given snapshot.
    pub fn set_usage(&mut self, usage: u64)
        ensures
            final(self).spec_usage() == usage,
            final(self).spec_high_water() == old(self).spec_high_water(),
            final(self).spec_forced() == old(self).spec_forced(),
    {
        self.usage = usage;
    }

    /// Samples the process's resident memory and overwrites the usage
    /// estimate with it. Where no sample can be taken the estimate becomes
    /// zero: the absence of data is never dressed up as a plausible figure,
    /// and callers must not read zero as a guarantee of low usage.
    pub fn record_global_memory_usage(&mut self)
        ensures
            final(self).spec_high_water() == old(self).spec_high_water(),
            final(self).spec_forced() == old(self).spec_forced(),
    {
        let sample = match resident_pages() {
            Some(pages) => mul_saturating(pages, page_size_bytes()),
            None => 0,
        };
        self.set_usage(sample);
    }

    /// Registers the high-water mark. Meant to be called once during
    /// startup sizing, but safe to call again: the last writer wins.
    pub fn register_memory_usage_high_water(&mut self, mark: u64)
        ensures
            final(self).spec_high_water() == mark,
            final(self).spec_usage() == old(self).spec_usage(),
            final(self).spec_forced() == old(self).spec_forced(),
    {
        self.high_water = mark;
    }

    /// Whether the recorded usage has reached the high-water mark, writing
    /// the usage that was compared into `usage`. When the test override is
    /// on, reports pressure at once and leaves `usage` untouched.
    pub fn memory_usage_reaches_high_water(&self, usage: &mut u64) -> (r: bool)
        ensures
            self.spec_forced() ==> r && *final(usage) == *old(usage),
            !self.spec_forced() ==> {
                &&& *final(usage) == self.spec_usage()
                &&& r == (self.spec_usage() >= self.spec_high_water())
            },
    {
        if self.forced {
            return true;
        }
        *usage = self.usage;
        self.usage >= self.high_water
    }

    /// The deterministic test hook: while on, the pressure check reports
    /// pressure regardless of the recorded usage. Production code never
    /// turns it on.
    pub fn force_memory_usage_high_water(&mut self, on: bool)
        ensures
            final(self).spec_forced() == on,
            final(self).spec_usage() == old(self).spec_usage(),
            final(self).spec_high_water() == old(self).spec_high_water(),
    {
        self.forced = on;
    }
}

impl Default for MemoryPressureMonitor {
    /// The same state as [`MemoryPressureMonitor::new`].
    fn default() -> (r: MemoryPressureMonitor)
        ensures
            r.spec_usage() == 0,
            r.spec_high_water() == u64::MAX,
            !r.spec_forced(),
    {
        MemoryPressureMonitor::new()
    }
}

} // verus!
