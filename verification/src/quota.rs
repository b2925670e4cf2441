//! The quota probe: the effective CPU budget and memory ceiling available to
//! the process, combining host totals, container cgroup limits and an
//! operator override. CPU budgets are held in thousandths of a core so that
//! fractional cgroup quotas keep their precision; for every constraint a
//! value of zero means "not present" and never tightens the bound.

use std::io::Write;
use vstd::prelude::*;

verus! {

/// Thousandths of a core per core.
pub const MILLIS_PER_CORE: u64 = 1000;

/// A whole number of cores, expressed in thousandths of a core; saturates at
/// the largest representable budget.
pub open spec fn spec_cores_to_millis(cores: u64) -> u64 {
    if cores > u64::MAX / 1000 {
        u64::MAX
    } else {
        (cores * 1000) as u64
    }
}

/// The smaller of two budgets.
pub open spec fn spec_min_u64(a: u64, b: u64) -> u64 {
    if a <= b {
        a
    } else {
        b
    }
}

/// The effective CPU budget before the operator override: the host budget,
/// tightened by the cgroup CPU-set size and the cgroup CPU-time quota where
/// those are present.
pub open spec fn spec_cpu_quota_unconstrained(
    host_millis: u64,
    cpuset_millis: u64,
    quota_millis: u64,
) -> u64 {
    let with_cpuset = if cpuset_millis > 0 {
        spec_min_u64(host_millis, cpuset_millis)
    } else {
        host_millis
    };
    if quota_millis > 0 {
        spec_min_u64(with_cpuset, quota_millis)
    } else {
        with_cpuset
    }
}

/// The effective CPU budget: the unconstrained combination, further clamped
/// by a positive operator override. The override can only tighten the
/// bound, never loosen it.
pub open spec fn spec_cpu_quota_millis(
    host_millis: u64,
    cpuset_millis: u64,
    quota_millis: u64,
    env_millis: u64,
) -> u64 {
    let computed = spec_cpu_quota_unconstrained(host_millis, cpuset_millis, quota_millis);
    if env_millis > 0 {
        spec_min_u64(computed, env_millis)
    } else {
        computed
    }
}

/// Converts a whole core count to thousandths of a core, saturating.
pub fn cores_to_millis(cores: u64) -> (r: u64)
    ensures
        r == spec_cores_to_millis(cores),
{
    if cores > u64::MAX / MILLIS_PER_CORE {
        u64::MAX
    } else {
        cores * MILLIS_PER_CORE
    }
}

fn min_u64(a: u64, b: u64) -> (r: u64)
    ensures
        r == spec_min_u64(a, b),
{
    if a <= b {
        a
    } else {
        b
    }
}

/// Combines every CPU constraint that is actually present into the effective
/// budget, in thousandths of a core. `cpuset_cores` is the number of cores
/// in the container's CPU set, `quota_millis` the container's CPU-time quota
/// and `env_millis` the operator override, each with zero meaning "not
/// present".
pub fn combine_cpu_quota(
    host_cores: u64,
    cpuset_cores: u64,
    quota_millis: u64,
    env_millis: u64,
) -> (r: u64)
    ensures
        r == spec_cpu_quota_millis(
            spec_cores_to_millis(host_cores),
            spec_cores_to_millis(cpuset_cores),
            quota_millis,
            env_millis,
        ),
{
    let host_millis = cores_to_millis(host_cores);
    let cpuset_millis = cores_to_millis(cpuset_cores);
    let with_cpuset = if cpuset_millis > 0 {
        min_u64(host_millis, cpuset_millis)
    } else {
        host_millis
    };
    let computed = if quota_millis > 0 {
        min_u64(with_cpuset, quota_millis)
    } else {
        with_cpuset
    };
    if env_millis > 0 {
        min_u64(computed, env_millis)
    } else {
        computed
    }
}

/// The CPU budget a CFS bandwidth pair stands for, in thousandths of a
/// core: nothing where either figure is absent or non-positive, else the
/// quota-to-period ratio, saturating.
pub open spec fn spec_cfs_quota_millis(quota_us: i64, period_us: i64) -> u64 {
    if quota_us <= 0 || period_us <= 0 {
        0
    } else {
        let v = quota_us * 1000 / (period_us as int);
        if v > u64::MAX {
            u64::MAX
        } else {
            v as u64
        }
    }
}

/// Converts a CFS bandwidth pair (quota and period, both in microseconds)
/// to thousandths of a core. A missing or unconstrained quota, encoded as a
/// non-positive figure, yields zero: "no constraint present".
pub fn cfs_quota_millis(quota_us: i64, period_us: i64) -> (r: u64)
    ensures
        r == spec_cfs_quota_millis(quota_us, period_us),
{
    if quota_us <= 0 || period_us <= 0 {
        0
    } else {
        let wide: u128 = (quota_us as u128) * 1000 / (period_us as u128);
        if wide > (u64::MAX as u128) {
            u64::MAX
        } else {
            wide as u64
        }
    }
}

/// Effective memory budget in bytes: the host total, tightened by a
/// container memory limit only where that limit is present and positive.
pub fn memory_ceiling(host_total: u64, cgroup_limit: i64) -> (r: u64)
    ensures
        cgroup_limit <= 0 ==> r == host_total,
        cgroup_limit > 0 ==> r == spec_min_u64(host_total, cgroup_limit as u64),
{
    if cgroup_limit <= 0 {
        host_total
    } else {
        min_u64(host_total, cgroup_limit as u64)
    }
}

/// The CPU budget never exceeds the host budget; a positive operator
/// override below the computed budget becomes the result, and one at or
/// above it changes nothing.
pub proof fn lemma_cpu_quota_bounds(
    host_millis: u64,
    cpuset_millis: u64,
    quota_millis: u64,
    env_millis: u64,
)
    ensures
        spec_cpu_quota_millis(host_millis, cpuset_millis, quota_millis, env_millis)
            <= host_millis,
        env_millis > 0 && env_millis < spec_cpu_quota_unconstrained(
            host_millis,
            cpuset_millis,
            quota_millis,
        ) ==> spec_cpu_quota_millis(host_millis, cpuset_millis, quota_millis, env_millis)
            == env_millis,
        env_millis >= spec_cpu_quota_unconstrained(host_millis, cpuset_millis, quota_millis)
            ==> spec_cpu_quota_millis(host_millis, cpuset_millis, quota_millis, env_millis)
            == spec_cpu_quota_unconstrained(host_millis, cpuset_millis, quota_millis),
{
}

/// The memory ceiling equals the host total when no positive container
/// limit is present, and the smaller of the two when one is.
pub proof fn lemma_memory_ceiling(host_total: u64, cgroup_limit: i64)
    ensures
        cgroup_limit <= 0 ==> spec_memory_ceiling(host_total, cgroup_limit) == host_total,
        cgroup_limit > 0 ==> spec_memory_ceiling(host_total, cgroup_limit) == spec_min_u64(
            host_total,
            cgroup_limit as u64,
        ),
{
}

/// The memory ceiling as a function of the host total and the container
/// limit.
pub open spec fn spec_memory_ceiling(host_total: u64, cgroup_limit: i64) -> u64 {
    if cgroup_limit <= 0 {
        host_total
    } else {
        spec_min_u64(host_total, cgroup_limit as u64)
    }
}

/// Relies on `num_cpus::get`: the number of logical CPUs available to the
/// process, documented to always be at least one.
#[verifier::external_body]
fn host_logical_cpus() -> (r: u64)
    ensures
        r >= 1,
{
    num_cpus::get() as u64
}

/// Relies on `sysinfo::System::total_memory` after a memory refresh: the
/// host's total RAM in bytes.
#[verifier::external_body]
fn host_total_memory_bytes() -> (r: u64) {
    let system = sysinfo::System::new_with_specifics(
        sysinfo::RefreshKind::nothing().with_memory(sysinfo::MemoryRefreshKind::everything()),
    );
    system.total_memory()
}

/// Relies on `writeln` to standard output for the diagnostic line.
#[verifier::external_body]
fn emit_quota_line(memory_limit: u64, cpu_quota_millis: u64, cgroup_memory_limit: i64) {
    let _ = writeln!(
        std::io::stdout(),
        "memory limit in bytes: {}, cpu quota in millicores: {}, cgroup memory limit: {}",
        memory_limit,
        cpu_quota_millis,
        cgroup_memory_limit,
    );
}

/// The quota probe. Stateless: every call combines the current host
/// readings with the container figures the caller read, so sizing decisions
/// always reflect the present environment.
pub struct SysQuota;

impl SysQuota {
    /// The effective CPU budget of the process in thousandths of a core,
    /// combining the host's logical core count with the container CPU-set
    /// size, the container CPU-time quota and the operator override, each
    /// with zero meaning "not present". Never fails: absent constraints
    /// simply do not tighten the bound.
    pub fn cpu_cores_quota(cpuset_cores: u64, quota_millis: u64, env_millis: u64) -> (r: u64)
        ensures
            exists|host_millis: u64|
                host_millis >= MILLIS_PER_CORE && r == #[trigger] spec_cpu_quota_millis(
                    host_millis,
                    spec_cores_to_millis(cpuset_cores),
                    quota_millis,
                    env_millis,
                ),
            cpuset_cores > 0 ==> r <= spec_cores_to_millis(cpuset_cores),
            quota_millis > 0 ==> r <= quota_millis,
            env_millis > 0 ==> r <= env_millis,
            cpuset_cores == 0 && quota_millis == 0 && env_millis == 0 ==> r
                >= MILLIS_PER_CORE,
    {
        let host_cores = host_logical_cpus();
        proof {
            assert(spec_cores_to_millis(host_cores) >= 1000);
        }
        let r = combine_cpu_quota(host_cores, cpuset_cores, quota_millis, env_millis);
        proof {
            assert(r == spec_cpu_quota_millis(
                spec_cores_to_millis(host_cores),
                spec_cores_to_millis(cpuset_cores),
                quota_millis,
                env_millis,
            ));
        }
        r
    }

    /// The effective memory budget of the process in bytes: the host total,
    /// tightened by the container memory limit the caller read, where a
    /// non-positive limit means "not present". Never fails.
    pub fn memory_limit_in_bytes(cgroup_limit: i64) -> (r: u64)
        ensures
            exists|host_total: u64| r == #[trigger] spec_memory_ceiling(host_total, cgroup_limit),
            cgroup_limit > 0 ==> r <= cgroup_limit as u64,
    {
        let host_total = host_total_memory_bytes();
        let r = memory_ceiling(host_total, cgroup_limit);
        proof {
            assert(r == spec_memory_ceiling(host_total, cgroup_limit));
        }
        r
    }

    /// Emits one diagnostic line with the computed quotas and the container
    /// figures they were derived from.
    pub fn log_quota(
        cpuset_cores: u64,
        quota_millis: u64,
        env_millis: u64,
        cgroup_memory_limit: i64,
    ) {
        let memory_limit = Self::memory_limit_in_bytes(cgroup_memory_limit);
        let cpu_quota = Self::cpu_cores_quota(cpuset_cores, quota_millis, env_millis);
        emit_quota_line(memory_limit, cpu_quota, cgroup_memory_limit);
    }
}

} // verus!
