use vstd::prelude::*;

use crate::ata::PowerState;

verus! {

/// What is known of one monitored disk. Times are seconds since the Unix epoch.
#[derive(Debug)]
pub struct DeviceInfo {
    pub name: String,
    /// Idle time, in seconds, after which the disk may be put into standby.
    pub timeout: u64,
    pub power_state: PowerState,
    pub last_read_iops: u64,
    pub last_write_iops: u64,
    /// Time of the last activity seen, or of the last standby issued.
    pub last_update: u64,
}

/// A fresh observation of the disk `dev`, taken at `now`: its I/O counters
/// `(reads, writes)` and its power state. The idle timeout is not part of an
/// observation and is left at zero.
pub fn get_device_info(dev: &String, stats: (u64, u64), power_state: PowerState, now: u64) -> (r:
    DeviceInfo)
    ensures
        r.name@ == dev@,
        r.timeout == 0,
        r.power_state == power_state,
        r.last_read_iops == stats.0,
        r.last_write_iops == stats.1,
        r.last_update == now,
{
    DeviceInfo {
        name: dev.clone(),
        timeout: 0,
        power_state,
        last_read_iops: stats.0,
        last_write_iops: stats.1,
        last_update: now,
    }
}

/// A counter that moved from `cached` to `fresh` grew by at most `tolerance`.
pub open spec fn within_tolerance(cached: u64, fresh: u64, tolerance: u64) -> bool {
    cached + tolerance >= fresh
}

/// The counters of `current` are exactly those cached.
pub open spec fn counters_unchanged(cache: DeviceInfo, current: DeviceInfo) -> bool {
    current.last_read_iops == cache.last_read_iops && current.last_write_iops
        == cache.last_write_iops
}

/// The disk did no I/O that counts as activity since the cached sample.
pub open spec fn no_iops(cache: DeviceInfo, current: DeviceInfo, tolerance: u64) -> bool {
    counters_unchanged(cache, current) || (within_tolerance(
        cache.last_read_iops,
        current.last_read_iops,
        tolerance,
    ) && within_tolerance(cache.last_write_iops, current.last_write_iops, tolerance))
}

/// The cached record once the fresh sample is classified: the power state is
/// taken over, changed counters are taken over, and the clock restarts at the
/// probe time on activity above the tolerance.
pub open spec fn classify(cache: DeviceInfo, current: DeviceInfo, tolerance: u64) -> DeviceInfo {
    DeviceInfo {
        name: cache.name,
        timeout: cache.timeout,
        power_state: current.power_state,
        last_read_iops: current.last_read_iops,
        last_write_iops: current.last_write_iops,
        last_update: if no_iops(cache, current, tolerance) {
            cache.last_update
        } else {
            current.last_update
        },
    }
}

/// Standby is due: no activity, the idle time since the last update exceeds the
/// timeout, and the disk is not in standby already.
pub open spec fn standby_due(cache: DeviceInfo, current: DeviceInfo, tolerance: u64) -> bool {
    let c = classify(cache, current, tolerance);
    &&& no_iops(cache, current, tolerance)
    &&& current.last_update - c.last_update > c.timeout
    &&& c.power_state != PowerState::Standby
}

/// The cached record after a whole tick: when standby is issued the clock
/// restarts at the probe time, whatever the command's outcome.
pub open spec fn update(cache: DeviceInfo, current: DeviceInfo, tolerance: u64) -> DeviceInfo {
    let c = classify(cache, current, tolerance);
    if standby_due(cache, current, tolerance) {
        DeviceInfo { last_update: current.last_update, ..c }
    } else {
        c
    }
}

/// What one tick decided for a disk.
#[derive(Debug, Clone, Copy, PartialEq, Eq, Structural)]
pub struct TickDecision {
    /// No I/O above the tolerance since the previous sample.
    pub no_iops: bool,
    /// A STANDBY IMMEDIATE is to be issued to the disk now.
    pub issue_standby: bool,
}

/// Combines the cached record of a disk with a fresh observation `current`,
/// taken at `current.last_update`, and decides whether the disk goes into
/// standby. The cache is updated as if the standby command was issued,
/// whatever its outcome.
pub fn update_device(cache: &mut DeviceInfo, current: &DeviceInfo, iops_tolerance: u64) -> (d:
    TickDecision)
    requires
        old(cache).last_update <= current.last_update,
    ensures
        *final(cache) == update(*old(cache), *current, iops_tolerance),
        d.no_iops == no_iops(*old(cache), *current, iops_tolerance),
        d.issue_standby == standby_due(*old(cache), *current, iops_tolerance),
{
    cache.power_state = current.power_state;
    let mut quiet = false;
    if cache.last_read_iops == current.last_read_iops && cache.last_write_iops
        == current.last_write_iops {
        quiet = true;
    } else {
        let reads_ok = current.last_read_iops <= cache.last_read_iops
            || current.last_read_iops - cache.last_read_iops <= iops_tolerance;
        let writes_ok = current.last_write_iops <= cache.last_write_iops
            || current.last_write_iops - cache.last_write_iops <= iops_tolerance;
        quiet = reads_ok && writes_ok;
        cache.last_read_iops = current.last_read_iops;
        cache.last_write_iops = current.last_write_iops;
        if !quiet {
            cache.last_update = current.last_update;
        }
    }
    let issue = quiet && current.last_update - cache.last_update > cache.timeout
        && cache.power_state != PowerState::Standby;
    if issue {
        cache.last_update = current.last_update;
    }
    TickDecision { no_iops: quiet, issue_standby: issue }
}

/// What the tick tells the system-suspend logic: whether any disk seen is
/// out of standby, and the latest idle-clock time among them (zero, the Unix
/// epoch, when none was seen).
#[derive(Debug, Clone, Copy, PartialEq, Eq, Structural)]
pub struct IdleSummary {
    pub disks_running: bool,
    pub latest_update: u64,
}

impl IdleSummary {
    /// The summary of no disk.
    pub fn new() -> (r: IdleSummary)
        ensures
            !r.disks_running,
            r.latest_update == 0,
    {
        IdleSummary { disks_running: false, latest_update: 0 }
    }

    /// Takes the updated record of one more disk into account.
    pub fn record(&mut self, dev: &DeviceInfo)
        ensures
            final(self).disks_running == (old(self).disks_running || dev.power_state
                != PowerState::Standby),
            final(self).latest_update == if dev.last_update > old(self).latest_update {
                dev.last_update
            } else {
                old(self).latest_update
            },
    {
        if dev.power_state != PowerState::Standby {
            self.disks_running = true;
        }
        if dev.last_update > self.latest_update {
            self.latest_update = dev.last_update;
        }
    }

    /// The system may be suspended at `now`: every disk is in standby and
    /// `suspend_timeout` seconds have passed since the latest update.
    pub fn suspend_due(&self, now: u64, suspend_timeout: u64) -> (r: bool)
        requires
            self.latest_update <= now,
        ensures
            r == (!self.disks_running && now - self.latest_update >= suspend_timeout),
    {
        !self.disks_running && now - self.latest_update >= suspend_timeout
    }
}

/// Counters that did not move count as no I/O, and classification leaves the
/// idle clock where it was; the tick keeps it there unless it issues standby.
pub proof fn lemma_unchanged_counters_keep_clock(
    cache: DeviceInfo,
    current: DeviceInfo,
    tolerance: u64,
)
    requires
        counters_unchanged(cache, current),
    ensures
        no_iops(cache, current, tolerance),
        classify(cache, current, tolerance).last_update == cache.last_update,
        !standby_due(cache, current, tolerance) ==> update(cache, current, tolerance).last_update
            == cache.last_update,
{
}

/// With a tolerance of at least one, growth of both counters by at most the
/// tolerance counts as no I/O; growth of either beyond it counts as activity
/// and restarts the idle clock at the probe time.
pub proof fn lemma_tolerance_band(cache: DeviceInfo, current: DeviceInfo, tolerance: u64)
    requires
        tolerance >= 1,
        current.last_read_iops >= cache.last_read_iops,
        current.last_write_iops >= cache.last_write_iops,
    ensures
        current.last_read_iops - cache.last_read_iops <= tolerance && current.last_write_iops
            - cache.last_write_iops <= tolerance ==> no_iops(cache, current, tolerance),
        current.last_read_iops - cache.last_read_iops > tolerance || current.last_write_iops
            - cache.last_write_iops > tolerance ==> {
            &&& !no_iops(cache, current, tolerance)
            &&& update(cache, current, tolerance).last_update == current.last_update
        },
{
}

/// Standby is issued exactly when there was no I/O, the idle time exceeds the
/// timeout and the disk is not in standby; never to a disk already in standby.
pub proof fn lemma_standby_condition(cache: DeviceInfo, current: DeviceInfo, tolerance: u64)
    requires
        cache.last_update <= current.last_update,
    ensures
        standby_due(cache, current, tolerance) <==> {
            &&& no_iops(cache, current, tolerance)
            &&& current.last_update - cache.last_update > cache.timeout
            &&& current.power_state != PowerState::Standby
        },
        current.power_state == PowerState::Standby ==> !standby_due(cache, current, tolerance),
{
}

/// After standby is issued the idle clock stands at the probe time, and a later
/// tick without I/O issues it again only once the timeout has passed anew.
pub proof fn lemma_standby_restarts_clock(
    cache: DeviceInfo,
    current: DeviceInfo,
    next: DeviceInfo,
    tolerance: u64,
)
    requires
        standby_due(cache, current, tolerance),
        counters_unchanged(update(cache, current, tolerance), next),
        current.last_update <= next.last_update,
    ensures
        update(cache, current, tolerance).last_update == current.last_update,
        standby_due(update(cache, current, tolerance), next, tolerance) ==> next.last_update
            - current.last_update > cache.timeout,
{
}

} // verus!
