//! The system resources module: the metrics for CPU, memory and disks.
use vstd::prelude::*;
use crate::model::{is_sample, Metric, ModuleMetadata, MonitorModule};
use crate::text::owned;

verus! {

/// The system resources module. The host reads the machine's figures and
/// hands them over as numbers.
pub struct SystemModule;

impl SystemModule {
    pub fn new() -> (m: SystemModule) {
        SystemModule
    }
}

impl MonitorModule for SystemModule {
    fn metadata(&self) -> (m: ModuleMetadata)
        ensures
            m.name@ == "System Resources"@,
            m.version@ == "0.1.0"@,
            m.author@ == "Metrics Core Team"@,
            m.description@ == "Monitor CPU, RAM, and disk utilization"@,
            m.default_config@ == "{}"@,
    {
        ModuleMetadata {
            name: owned("System Resources"),
            version: owned("0.1.0"),
            author: owned("Metrics Core Team"),
            description: owned("Monitor CPU, RAM, and disk utilization"),
            default_config: owned("{}"),
        }
    }
}

/// The module's configuration: report fixed sample values instead of the
/// machine's figures when `mock` is set.
pub struct SystemConfig {
    pub mock: bool,
}

/// Whether to report sample values: only a configuration that reads as a
/// `SystemConfig` (absent fields default to off) and asks for mock mode does.
pub fn wants_mock(config: &Option<SystemConfig>) -> (b: bool)
    ensures
        b == (config matches Some(c) && c.mock),
{
    match config {
        Some(c) => c.mock,
        None => false,
    }
}

/// One mounted disk: its mount point and its total and used bytes as numbers.
pub struct DiskUsage {
    pub mount_point: String,
    pub total: String,
    pub used: String,
}

/// The samples: CPU usage, total and used memory, then for every disk its
/// total and used bytes labelled with its mount point.
pub open spec fn is_system_report(
    ms: Seq<Metric>,
    cpu: Seq<char>,
    mem_total: Seq<char>,
    mem_used: Seq<char>,
    disks: Seq<DiskUsage>,
    ts: i64,
) -> bool {
    &&& ms.len() == 3 + 2 * disks.len()
    &&& is_sample(ms[0], "system_cpu_usage"@, cpu, Seq::empty(), ts)
    &&& is_sample(ms[1], "system_mem_total"@, mem_total, Seq::empty(), ts)
    &&& is_sample(ms[2], "system_mem_used"@, mem_used, Seq::empty(), ts)
    &&& forall|i: int| 0 <= i < disks.len() ==> #[trigger] is_disk_pair(ms, 3 + 2 * i, disks[i], ts)
}

/// The two samples of one disk at `ms[at..at + 2]`.
pub open spec fn is_disk_pair(ms: Seq<Metric>, at: int, d: DiskUsage, ts: i64) -> bool {
    let labels = seq![("mount_point"@, d.mount_point@)];
    &&& is_sample(ms[at], "system_disk_total"@, d.total@, labels, ts)
    &&& is_sample(ms[at + 1], "system_disk_used"@, d.used@, labels, ts)
}

/// The samples for the figures read from the machine.
pub fn system_metrics(cpu: &str, mem_total: &str, mem_used: &str, disks: &Vec<DiskUsage>, ts: i64) -> (r: Vec<Metric>)
    ensures
        is_system_report(r@, cpu@, mem_total@, mem_used@, disks@, ts),
{
    let mut r: Vec<Metric> = Vec::new();
    r.push(Metric::unlabeled("system_cpu_usage", cpu, ts));
    r.push(Metric::unlabeled("system_mem_total", mem_total, ts));
    r.push(Metric::unlabeled("system_mem_used", mem_used, ts));
    let n = disks.len();
    for i in 0..n
        invariant
            n == disks@.len(),
            r@.len() == 3 + 2 * i,
            is_sample(r@[0], "system_cpu_usage"@, cpu@, Seq::empty(), ts),
            is_sample(r@[1], "system_mem_total"@, mem_total@, Seq::empty(), ts),
            is_sample(r@[2], "system_mem_used"@, mem_used@, Seq::empty(), ts),
            forall|k: int| 0 <= k < i ==> #[trigger] is_disk_pair(r@, 3 + 2 * k, disks@[k], ts),
    {
        let ghost before = r@;
        let d = &disks[i];
        r.push(Metric::with_label("system_disk_total", d.total.as_str(), "mount_point", d.mount_point.as_str(), ts));
        r.push(Metric::with_label("system_disk_used", d.used.as_str(), "mount_point", d.mount_point.as_str(), ts));
        assert(r@[0] == before[0] && r@[1] == before[1] && r@[2] == before[2]);
        assert forall|k: int| 0 <= k < i + 1 implies #[trigger] is_disk_pair(r@, 3 + 2 * k, disks@[k], ts) by {
            if k < i {
                assert(is_disk_pair(before, 3 + 2 * k, disks@[k], ts));
                assert(r@[3 + 2 * k] == before[3 + 2 * k]);
                assert(r@[3 + 2 * k + 1] == before[3 + 2 * k + 1]);
            }
        }
    }
    r
}

/// Sample values for testing: 12.5 % CPU, 8 GiB of 16 GiB memory used, and
/// one disk mounted at `/` with 200 GiB of 500 GiB used.
pub fn mock_metrics(ts: i64) -> (r: Vec<Metric>)
    ensures
        r@.len() == 5,
        is_sample(r@[0], "system_cpu_usage"@, "12.5"@, Seq::empty(), ts),
        is_sample(r@[1], "system_mem_total"@, "17179869184"@, Seq::empty(), ts),
        is_sample(r@[2], "system_mem_used"@, "8589934592"@, Seq::empty(), ts),
        is_sample(r@[3], "system_disk_total"@, "536870912000"@, seq![("mount_point"@, "/"@)], ts),
        is_sample(r@[4], "system_disk_used"@, "214748364800"@, seq![("mount_point"@, "/"@)], ts),
{
    let mut disks: Vec<DiskUsage> = Vec::new();
    disks.push(DiskUsage { mount_point: owned("/"), total: owned("536870912000"), used: owned("214748364800") });
    let r = system_metrics("12.5", "17179869184", "8589934592", &disks, ts);
    assert(is_disk_pair(r@, 3int + 2 * 0int, disks@[0], ts));
    r
}

} // verus!
