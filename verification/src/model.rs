//! The data that modules, the scheduler and the exporters share.
use vstd::prelude::*;
use crate::text::owned;

verus! {

/// What a monitoring module says about itself.
pub struct ModuleMetadata {
    pub name: String,
    pub version: String,
    pub author: String,
    pub description: String,
    pub default_config: String,
}

/// Where collected metrics are written.
pub enum DbBackend {
    /// InfluxDB v2, written in line protocol.
    InfluxDb { url: String, token: String, org: String, bucket: String },
    /// A Prometheus Pushgateway, written in the text exposition format.
    PrometheusPushgateway { url: String, job: String, token: Option<String> },
}

/// One sample of one metric.
///
/// `value` holds the sample in the notation in which it is written out
/// (the shortest decimal rendering of the floating-point value), and
/// `labels` holds the label pairs in the order in which they are written;
/// the samples this library builds never repeat a key
/// (`has_distinct_label_keys`).
pub struct Metric {
    pub name: String,
    pub value: String,
    pub labels: Vec<(String, String)>,
    pub timestamp_ms: i64,
}

/// A module that can describe itself. Collection and health checks perform
/// I/O and are driven by the host application.
pub trait MonitorModule {
    fn metadata(&self) -> ModuleMetadata;
}

/// The label pairs by their views.
pub open spec fn label_views(ls: Seq<(String, String)>) -> Seq<(Seq<char>, Seq<char>)> {
    ls.map_values(|l: (String, String)| (l.0@, l.1@))
}

/// `m` is the sample `name value` with the given labels at `ts`.
pub open spec fn is_sample(
    m: Metric,
    name: Seq<char>,
    value: Seq<char>,
    labels: Seq<(Seq<char>, Seq<char>)>,
    ts: i64,
) -> bool {
    &&& m.name@ == name
    &&& m.value@ == value
    &&& label_views(m.labels@) == labels
    &&& m.timestamp_ms == ts
}

/// No two labels of a sample share a key, as in a map from keys to values.
pub open spec fn has_distinct_label_keys(m: Metric) -> bool {
    forall|i: int, j: int| 0 <= i < j < m.labels@.len() ==> #[trigger] m.labels@[i].0@ != #[trigger] m.labels@[j].0@
}

impl Metric {
    /// A metric sample without labels.
    pub fn unlabeled(name: &str, value: &str, timestamp_ms: i64) -> (m: Metric)
        ensures
            is_sample(m, name@, value@, Seq::empty(), timestamp_ms),
            has_distinct_label_keys(m),
    {
        let m = Metric { name: owned(name), value: owned(value), labels: Vec::new(), timestamp_ms };
        assert(label_views(m.labels@) =~= Seq::empty());
        m
    }

    /// A metric sample with one label.
    pub fn with_label(name: &str, value: &str, key: &str, label: &str, timestamp_ms: i64) -> (m: Metric)
        ensures
            is_sample(m, name@, value@, seq![(key@, label@)], timestamp_ms),
            has_distinct_label_keys(m),
    {
        let mut labels: Vec<(String, String)> = Vec::new();
        labels.push((owned(key), owned(label)));
        let m = Metric { name: owned(name), value: owned(value), labels, timestamp_ms };
        assert(label_views(m.labels@) =~= seq![(key@, label@)]);
        m
    }
}

} // verus!
