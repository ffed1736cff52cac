//! The Immich module: the statistics request and the metrics it yields.
use vstd::prelude::*;
use crate::model::{is_sample, Metric, ModuleMetadata, MonitorModule};
use crate::text::{append, owned, trim_end, trim_end_char};

verus! {

/// The module's configuration.
pub struct ImmichConfig {
    pub url: String,
    pub api_key: String,
    /// Report fixed sample values instead of asking the server.
    pub mock: bool,
}

/// The Immich statistics module.
pub struct ImmichModule;

impl ImmichModule {
    pub fn new() -> (m: ImmichModule) {
        ImmichModule
    }
}

impl MonitorModule for ImmichModule {
    fn metadata(&self) -> (m: ModuleMetadata)
        ensures
            m.name@ == "Immich Statistics"@,
            m.version@ == "0.1.0"@,
            m.author@ == "Metrics Core Team"@,
            m.description@ == "Collects total assets and user counts from Immich API"@,
            m.default_config@ == "{\n  \"url\": \"http://localhost:2283\",\n  \"api_key\": \"YOUR_API_KEY\",\n  \"mock\": true\n}"@,
    {
        ModuleMetadata {
            name: owned("Immich Statistics"),
            version: owned("0.1.0"),
            author: owned("Metrics Core Team"),
            description: owned("Collects total assets and user counts from Immich API"),
            default_config: owned("{\n  \"url\": \"http://localhost:2283\",\n  \"api_key\": \"YOUR_API_KEY\",\n  \"mock\": true\n}"),
        }
    }
}

/// The statistics endpoint of an Immich server.
pub open spec fn stats_endpoint(url: Seq<char>) -> Seq<char> {
    trim_end_char(url, '/') + "/api/server-info/statistics"@
}

/// The statistics endpoint of the configured server.
pub fn stats_url(url: &str) -> (r: String)
    ensures
        r@ == stats_endpoint(url@),
{
    let mut r = trim_end(url, '/');
    append(&mut r, "/api/server-info/statistics");
    r
}

/// The header that authenticates the statistics request.
pub fn api_key_header(config: &ImmichConfig) -> (h: (String, String))
    ensures
        h.0@ == "x-api-key"@,
        h.1@ == config.api_key@,
{
    (owned("x-api-key"), owned(config.api_key.as_str()))
}

/// The three samples: photos, videos and storage used, without labels.
pub open spec fn is_stats_report(ms: Seq<Metric>, photos: Seq<char>, videos: Seq<char>, usage: Seq<char>, ts: i64) -> bool {
    &&& ms.len() == 3
    &&& is_sample(ms[0], "immich_photos_total"@, photos, Seq::empty(), ts)
    &&& is_sample(ms[1], "immich_videos_total"@, videos, Seq::empty(), ts)
    &&& is_sample(ms[2], "immich_storage_used_bytes"@, usage, Seq::empty(), ts)
}

/// The samples for the statistics the server reported, given as numbers.
pub fn stats_metrics(photos: &str, videos: &str, usage: &str, ts: i64) -> (r: Vec<Metric>)
    ensures
        is_stats_report(r@, photos@, videos@, usage@, ts),
{
    let mut r: Vec<Metric> = Vec::new();
    r.push(Metric::unlabeled("immich_photos_total", photos, ts));
    r.push(Metric::unlabeled("immich_videos_total", videos, ts));
    r.push(Metric::unlabeled("immich_storage_used_bytes", usage, ts));
    r
}

/// Sample values for testing.
pub fn mock_metrics(ts: i64) -> (r: Vec<Metric>)
    ensures
        is_stats_report(r@, "23145"@, "842"@, "582341983212"@, ts),
{
    stats_metrics("23145", "842", "582341983212", ts)
}

/// Why a collection failed.
pub enum ImmichFailure {
    /// The configuration is not valid JSON for `ImmichConfig`.
    BadConfig(String),
    /// The server could not be reached.
    Connect(String),
    /// The server answered with an error status (as text) and body.
    Status { status: String, body: String },
    /// The answer was not the expected statistics.
    BadResponse(String),
}

impl ImmichFailure {
    /// The message reported for the failure.
    pub fn message(&self) -> (r: String)
        ensures
            r@ == match self {
                ImmichFailure::BadConfig(e) => "Failed to parse config: "@ + e@,
                ImmichFailure::Connect(e) => "Failed to connect to Immich API: "@ + e@,
                ImmichFailure::Status { status, body } => "Immich API returned error ("@ + status@ + "): "@ + body@,
                ImmichFailure::BadResponse(e) => "Failed to parse Immich response: "@ + e@,
            },
    {
        match self {
            ImmichFailure::BadConfig(e) => {
                let mut r = owned("Failed to parse config: ");
                append(&mut r, e.as_str());
                r
            },
            ImmichFailure::Connect(e) => {
                let mut r = owned("Failed to connect to Immich API: ");
                append(&mut r, e.as_str());
                r
            },
            ImmichFailure::Status { status, body } => {
                let mut r = owned("Immich API returned error (");
                append(&mut r, status.as_str());
                append(&mut r, "): ");
                append(&mut r, body.as_str());
                r
            },
            ImmichFailure::BadResponse(e) => {
                let mut r = owned("Failed to parse Immich response: ");
                append(&mut r, e.as_str());
                r
            },
        }
    }
}

} // verus!
