use metrics_core::immich::{self, api_key_header, stats_metrics, stats_url, ImmichConfig, ImmichFailure, ImmichModule};
use metrics_core::model::MonitorModule;
use metrics_core::system::{self, system_metrics, wants_mock, DiskUsage, SystemConfig, SystemModule};
use metrics_core::zfs::{self, parse_zpool_list, pool_row_metrics, split_size, zpool_metrics, PoolSizes, ZfsFailure, ZfsModule};

fn labels(m: &metrics_core::model::Metric) -> Vec<(&str, &str)> {
    m.labels.iter().map(|(k, v)| (k.as_str(), v.as_str())).collect()
}

#[test]
fn module_metadata() {
    let z = ZfsModule::new().metadata();
    assert_eq!(z.name, "ZFS Storage");
    assert_eq!(z.default_config, "{\n  \"pools\": [\"tank\"],\n  \"mock\": true\n}");
    let i = ImmichModule::new().metadata();
    assert_eq!(i.description, "Collects total assets and user counts from Immich API");
    assert_eq!(i.version, "0.1.0");
    let s = SystemModule::new().metadata();
    assert_eq!(s.name, "System Resources");
    assert_eq!(s.default_config, "{}");
    assert_eq!(s.author, "Metrics Core Team");
}

#[test]
fn size_units() {
    let p = split_size(" 1.81T ");
    assert_eq!((p.number.as_str(), p.multiplier), ("1.81", 1_099_511_627_776));
    let p = split_size("512gb");
    assert_eq!((p.number.as_str(), p.multiplier), ("512", 1_073_741_824));
    let p = split_size("3M");
    assert_eq!((p.number.as_str(), p.multiplier), ("3", 1_048_576));
    let p = split_size("96K");
    assert_eq!((p.number.as_str(), p.multiplier), ("96", 1_024));
    let p = split_size("42");
    assert_eq!((p.number.as_str(), p.multiplier), ("42", 1));
    let p = split_size("7P");
    assert_eq!((p.number.as_str(), p.multiplier), ("7", 1));
    let p = split_size("");
    assert_eq!((p.number.as_str(), p.multiplier), ("", 1));
    let p = split_size("-");
    assert_eq!((p.number.as_str(), p.multiplier), ("", 1));
}

#[test]
fn zpool_output_rows() {
    let out = "tank\t3.62T\t1.20T\t2.42T\tONLINE\r\nbackup 1T 0 1T DEGRADED\nshort 1 2\n\nother 1 2 3 ONLINE\n";
    let pools = vec!["tank".to_string(), "backup".to_string(), "short".to_string()];
    let rows = parse_zpool_list(out, &pools);
    assert_eq!(rows.len(), 2);
    assert_eq!(rows[0].name, "tank");
    assert_eq!((rows[0].size.as_str(), rows[0].alloc.as_str(), rows[0].free.as_str()), ("3.62T", "1.20T", "2.42T"));
    assert!(rows[0].online);
    assert_eq!(rows[1].name, "backup");
    assert!(!rows[1].online);
}

#[test]
fn zpool_rows_only_configured_pools() {
    let rows = parse_zpool_list("a 1 2 3 ONLINE\nb 1 2 3 ONLINE", &vec!["b".to_string()]);
    assert_eq!(rows.len(), 1);
    assert_eq!(rows[0].name, "b");
    assert!(parse_zpool_list("", &vec!["b".to_string()]).is_empty());
}

#[test]
fn zfs_pool_samples() {
    let rows = parse_zpool_list("tank 2T 1T 1T FAULTED\n", &vec!["tank".to_string()]);
    let mut ms = Vec::new();
    pool_row_metrics(&mut ms, &rows[0], "2199023255552", "1099511627776", "1099511627776", 77);
    assert_eq!(ms.len(), 4);
    assert_eq!(ms[0].name, "zfs_pool_size_bytes");
    assert_eq!(ms[1].name, "zfs_pool_used_bytes");
    assert_eq!(ms[2].name, "zfs_pool_free_bytes");
    assert_eq!(ms[3].name, "zfs_pool_health");
    assert_eq!(ms[3].value, "0");
    assert_eq!(labels(&ms[0]), vec![("pool", "tank")]);
    assert!(ms.iter().all(|m| m.timestamp_ms == 77));
}

#[test]
fn zfs_mock_samples() {
    let ms = zfs::mock_metrics(&vec!["tank".to_string(), "b".to_string()], 5);
    assert_eq!(ms.len(), 8);
    assert_eq!(ms[0].value, "4398046511104");
    assert_eq!(ms[1].value, "1099511627776");
    assert_eq!(ms[2].value, "3298534883328");
    assert_eq!(ms[3].value, "1");
    assert_eq!(labels(&ms[4]), vec![("pool", "b")]);
    assert_eq!(ms[7].name, "zfs_pool_health");
}

#[test]
fn zfs_failures() {
    assert_eq!(ZfsFailure::BadConfig("eof".to_string()).message(), "Failed to parse config: eof");
    assert_eq!(ZfsFailure::Launch("not found".to_string()).message(), "Failed to run zpool CLI: not found");
    assert_eq!(ZfsFailure::Status("denied".to_string()).message(), "zpool command returned error: denied");
}

#[test]
fn immich_request() {
    assert_eq!(stats_url("http://immich:2283/"), "http://immich:2283/api/server-info/statistics");
    let c = ImmichConfig { url: "u".to_string(), api_key: "k".to_string(), mock: false };
    assert_eq!(api_key_header(&c), ("x-api-key".to_string(), "k".to_string()));
}

#[test]
fn immich_samples() {
    let ms = immich::mock_metrics(9);
    assert_eq!(ms.len(), 3);
    assert_eq!((ms[0].name.as_str(), ms[0].value.as_str()), ("immich_photos_total", "23145"));
    assert_eq!((ms[1].name.as_str(), ms[1].value.as_str()), ("immich_videos_total", "842"));
    assert_eq!((ms[2].name.as_str(), ms[2].value.as_str()), ("immich_storage_used_bytes", "582341983212"));
    assert!(ms.iter().all(|m| m.labels.is_empty() && m.timestamp_ms == 9));
    let ms = stats_metrics("1", "2", "3.5", 0);
    assert_eq!(ms[2].value, "3.5");
}

#[test]
fn immich_failures() {
    assert_eq!(ImmichFailure::BadConfig("x".to_string()).message(), "Failed to parse config: x");
    assert_eq!(ImmichFailure::Connect("x".to_string()).message(), "Failed to connect to Immich API: x");
    assert_eq!(
        ImmichFailure::Status { status: "401 Unauthorized".to_string(), body: "no".to_string() }.message(),
        "Immich API returned error (401 Unauthorized): no"
    );
    assert_eq!(ImmichFailure::BadResponse("x".to_string()).message(), "Failed to parse Immich response: x");
}

#[test]
fn system_samples() {
    let disks = vec![
        DiskUsage { mount_point: "/".to_string(), total: "100".to_string(), used: "40".to_string() },
        DiskUsage { mount_point: "/boot".to_string(), total: "10".to_string(), used: "1".to_string() },
    ];
    let ms = system_metrics("3.2", "16", "8", &disks, 1);
    assert_eq!(ms.len(), 7);
    assert_eq!(ms[0].name, "system_cpu_usage");
    assert_eq!(ms[1].name, "system_mem_total");
    assert_eq!(ms[2].value, "8");
    assert_eq!(ms[5].name, "system_disk_total");
    assert_eq!(labels(&ms[6]), vec![("mount_point", "/boot")]);
    assert_eq!(ms[6].value, "1");
}

#[test]
fn system_mock_mode() {
    assert!(wants_mock(&Some(SystemConfig { mock: true })));
    assert!(!wants_mock(&Some(SystemConfig { mock: false })));
    assert!(!wants_mock(&None));
    let ms = system::mock_metrics(3);
    assert_eq!(ms.len(), 5);
    assert_eq!((ms[0].name.as_str(), ms[0].value.as_str()), ("system_cpu_usage", "12.5"));
    assert_eq!(ms[1].value, "17179869184");
    assert_eq!(ms[2].value, "8589934592");
    assert_eq!(labels(&ms[3]), vec![("mount_point", "/")]);
    assert_eq!((ms[4].name.as_str(), ms[4].value.as_str()), ("system_disk_used", "214748364800"));
}

#[test]
fn zpool_report_blocks() {
    let rows = parse_zpool_list("a 1T 0 1T ONLINE\nb 2T 1T 1T DEGRADED\n", &vec!["a".to_string(), "b".to_string()]);
    let sizes = vec![
        PoolSizes { size: "1099511627776".to_string(), used: "0".to_string(), free: "1099511627776".to_string() },
        PoolSizes { size: "2199023255552".to_string(), used: "1099511627776".to_string(), free: "1099511627776".to_string() },
    ];
    let ms = zpool_metrics(&rows, &sizes, 4);
    assert_eq!(ms.len(), 8);
    assert_eq!(labels(&ms[0]), vec![("pool", "a")]);
    assert_eq!(ms[3].value, "1");
    assert_eq!(labels(&ms[5]), vec![("pool", "b")]);
    assert_eq!(ms[6].value, "1099511627776");
    assert_eq!(ms[7].value, "0");
}
