use fks_master::models::{ServiceConfig, ServiceMetrics, ServiceType};
use fks_master::stats::{container_owner, merge_sample, parse_size_to_bytes, parse_size_to_mb, parse_stats_line};

#[test]
fn decimal_kilobytes() {
    assert_eq!(parse_size_to_bytes("123kB"), Some(123_000));
    assert_eq!(parse_size_to_bytes("45k"), Some(45_000));
}

#[test]
fn binary_mebibytes_round_down() {
    // 12.3 * 1024 * 1024 = 12897484.8
    assert_eq!(parse_size_to_bytes("12.3MiB"), Some(12_897_484));
    assert_eq!(parse_size_to_bytes("1.5GiB"), Some(1_610_612_736));
    assert_eq!(parse_size_to_bytes("2KiB"), Some(2048));
}

#[test]
fn other_units_and_forms() {
    assert_eq!(parse_size_to_bytes("  4.5MB "), Some(4_500_000));
    assert_eq!(parse_size_to_bytes("1,5GB"), Some(1_500_000_000));
    assert_eq!(parse_size_to_bytes("0B"), Some(0));
    assert_eq!(parse_size_to_bytes("512"), Some(512));
    assert_eq!(parse_size_to_bytes(".5kB"), Some(500));
    assert_eq!(parse_size_to_bytes("3 mb"), Some(3_000_000));
    assert_eq!(parse_size_to_bytes("-5kB"), Some(0));
    assert_eq!(parse_size_to_bytes("99999999999999999999GiB"), Some(u64::MAX));
}

#[test]
fn unparsable_sizes_give_nothing() {
    assert_eq!(parse_size_to_bytes(""), None);
    assert_eq!(parse_size_to_bytes("   "), None);
    assert_eq!(parse_size_to_bytes("MiB"), None);
    assert_eq!(parse_size_to_bytes("1.2.3MB"), None);
    assert_eq!(parse_size_to_bytes("--"), None);
    assert_eq!(parse_size_to_bytes("."), None);
}

#[test]
fn megabytes_round_down() {
    assert_eq!(parse_size_to_mb("12.34MiB"), Some(12));
    assert_eq!(parse_size_to_mb("2.00GiB"), Some(2048));
    assert_eq!(parse_size_to_mb("x"), None);
}

#[test]
fn full_stats_line() {
    let s = parse_stats_line("fks_api,1.25%,12.34MiB / 2.00GiB,123kB / 45kB,12.3MB / 4.5MB").unwrap();
    assert_eq!(s.container, "fks_api");
    assert_eq!(s.cpu_centipercent, Some(125));
    assert_eq!(s.memory_mb, Some(12));
    assert_eq!(s.network_in, Some(123_000));
    assert_eq!(s.network_out, Some(45_000));
    assert_eq!(s.block_read, Some(12_300_000));
    assert_eq!(s.block_write, Some(4_500_000));
}

#[test]
fn short_and_partial_stats_lines() {
    assert!(parse_stats_line("fks_api,1%,1MiB").is_none());
    assert!(parse_stats_line("").is_none());
    let s = parse_stats_line("web,n/a,garbage,10kB").unwrap();
    assert_eq!(s.cpu_centipercent, None);
    assert_eq!(s.memory_mb, None);
    assert_eq!(s.network_in, Some(10_000));
    assert_eq!(s.network_out, None);
    assert_eq!(s.block_read, None);
}

#[test]
fn merge_overwrites_only_present_figures() {
    let mut m = ServiceMetrics::default();
    m.memory_usage_mb = Some(7);
    m.request_count = Some(3);
    let s = parse_stats_line("c,2%,bad,1kB / 2kB").unwrap();
    merge_sample(&mut m, &s);
    assert_eq!(m.cpu_usage_centipercent, Some(200));
    assert_eq!(m.memory_usage_mb, Some(7));
    assert_eq!(m.network_in_bytes, Some(1000));
    assert_eq!(m.network_out_bytes, Some(2000));
    assert_eq!(m.request_count, Some(3));
    assert_eq!(m.block_read_bytes, None);
}

fn svc(id: &str, container: Option<&str>) -> ServiceConfig {
    ServiceConfig {
        id: id.into(),
        name: id.into(),
        health_endpoint: String::new(),
        service_type: ServiceType::Worker,
        docker_container: container.map(|c| c.to_string()),
        expected_response_time_ms: 1,
        critical: false,
    }
}

#[test]
fn container_owner_takes_the_last_match() {
    let configs = vec![svc("a", Some("box")), svc("b", None), svc("c", Some("box")), svc("d", Some("other"))];
    assert_eq!(container_owner(&configs, &"box".to_string()), Some(2));
    assert_eq!(container_owner(&configs, &"other".to_string()), Some(3));
    assert_eq!(container_owner(&configs, &"none".to_string()), None);
}
