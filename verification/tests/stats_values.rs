use agentman_gateway::sandbox::ContainerProbe as Probe;
use agentman_gateway::stats::{
    container_stats_line, container_stats_line_fast, du_bytes, elapsed_nanos, format_bytes,
    memory_use, parse_u64, short_id, workspace_container_status,
    workspace_container_status_with_running, CpuBasis, CpuSample, CpuUsage,
    InspectOutcome as Inspect, StatsSample,
};

fn by_floats(bytes: u64) -> String {
    let kb: f64 = 1024.0;
    let mb: f64 = 1024.0 * kb;
    let gb: f64 = 1024.0 * mb;
    let tb: f64 = 1024.0 * gb;
    let b = bytes as f64;
    if b < kb {
        format!("{} B", bytes)
    } else if b < mb {
        format!("{:.1} KiB", b / kb)
    } else if b < gb {
        format!("{:.1} MiB", b / mb)
    } else if b < tb {
        format!("{:.1} GiB", b / gb)
    } else {
        format!("{:.1} TiB", b / tb)
    }
}

#[test]
fn sizes_in_binary_units() {
    assert_eq!(format_bytes(0), "0 B");
    assert_eq!(format_bytes(1023), "1023 B");
    assert_eq!(format_bytes(1024), "1.0 KiB");
    assert_eq!(format_bytes(1536), "1.5 KiB");
    assert_eq!(format_bytes(1280), "1.2 KiB");
    assert_eq!(format_bytes(1792), "1.8 KiB");
    assert_eq!(format_bytes(1048575), "1024.0 KiB");
    assert_eq!(format_bytes(1048576), "1.0 MiB");
    assert_eq!(format_bytes(5905580032), "5.5 GiB");
    assert_eq!(format_bytes(1099511627776), "1.0 TiB");
    assert_eq!(format_bytes(9007199254740993), "8192.0 TiB");
    assert_eq!(format_bytes(u64::MAX), "16777216.0 TiB");
}

#[test]
fn sizes_agree_with_floating_point_formatting() {
    let mut samples: Vec<u64> = Vec::new();
    for n in 0..5000u64 {
        samples.push(n);
    }
    for shift in 10..64u32 {
        let base = 1u64 << shift;
        for delta in [0u64, 1, 2, 3, 511, 512, 513, 1023, 1024, 1025] {
            samples.push(base.wrapping_add(delta));
            samples.push(base.wrapping_sub(delta));
            samples.push(base + base / 2 + delta);
            samples.push((base / 20).wrapping_mul(1 + 2 * delta));
            samples.push(base / 10 * 3 + delta);
        }
    }
    let mut x: u64 = 0x9e3779b97f4a7c15;
    for _ in 0..20000 {
        x ^= x << 13;
        x ^= x >> 7;
        x ^= x << 17;
        samples.push(x);
        samples.push(x >> 11);
        samples.push(x >> 24);
        samples.push(x >> 40);
    }
    for tenths in 0..4000u64 {
        samples.push(tenths * 1024 / 10 + 51);
        samples.push((tenths * (1 << 40) / 10) + (1u64 << 40) / 20);
        samples.push((tenths * (1 << 40) / 10) + (1u64 << 40) / 20 + 1);
    }
    for hi in [1u64 << 54, 1u64 << 60, (1u64 << 63) + (1 << 62)] {
        for k in 0..2000u64 {
            samples.push(hi + k * 54975581389 + 54975581388);
            samples.push(hi + k * 54975581389 + 54975581389);
        }
    }
    for n in samples {
        assert_eq!(format_bytes(n), by_floats(n), "for {}", n);
    }
}

#[test]
fn short_ids_have_twelve_bytes() {
    assert_eq!(short_id("0123456789abcdef"), "0123456789ab");
    assert_eq!(short_id("0123456789ab"), "0123456789ab");
    assert_eq!(short_id("short"), "short");
    assert_eq!(short_id(""), "");
    assert_eq!(short_id("0123456789a\u{e9}xyz"), "0123456789a\u{e9}xyz");
    assert_eq!(short_id("0123456789\u{e9}xyz"), "0123456789\u{e9}");
}

#[test]
fn container_states_as_shown() {
    let found = |running, paused| {
        Inspect::Found(Probe { id: Some("0123456789abcdef".to_string()), running, paused })
    };
    let s = workspace_container_status_with_running(&found(Some(true), Some(false)));
    assert_eq!(
        (s.status.as_str(), s.id_short.as_deref(), s.running),
        ("running", Some("0123456789ab"), true)
    );
    let s = workspace_container_status_with_running(&found(Some(true), Some(true)));
    assert_eq!((s.status.as_str(), s.running), ("paused", true));
    let s = workspace_container_status_with_running(&found(Some(false), Some(true)));
    assert_eq!((s.status.as_str(), s.running), ("paused", false));
    let s = workspace_container_status_with_running(&found(Some(false), None));
    assert_eq!((s.status.as_str(), s.running), ("stopped", false));
    let s = workspace_container_status_with_running(&found(Some(false), Some(false)));
    assert_eq!((s.status.as_str(), s.running), ("stopped", false));
    let s = workspace_container_status_with_running(&found(None, None));
    assert_eq!((s.status.as_str(), s.running), ("stopped", false));
    let s = workspace_container_status_with_running(&Inspect::NotFound);
    assert_eq!((s.status.as_str(), s.id_short, s.running), ("missing", None, false));
    let s = workspace_container_status_with_running(&Inspect::Failed("x".to_string()));
    assert_eq!((s.status.as_str(), s.id_short, s.running), ("error", None, false));
    assert_eq!(workspace_container_status(&Inspect::NotFound), ("missing".to_string(), None));
    let anonymous = Inspect::Found(Probe { id: None, running: Some(true), paused: None });
    assert_eq!(workspace_container_status(&anonymous), ("running".to_string(), None));
    let every = [
        found(Some(true), Some(true)),
        found(Some(true), None),
        found(None, Some(false)),
        Inspect::NotFound,
        Inspect::Failed("boom".to_string()),
    ];
    for inspect in every.iter() {
        let word = workspace_container_status_with_running(inspect).status;
        assert!(["running", "paused", "stopped", "missing", "error"].contains(&word.as_str()));
    }
}

fn sample(total: Option<u64>, pre: Option<u64>, system: Option<u64>, presystem: Option<u64>) -> StatsSample {
    StatsSample {
        cpu: Some(CpuSample {
            usage: Some(CpuUsage { total_usage: total, percpu_count: Some(4) }),
            system_cpu_usage: system,
            online_cpus: Some(2),
        }),
        precpu: Some(CpuSample {
            usage: Some(CpuUsage { total_usage: pre, percpu_count: None }),
            system_cpu_usage: presystem,
            online_cpus: None,
        }),
        read: Some("2024-01-31T00:00:01.5Z".to_string()),
        preread: Some("2024-01-31T00:00:00Z".to_string()),
        memory_usage: Some(100),
        memory_limit: Some(200),
        has_memory: true,
    }
}

#[test]
fn cpu_share_basis() {
    let s = sample(Some(500), Some(100), Some(9000), Some(1000));
    assert_eq!(
        container_stats_line(&s),
        Some((
            CpuBasis::OfSystem { cpu_delta: 400, system_delta: 8000, online_cpus: 2 },
            Some((100, 200))
        ))
    );
    let s = sample(Some(100), Some(500), Some(9000), Some(1000));
    assert_eq!(container_stats_line(&s), Some((CpuBasis::Zero, Some((100, 200)))));
    let s = sample(Some(500), Some(100), Some(1000), Some(1000));
    assert_eq!(
        container_stats_line(&s),
        Some((CpuBasis::OfElapsed { cpu_delta: 400, elapsed_ns: 1_500_000_000 }, Some((100, 200))))
    );
    let mut s = sample(Some(500), None, None, None);
    s.read = Some("garbage".to_string());
    assert_eq!(container_stats_line(&s), Some((CpuBasis::Zero, Some((100, 200)))));
    let mut s = sample(Some(500), Some(100), Some(2), Some(1));
    s.cpu = Some(CpuSample {
        usage: Some(CpuUsage { total_usage: Some(500), percpu_count: Some(8) }),
        system_cpu_usage: Some(2),
        online_cpus: Some(0),
    });
    s.has_memory = false;
    assert_eq!(
        container_stats_line(&s),
        Some((CpuBasis::OfSystem { cpu_delta: 400, system_delta: 1, online_cpus: 8 }, None))
    );
    let mut s = sample(Some(500), Some(100), Some(2), Some(1));
    s.precpu = None;
    assert_eq!(container_stats_line(&s), None);
    let mut s = sample(Some(500), Some(100), Some(2), Some(1));
    s.cpu = Some(CpuSample { usage: None, system_cpu_usage: Some(2), online_cpus: Some(1) });
    assert_eq!(container_stats_line(&s), None);
}

#[test]
fn quick_cpu_share_basis() {
    let s = sample(Some(500), Some(100), Some(9000), Some(1000));
    assert_eq!(
        container_stats_line_fast(&s),
        (
            Some(CpuBasis::OfSystem { cpu_delta: 400, system_delta: 8000, online_cpus: 2 }),
            Some((100, 200))
        )
    );
    assert_eq!(
        container_stats_line_fast(&sample(Some(500), Some(0), Some(9000), Some(1000))).0,
        None
    );
    assert_eq!(
        container_stats_line_fast(&sample(Some(500), Some(500), Some(9000), Some(1000))).0,
        None
    );
    assert_eq!(
        container_stats_line_fast(&sample(Some(500), Some(100), Some(1000), Some(1000))).0,
        None
    );
    let mut s = sample(Some(500), Some(100), Some(9000), Some(1000));
    s.precpu = None;
    s.memory_limit = Some(0);
    assert_eq!(container_stats_line_fast(&s), (None, None));
}

#[test]
fn elapsed_time_between_readings() {
    assert_eq!(
        elapsed_nanos(Some("2024-01-31T00:00:01Z"), Some("2024-01-31T00:00:00.25Z")),
        Some(750_000_000)
    );
    assert_eq!(
        elapsed_nanos(Some("2024-01-31T01:00:00+01:00"), Some("2024-01-30T23:59:59Z")),
        Some(1_000_000_000)
    );
    assert_eq!(elapsed_nanos(Some("2024-01-31T00:00:00Z"), Some("2024-01-31T00:00:00Z")), None);
    assert_eq!(elapsed_nanos(Some("2024-01-31T00:00:00Z"), Some("2024-01-31T00:00:01Z")), None);
    assert_eq!(elapsed_nanos(Some("yesterday"), Some("2024-01-31T00:00:01Z")), None);
    assert_eq!(elapsed_nanos(None, Some("2024-01-31T00:00:01Z")), None);
    assert_eq!(elapsed_nanos(Some("2024-01-31T00:00:01Z"), None), None);
}

#[test]
fn memory_counters() {
    assert_eq!(memory_use(Some(1), Some(2)), Some((1, 2)));
    assert_eq!(memory_use(Some(1), Some(0)), None);
    assert_eq!(memory_use(None, Some(2)), None);
    assert_eq!(memory_use(Some(1), None), None);
}

#[test]
fn disk_usage_reports() {
    assert_eq!(du_bytes(true, "4096\t/w/octocat/demo\n"), Some(4096));
    assert_eq!(du_bytes(true, "  12 x"), Some(12));
    assert_eq!(du_bytes(false, "4096\t/w"), None);
    assert_eq!(du_bytes(true, ""), None);
    assert_eq!(du_bytes(true, "du: nothing"), None);
    assert_eq!(parse_u64("+5"), Some(5));
    assert_eq!(parse_u64("-5"), None);
    assert_eq!(parse_u64("+"), None);
    assert_eq!(parse_u64(""), None);
    assert_eq!(parse_u64("18446744073709551615"), Some(u64::MAX));
    assert_eq!(parse_u64("18446744073709551616"), None);
    assert_eq!(parse_u64("12a"), None);
    assert_eq!(parse_u64("99999999999999999999999999999999999999999999"), None);
}
