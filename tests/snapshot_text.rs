use sysinfo_bot::notify::notification_of;
use sysinfo_bot::snapshot::{
    byte_totals_text, cpu_load_text, failure_text, get_sysinfo_strings, load_average_text,
    socket_counts_text, uptime_text, ByteTotals, CpuBreakdown, LoadAverageText, MetricReadings,
    Reading, SocketCounts, SysInfoStrings, Uptime,
};

fn failed(msg: &str) -> String {
    msg.to_string()
}

fn all_failed() -> MetricReadings {
    MetricReadings {
        cpu_load: Reading::Failed(failed("no cpu")),
        cpu_temp: Reading::Failed(failed("no sensor")),
        memory: Reading::Failed(failed("no meminfo")),
        swap: Reading::Failed(failed("no swap")),
        load_average: Reading::Failed(failed("no loadavg")),
        uptime: Reading::Failed(failed("no uptime")),
        boot_time: Reading::Failed(failed("no boot")),
        socket_stats: Reading::Failed(failed("no sockets")),
    }
}

#[test]
fn cpu_load_renders_fixed_breakdown() {
    let c = CpuBreakdown { user: 50, nice: 1, system: 10, interrupt: 2, idle: 37 };
    assert_eq!(c.user + c.nice + c.system + c.interrupt + c.idle, 100);
    assert_eq!(cpu_load_text(&c), "50% user, 1% nice, 10% system, 2% intr, 37% idle ");
}

#[test]
fn cpu_load_renders_zero_and_full() {
    let c = CpuBreakdown { user: 0, nice: 0, system: 0, interrupt: 0, idle: 100 };
    assert_eq!(cpu_load_text(&c), "0% user, 0% nice, 0% system, 0% intr, 100% idle ");
}

#[test]
fn small_byte_totals_are_plain_counts() {
    let t = ByteTotals { total: 900, free: 100 };
    assert_eq!(byte_totals_text(&t), "800 B used / 900 B (900 bytes) total");
}

#[test]
fn used_bytes_never_go_below_zero() {
    let t = ByteTotals { total: 10, free: 20 };
    assert_eq!(byte_totals_text(&t), "0 B used / 10 B (10 bytes) total");
}

#[test]
fn large_byte_totals_keep_exact_total() {
    let t = ByteTotals { total: 2_000_000, free: 1_000_000 };
    let s = byte_totals_text(&t);
    assert!(s.ends_with(" (2000000 bytes) total"));
    assert!(s.contains(" used / "));
    assert!(!s.starts_with("1000000 B"));
}

#[test]
fn load_average_is_space_separated() {
    let l = LoadAverageText { one: "0.5".to_string(), five: "0.25".to_string(), fifteen: "1".to_string() };
    assert_eq!(load_average_text(&l), "0.5 0.25 1");
}

#[test]
fn uptime_is_debug_duration() {
    assert_eq!(uptime_text(&Uptime { secs: 5, nanos: 0 }), "5s");
    assert_eq!(uptime_text(&Uptime { secs: 1, nanos: 500_000_000 }), "1.5s");
}

#[test]
fn socket_counts_render_all_counters() {
    let c = SocketCounts {
        tcp_sockets_in_use: 4,
        tcp_sockets_orphaned: 0,
        udp_sockets_in_use: 12,
        tcp6_sockets_in_use: 3,
        udp6_sockets_in_use: 1,
    };
    assert_eq!(
        socket_counts_text(&c),
        "SocketStats { tcp_sockets_in_use: 4, tcp_sockets_orphaned: 0, udp_sockets_in_use: 12, tcp6_sockets_in_use: 3, udp6_sockets_in_use: 1 }"
    );
}

#[test]
fn failure_text_prefixes_message() {
    assert_eq!(failure_text("error: ", &"gone".to_string()), "error: gone");
}

#[test]
fn snapshot_of_all_failures_is_complete() {
    let s = get_sysinfo_strings(&all_failed());
    assert_eq!(s.cpu_load, "\nerror: no cpu");
    assert_eq!(s.cpu_temp, "no sensor");
    assert_eq!(s.memory, "error: no meminfo");
    assert_eq!(s.swap, "error: no swap");
    assert_eq!(s.load_average, "error: no loadavg");
    assert_eq!(s.uptime, "error: no uptime");
    assert_eq!(s.boot_time, "error: no boot");
    assert_eq!(s.socket_stats, "no sockets");
}

#[test]
fn one_failed_metric_leaves_others_intact() {
    let mut r = all_failed();
    r.cpu_load = Reading::Value(CpuBreakdown { user: 50, nice: 1, system: 10, interrupt: 2, idle: 37 });
    r.memory = Reading::Value(ByteTotals { total: 900, free: 100 });
    r.boot_time = Reading::Value("2024-01-01 0:00:00.0 +00:00:00".to_string());
    r.cpu_temp = Reading::Failed("error: sensor unavailable".to_string());
    let s = get_sysinfo_strings(&r);
    assert_eq!(s.cpu_load, "50% user, 1% nice, 10% system, 2% intr, 37% idle ");
    assert_eq!(s.memory, "800 B used / 900 B (900 bytes) total");
    assert_eq!(s.boot_time, "2024-01-01 0:00:00.0 +00:00:00");
    assert_eq!(s.cpu_temp, "error: sensor unavailable");
}

#[test]
fn notification_has_eight_named_fields() {
    let s = get_sysinfo_strings(&all_failed());
    let m = notification_of(&s);
    assert_eq!(m.title, "System Resource Load");
    let names: Vec<&str> = m.fields.iter().map(|f| f.name.as_str()).collect();
    assert_eq!(
        names,
        vec!["CPU load", "CPU temp", "Memory", "Swap", "Load average", "Uptime", "Boot time", "System socket statistics"]
    );
    assert_eq!(m.fields[1].value, "no sensor");
    assert_eq!(m.fields[7].value, "no sockets");
}

#[test]
fn notification_accepts_error_fields() {
    let s = SysInfoStrings {
        cpu_load: "1% user".to_string(),
        cpu_temp: "error: sensor unavailable".to_string(),
        memory: "m".to_string(),
        swap: "s".to_string(),
        load_average: "l".to_string(),
        uptime: "u".to_string(),
        boot_time: "b".to_string(),
        socket_stats: "k".to_string(),
    };
    let m = notification_of(&s);
    assert_eq!(m.fields.len(), 8);
    assert_eq!(m.fields[1].value, "error: sensor unavailable");
}
