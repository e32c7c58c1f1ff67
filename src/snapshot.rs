use vstd::prelude::*;

use crate::text::{decimal_text, u64_text};

verus! {

/// One measurement of a metric: the value read, or what went wrong reading it.
pub enum Reading<T> {
    Value(T),
    Failed(String),
}

/// A byte total and the part of it that is free (memory or swap).
pub struct ByteTotals {
    pub total: u64,
    pub free: u64,
}

/// CPU time over the sampling window, each part in whole percent.
pub struct CpuBreakdown {
    pub user: u64,
    pub nice: u64,
    pub system: u64,
    pub interrupt: u64,
    pub idle: u64,
}

/// Time since boot, as whole seconds and the nanoseconds beyond them.
pub struct Uptime {
    pub secs: u64,
    pub nanos: u32,
}

/// The three load averages, each already written as text.
pub struct LoadAverageText {
    pub one: String,
    pub five: String,
    pub fifteen: String,
}

/// Socket counters of the host.
pub struct SocketCounts {
    pub tcp_sockets_in_use: u64,
    pub tcp_sockets_orphaned: u64,
    pub udp_sockets_in_use: u64,
    pub tcp6_sockets_in_use: u64,
    pub udp6_sockets_in_use: u64,
}

/// Everything one sampling cycle read from the host, one reading per metric.
/// Temperature and boot time come already written as text.
pub struct MetricReadings {
    pub cpu_load: Reading<CpuBreakdown>,
    pub cpu_temp: Reading<String>,
    pub memory: Reading<ByteTotals>,
    pub swap: Reading<ByteTotals>,
    pub load_average: Reading<LoadAverageText>,
    pub uptime: Reading<Uptime>,
    pub boot_time: Reading<String>,
    pub socket_stats: Reading<SocketCounts>,
}

impl MetricReadings {
    pub open spec fn wf(&self) -> bool {
        self.uptime is Value ==> self.uptime->Value_0.nanos < 1_000_000_000
    }
}

/// One observation of the host: eight fields, each a measurement or an error text.
pub struct SysInfoStrings {
    pub cpu_load: String,
    pub cpu_temp: String,
    pub memory: String,
    pub swap: String,
    pub load_average: String,
    pub uptime: String,
    pub boot_time: String,
    pub socket_stats: String,
}

/// What `ByteSize`'s `Display` writes for a count of bytes.
pub uninterp spec fn byte_size_text(n: u64) -> Seq<char>;

/// What `Duration`'s `Debug` writes for a duration of `secs` seconds and `nanos` nanoseconds.
pub uninterp spec fn duration_debug_text(secs: u64, nanos: u32) -> Seq<char>;

/// Relies on systemstat's `ByteSize` (from the bytesize crate) and its `Display`: a
/// human-readable size; under 1000 bytes it is the plain count followed by " B".
#[verifier::external_body]
fn byte_size(n: u64) -> (r: String)
    ensures
        r@ == byte_size_text(n),
        n < 1000 ==> r@ == decimal_text(n as nat) + " B"@,
{
    systemstat::ByteSize::b(n).to_string()
}

/// Relies on `std::time::Duration::new` and its `Debug`; `new` panics only when
/// the nanoseconds carry into a second count that overflows, which `requires` excludes.
#[verifier::external_body]
fn duration_debug(secs: u64, nanos: u32) -> (r: String)
    requires
        nanos < 1_000_000_000,
    ensures
        r@ == duration_debug_text(secs, nanos),
{
    format!("{:?}", std::time::Duration::new(secs, nanos))
}

pub open spec fn saturating_sub(a: u64, b: u64) -> nat {
    if a >= b {
        (a - b) as nat
    } else {
        0
    }
}

pub open spec fn byte_totals_spec(t: ByteTotals) -> Seq<char> {
    byte_size_text(saturating_sub(t.total, t.free) as u64) + " used / "@ + byte_size_text(t.total)
        + " ("@ + decimal_text(t.total as nat) + " bytes) total"@
}

pub open spec fn cpu_load_spec(c: CpuBreakdown) -> Seq<char> {
    decimal_text(c.user as nat) + "% user, "@ + decimal_text(c.nice as nat) + "% nice, "@
        + decimal_text(c.system as nat) + "% system, "@ + decimal_text(c.interrupt as nat)
        + "% intr, "@ + decimal_text(c.idle as nat) + "% idle "@
}

pub open spec fn load_average_spec(l: LoadAverageText) -> Seq<char> {
    l.one@ + " "@ + l.five@ + " "@ + l.fifteen@
}

pub open spec fn socket_counts_spec(s: SocketCounts) -> Seq<char> {
    "SocketStats { tcp_sockets_in_use: "@ + decimal_text(s.tcp_sockets_in_use as nat)
        + ", tcp_sockets_orphaned: "@ + decimal_text(s.tcp_sockets_orphaned as nat)
        + ", udp_sockets_in_use: "@ + decimal_text(s.udp_sockets_in_use as nat)
        + ", tcp6_sockets_in_use: "@ + decimal_text(s.tcp6_sockets_in_use as nat)
        + ", udp6_sockets_in_use: "@ + decimal_text(s.udp6_sockets_in_use as nat) + " }"@
}

/// Renders memory or swap as "<used> used / <total> (<total bytes> bytes) total",
/// where used is the total less what is free, and never below zero.
pub fn byte_totals_text(t: &ByteTotals) -> (r: String)
    ensures
        r@ == byte_totals_spec(*t),
{
    let used: u64 = if t.total >= t.free { t.total - t.free } else { 0 };
    let mut s = byte_size(used);
    s.append(" used / ");
    s.append(byte_size(t.total).as_str());
    s.append(" (");
    s.append(u64_text(t.total).as_str());
    s.append(" bytes) total");
    s
}

/// Renders the CPU breakdown as "<u>% user, <n>% nice, <s>% system, <i>% intr, <d>% idle ".
pub fn cpu_load_text(c: &CpuBreakdown) -> (r: String)
    ensures
        r@ == cpu_load_spec(*c),
{
    let mut s = u64_text(c.user);
    s.append("% user, ");
    s.append(u64_text(c.nice).as_str());
    s.append("% nice, ");
    s.append(u64_text(c.system).as_str());
    s.append("% system, ");
    s.append(u64_text(c.interrupt).as_str());
    s.append("% intr, ");
    s.append(u64_text(c.idle).as_str());
    s.append("% idle ");
    s
}

/// Renders the three load averages separated by single spaces.
pub fn load_average_text(l: &LoadAverageText) -> (r: String)
    ensures
        r@ == load_average_spec(*l),
{
    let mut s = l.one.clone();
    s.append(" ");
    s.append(l.five.as_str());
    s.append(" ");
    s.append(l.fifteen.as_str());
    s
}

/// Renders the uptime as a `Duration` is debug-printed.
pub fn uptime_text(u: &Uptime) -> (r: String)
    requires
        u.nanos < 1_000_000_000,
    ensures
        r@ == duration_debug_text(u.secs, u.nanos),
{
    duration_debug(u.secs, u.nanos)
}

/// Renders the socket counters in the shape "SocketStats { tcp_sockets_in_use: .., .. }".
pub fn socket_counts_text(c: &SocketCounts) -> (r: String)
    ensures
        r@ == socket_counts_spec(*c),
{
    let mut s = String::new();
    s.append("SocketStats { tcp_sockets_in_use: ");
    s.append(u64_text(c.tcp_sockets_in_use).as_str());
    s.append(", tcp_sockets_orphaned: ");
    s.append(u64_text(c.tcp_sockets_orphaned).as_str());
    s.append(", udp_sockets_in_use: ");
    s.append(u64_text(c.udp_sockets_in_use).as_str());
    s.append(", tcp6_sockets_in_use: ");
    s.append(u64_text(c.tcp6_sockets_in_use).as_str());
    s.append(", udp6_sockets_in_use: ");
    s.append(u64_text(c.udp6_sockets_in_use).as_str());
    s.append(" }");
    s
}

/// `prefix` followed by the error's message.
pub fn failure_text(prefix: &str, msg: &String) -> (r: String)
    ensures
        r@ == prefix@ + msg@,
{
    let mut s = String::new();
    s.append(prefix);
    s.append(msg.as_str());
    s
}

pub open spec fn cpu_load_field(r: Reading<CpuBreakdown>) -> Seq<char> {
    match r {
        Reading::Value(c) => cpu_load_spec(c),
        Reading::Failed(m) => "\nerror: "@ + m@,
    }
}

pub open spec fn plain_field(r: Reading<String>) -> Seq<char> {
    match r {
        Reading::Value(t) => t@,
        Reading::Failed(m) => m@,
    }
}

pub open spec fn text_field(r: Reading<String>) -> Seq<char> {
    match r {
        Reading::Value(t) => t@,
        Reading::Failed(m) => "error: "@ + m@,
    }
}

pub open spec fn byte_totals_field(r: Reading<ByteTotals>) -> Seq<char> {
    match r {
        Reading::Value(t) => byte_totals_spec(t),
        Reading::Failed(m) => "error: "@ + m@,
    }
}

pub open spec fn load_average_field(r: Reading<LoadAverageText>) -> Seq<char> {
    match r {
        Reading::Value(l) => load_average_spec(l),
        Reading::Failed(m) => "error: "@ + m@,
    }
}

pub open spec fn uptime_field(r: Reading<Uptime>) -> Seq<char> {
    match r {
        Reading::Value(u) => duration_debug_text(u.secs, u.nanos),
        Reading::Failed(m) => "error: "@ + m@,
    }
}

pub open spec fn socket_stats_field(r: Reading<SocketCounts>) -> Seq<char> {
    match r {
        Reading::Value(c) => socket_counts_spec(c),
        Reading::Failed(m) => m@,
    }
}

/// The snapshot that a set of readings gives: each field rendered from its own
/// reading alone, a failed reading as its error text.
pub open spec fn snapshot_of(r: MetricReadings, s: SysInfoStrings) -> bool {
    &&& s.cpu_load@ == cpu_load_field(r.cpu_load)
    &&& s.cpu_temp@ == plain_field(r.cpu_temp)
    &&& s.memory@ == byte_totals_field(r.memory)
    &&& s.swap@ == byte_totals_field(r.swap)
    &&& s.load_average@ == load_average_field(r.load_average)
    &&& s.uptime@ == uptime_field(r.uptime)
    &&& s.boot_time@ == text_field(r.boot_time)
    &&& s.socket_stats@ == socket_stats_field(r.socket_stats)
}

fn byte_totals_reading_text(r: &Reading<ByteTotals>) -> (s: String)
    ensures
        s@ == byte_totals_field(*r),
{
    match r {
        Reading::Value(t) => byte_totals_text(t),
        Reading::Failed(m) => failure_text("error: ", m),
    }
}

fn text_reading_text(r: &Reading<String>) -> (s: String)
    ensures
        s@ == text_field(*r),
{
    match r {
        Reading::Value(t) => t.clone(),
        Reading::Failed(m) => failure_text("error: ", m),
    }
}

/// Builds the snapshot of one cycle. Every reading, failed or not, gives its field;
/// one failed metric never affects another, and this step itself cannot fail.
pub fn get_sysinfo_strings(readings: &MetricReadings) -> (s: SysInfoStrings)
    requires
        readings.wf(),
    ensures
        snapshot_of(*readings, s),
{
    let memory = byte_totals_reading_text(&readings.memory);
    let swap = byte_totals_reading_text(&readings.swap);
    let load_average = match &readings.load_average {
        Reading::Value(l) => load_average_text(l),
        Reading::Failed(m) => failure_text("error: ", m),
    };
    let uptime = match &readings.uptime {
        Reading::Value(u) => uptime_text(u),
        Reading::Failed(m) => failure_text("error: ", m),
    };
    let boot_time = text_reading_text(&readings.boot_time);
    let cpu_load = match &readings.cpu_load {
        Reading::Value(c) => cpu_load_text(c),
        Reading::Failed(m) => failure_text("\nerror: ", m),
    };
    let cpu_temp = match &readings.cpu_temp {
        Reading::Value(t) => t.clone(),
        Reading::Failed(m) => m.clone(),
    };
    let socket_stats = match &readings.socket_stats {
        Reading::Value(c) => socket_counts_text(c),
        Reading::Failed(m) => m.clone(),
    };
    SysInfoStrings {
        cpu_load,
        cpu_temp,
        memory,
        swap,
        load_average,
        uptime,
        boot_time,
        socket_stats,
    }
}

} // verus!
