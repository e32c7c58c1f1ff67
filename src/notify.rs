use vstd::prelude::*;

use crate::snapshot::SysInfoStrings;

verus! {

/// One named section of the outbound message.
pub struct EmbedField {
    pub name: String,
    pub value: String,
}

/// The outbound message of one metrics cycle: a titled embed of named fields.
pub struct Notification {
    pub title: String,
    pub fields: Vec<EmbedField>,
}

pub open spec fn notification_title() -> Seq<char> {
    "System Resource Load"@
}

pub open spec fn field_names() -> Seq<Seq<char>> {
    seq![
        "CPU load"@,
        "CPU temp"@,
        "Memory"@,
        "Swap"@,
        "Load average"@,
        "Uptime"@,
        "Boot time"@,
        "System socket statistics"@,
    ]
}

pub open spec fn field_values(s: SysInfoStrings) -> Seq<Seq<char>> {
    seq![
        s.cpu_load@,
        s.cpu_temp@,
        s.memory@,
        s.swap@,
        s.load_average@,
        s.uptime@,
        s.boot_time@,
        s.socket_stats@,
    ]
}

fn field(name: &str, value: &String) -> (f: EmbedField)
    ensures
        f.name@ == name@,
        f.value@ == value@,
{
    let mut n = String::new();
    n.append(name);
    EmbedField { name: n, value: value.clone() }
}

/// The message that delivers a snapshot: titled "System Resource Load", with the
/// eight fields in a fixed order, each under its own name and holding the
/// snapshot's text as it is, error texts included.
pub fn notification_of(s: &SysInfoStrings) -> (m: Notification)
    ensures
        m.title@ == notification_title(),
        m.fields@.len() == 8,
        forall|i: int|
            0 <= i < 8 ==> (#[trigger] m.fields@[i]).name@ == field_names()[i]
                && m.fields@[i].value@ == field_values(*s)[i],
{
    let mut title = String::new();
    title.append("System Resource Load");
    let mut fields: Vec<EmbedField> = Vec::new();
    fields.push(field("CPU load", &s.cpu_load));
    fields.push(field("CPU temp", &s.cpu_temp));
    fields.push(field("Memory", &s.memory));
    fields.push(field("Swap", &s.swap));
    fields.push(field("Load average", &s.load_average));
    fields.push(field("Uptime", &s.uptime));
    fields.push(field("Boot time", &s.boot_time));
    fields.push(field("System socket statistics", &s.socket_stats));
    Notification { title, fields }
}

} // verus!
