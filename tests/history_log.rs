use sysinfo_bot::history::{append_entry, SysInfoError};
use sysinfo_bot::snapshot::SysInfoStrings;

fn snapshot(tag: &str) -> SysInfoStrings {
    SysInfoStrings {
        cpu_load: format!("{tag} cpu"),
        cpu_temp: "42".to_string(),
        memory: "1 B used / 2 B (2 bytes) total".to_string(),
        swap: "0 B used / 0 B (0 bytes) total".to_string(),
        load_average: "0.1 0.2 0.3".to_string(),
        uptime: "5s".to_string(),
        boot_time: "boot".to_string(),
        socket_stats: "sockets".to_string(),
    }
}

fn append_all(snaps: &[SysInfoStrings]) -> Vec<u8> {
    let mut log: Vec<u8> = Vec::new();
    for s in snaps {
        log = match s.write_log_entry(&log) {
            Ok(l) => l,
            Err(e) => panic!("append failed: {}", e.message()),
        };
    }
    log
}

fn reload(log: &[u8]) -> Vec<serde_json::Value> {
    if log.is_empty() {
        return Vec::new();
    }
    let v: serde_json::Value = serde_json::from_slice(log).unwrap();
    v.as_array().unwrap().clone()
}

#[test]
fn no_appends_reload_empty() {
    assert!(reload(&append_all(&[])).is_empty());
}

#[test]
fn one_append_reloads_one_record() {
    let log = append_all(&[snapshot("a")]);
    let entries = reload(&log);
    assert_eq!(entries.len(), 1);
    assert_eq!(entries[0]["cpu_load"], "a cpu");
    assert_eq!(entries[0]["socket_stats"], "sockets");
}

#[test]
fn many_appends_reload_in_order() {
    let snaps: Vec<SysInfoStrings> = ["a", "b", "c", "d", "e"].iter().map(|t| snapshot(t)).collect();
    let entries = reload(&append_all(&snaps));
    assert_eq!(entries.len(), 5);
    for (i, t) in ["a", "b", "c", "d", "e"].iter().enumerate() {
        assert_eq!(entries[i]["cpu_load"], format!("{t} cpu").as_str());
    }
}

#[test]
fn missing_log_gives_one_element_history() {
    let log = snapshot("first").write_log_entry(&[]).ok().unwrap();
    assert_eq!(reload(&log).len(), 1);
}

#[test]
fn empty_string_log_is_accepted() {
    let existing = String::new();
    let log = snapshot("x").write_log_entry(existing.as_bytes()).ok().unwrap();
    assert_eq!(reload(&log).len(), 1);
}

#[test]
fn blank_log_is_refused() {
    for blank in [&b" "[..], b" \n\t"] {
        match snapshot("x").write_log_entry(blank) {
            Err(SysInfoError::Serde(reason)) => assert!(!reason.is_empty()),
            _ => panic!("accepted a log of whitespace"),
        }
    }
}

#[test]
fn records_without_snapshot_fields_are_refused() {
    for bad in [&b"[{}]"[..], b"[{\"x\":\"y\"}]", b"[{\"cpu_load\":\"z\"}]"] {
        match snapshot("k").write_log_entry(bad) {
            Err(SysInfoError::Serde(reason)) => assert_eq!(reason, "a record lacks a snapshot field"),
            _ => panic!("accepted records that are no snapshots"),
        }
    }
}

#[test]
fn records_with_extra_fields_are_kept() {
    let first = snapshot("a").to_json();
    let with_extra = first.replacen("{", "{\"note\":\"kept\",", 1);
    let log = snapshot("b").write_log_entry(format!("[{with_extra}]").as_bytes()).ok().unwrap();
    let entries = reload(&log);
    assert_eq!(entries.len(), 2);
    assert_eq!(entries[0]["note"], "kept");
    assert_eq!(entries[1]["cpu_load"], "b cpu");
}

#[test]
fn empty_array_log_is_extended() {
    let log = snapshot("x").write_log_entry(b"[]").ok().unwrap();
    assert_eq!(reload(&log).len(), 1);
}

#[test]
fn error_field_is_persisted_literally() {
    let mut s = snapshot("p");
    s.cpu_temp = "error: sensor unavailable".to_string();
    let log = s.write_log_entry(&[]).ok().unwrap();
    let entries = reload(&log);
    assert_eq!(entries[0]["cpu_temp"], "error: sensor unavailable");
}

#[test]
fn quotes_and_newlines_round_trip() {
    let mut s = snapshot("q");
    s.cpu_load = "\nerror: \"quoted\" \\ path".to_string();
    let json = s.to_json();
    assert!(json.starts_with("{\"cpu_load\":\"\\nerror: \\\"quoted\\\" \\\\ path\""));
    let entries = reload(&s.write_log_entry(&[]).ok().unwrap());
    assert_eq!(entries[0]["cpu_load"], "\nerror: \"quoted\" \\ path");
}

#[test]
fn corrupt_log_is_refused_with_parser_reason() {
    for bad in [&b"garbage"[..], b"[", b"{\"a\":1}", b"[1] x", b"[x]", b"[1]", b"[{\"a\":1}"] {
        match snapshot("m").write_log_entry(bad) {
            Err(SysInfoError::Serde(reason)) => assert!(!reason.is_empty()),
            _ => panic!("accepted a corrupt log"),
        }
    }
}

#[test]
fn log_with_trailing_newline_is_extended() {
    let log = snapshot("n").write_log_entry(b"[]\n").ok().unwrap();
    let entries = reload(&log);
    assert_eq!(entries.len(), 1);
    assert!(log.ends_with(b"]\n"));
}

#[test]
fn whitespace_around_log_is_kept() {
    let first = snapshot("a").write_log_entry(&[]).ok().unwrap();
    let mut padded = b"  \n".to_vec();
    padded.extend_from_slice(&first);
    padded.extend_from_slice(b" \r\n");
    let log = snapshot("b").write_log_entry(&padded).ok().unwrap();
    assert!(log.starts_with(b"  \n["));
    assert!(log.ends_with(b"] \r\n"));
    let entries = reload(&log);
    assert_eq!(entries.len(), 2);
    assert_eq!(entries[0]["cpu_load"], "a cpu");
    assert_eq!(entries[1]["cpu_load"], "b cpu");
}

#[test]
fn pretty_printed_log_is_extended() {
    let pretty = snapshot("z").to_json().replace(",", ",\n    ");
    let log = snapshot("c").write_log_entry(format!("[\n  {pretty}\n]\n").as_bytes()).ok().unwrap();
    let entries = reload(&log);
    assert_eq!(entries.len(), 2);
    assert_eq!(entries[0]["cpu_load"], "z cpu");
    assert_eq!(entries[1]["cpu_load"], "c cpu");
}

#[test]
fn append_entry_frames_records() {
    assert_eq!(append_entry(b"", b"{}").ok().unwrap(), b"[{}]".to_vec());
    assert_eq!(append_entry(b"[ ]", b"{}").ok().unwrap(), b"[ {}]".to_vec());
    let r = snapshot("r").to_json();
    let existing = format!("[{r}]");
    let expected = format!("[{r},{{\"a\":\"1\"}}]");
    assert_eq!(append_entry(existing.as_bytes(), b"{\"a\":\"1\"}").ok().unwrap(), expected.into_bytes());
}

#[test]
fn error_messages_name_the_cause() {
    assert_eq!(SysInfoError::Io("denied".to_string()).message(), "IO error: denied");
    assert_eq!(SysInfoError::Serde("bad".to_string()).message(), "serde_json error: bad");
    match snapshot("e").write_log_entry(b"nope") {
        Err(e) => assert!(e.message().starts_with("serde_json error: ")),
        Ok(_) => panic!("accepted a corrupt log"),
    }
}

#[test]
fn control_and_wide_characters_escape_as_stated() {
    let mut s = snapshot("w");
    s.cpu_load = "a\u{1}\u{8}\u{c}\u{1f}\t\r\u{7f}é€/".to_string();
    let json = s.to_json();
    assert!(json.starts_with("{\"cpu_load\":\"a\\u0001\\b\\f\\u001f\\t\\r\u{7f}é€/\",\"cpu_temp\":\"42\""));
    let entries = reload(&s.write_log_entry(&[]).ok().unwrap());
    assert_eq!(entries[0]["cpu_load"], "a\u{1}\u{8}\u{c}\u{1f}\t\r\u{7f}é€/");
}
