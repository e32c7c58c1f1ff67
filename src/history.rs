use vstd::prelude::*;

use crate::snapshot::SysInfoStrings;

verus! {

/// Why appending to the history log failed.
pub enum SysInfoError {
    /// Reading or writing the log file failed; the message says how.
    Io(String),
    /// The existing log does not parse as an array of records; serde_json's reason.
    Serde(String),
}

#[verifier::external_type_specification]
#[verifier::external_body]
pub struct ExJsonError(serde_json::Error);

/// A lower-case hexadecimal digit.
pub open spec fn hex_digit(d: nat) -> char {
    seq!['0', '1', '2', '3', '4', '5', '6', '7', '8', '9', 'a', 'b', 'c', 'd', 'e', 'f'][d as int]
}

/// How one character stands inside a JSON string literal: quote and backslash
/// behind a backslash, the five control characters with a short escape by their
/// letter, the other controls below 0x20 as `\u00` and two hex digits, and
/// every other character as itself.
pub open spec fn escaped_char(c: char) -> Seq<char> {
    if c == '"' {
        seq!['\\', '"']
    } else if c == '\\' {
        seq!['\\', '\\']
    } else if c == '\u{8}' {
        seq!['\\', 'b']
    } else if c == '\t' {
        seq!['\\', 't']
    } else if c == '\n' {
        seq!['\\', 'n']
    } else if c == '\u{c}' {
        seq!['\\', 'f']
    } else if c == '\r' {
        seq!['\\', 'r']
    } else if (c as u32) < 0x20 {
        seq!['\\', 'u', '0', '0', hex_digit((c as u32 / 16) as nat), hex_digit((c as u32 % 16) as nat)]
    } else {
        seq![c]
    }
}

/// The characters of `s`, each escaped.
pub open spec fn escaped(s: Seq<char>) -> Seq<char>
    decreases s.len(),
{
    if s.len() == 0 {
        seq![]
    } else {
        escaped_char(s[0]) + escaped(s.drop_first())
    }
}

/// The JSON string literal of `s`, as serde_json writes it: quoted and escaped.
pub open spec fn json_string_text(s: Seq<char>) -> Seq<char> {
    seq!['"'] + escaped(s) + seq!['"']
}

/// Relies on `serde_json::to_string` on a `str`: the quoted literal, escaped by
/// serde_json's table, with lower-case hex digits for the other controls. Its only
/// failures come from the writer, and it writes to a `Vec`, which never fails.
#[verifier::external_body]
fn json_string(s: &str) -> (r: Result<String, serde_json::Error>)
    ensures
        r is Ok,
        r is Ok ==> r->Ok_0@ == json_string_text(s@),
{
    serde_json::to_string(s)
}

/// What serde_json reads from the bytes as a JSON array of objects whose values
/// are all strings: the keys of each object, in order; `None` where it fails.
pub uninterp spec fn log_keys(doc: Seq<u8>) -> Option<Seq<Seq<Seq<char>>>>;

/// Relies on `serde_json::from_slice` into a `Vec` of string-to-string maps, whose
/// keys are then handed out. It succeeds exactly on a JSON array of such objects
/// with only whitespace around it, so then the last byte that is not whitespace
/// is the closing `]`, and the opening `[` stands somewhere before it. A
/// non-empty array of snapshot records, as `to_json` writes them, is such an
/// array, and each of its objects has the eight keys of a snapshot.
#[verifier::external_body]
fn parse_log(doc: &[u8]) -> (r: Result<Vec<Vec<String>>, serde_json::Error>)
    ensures
        r is Ok <==> log_keys(doc@) is Some,
        r is Ok ==> r->Ok_0.deep_view() == log_keys(doc@)->0,
        r is Ok ==> closes_array(doc@),
        is_snapshot_document(doc@) ==> r is Ok && forall|i: int|
            0 <= i < r->Ok_0@.len() ==> has_snapshot_keys(#[trigger] r->Ok_0.deep_view()[i]),
{
    match serde_json::from_slice::<Vec<std::collections::BTreeMap<String, String>>>(doc) {
        Ok(maps) => {
            let mut keys = Vec::new();
            for m in maps {
                keys.push(m.into_keys().collect());
            }
            Ok(keys)
        },
        Err(e) => Err(e),
    }
}

/// Holds every field name of a snapshot.
pub open spec fn has_snapshot_keys(keys: Seq<Seq<char>>) -> bool {
    &&& keys.contains("cpu_load"@)
    &&& keys.contains("cpu_temp"@)
    &&& keys.contains("memory"@)
    &&& keys.contains("swap"@)
    &&& keys.contains("load_average"@)
    &&& keys.contains("uptime"@)
    &&& keys.contains("boot_time"@)
    &&& keys.contains("socket_stats"@)
}

/// serde_json reads the bytes as an array of objects with string values, and
/// each object has every field of a snapshot.
pub open spec fn holds_snapshots(doc: Seq<u8>) -> bool {
    match log_keys(doc) {
        Some(entries) => forall|i: int|
            0 <= i < entries.len() ==> has_snapshot_keys(#[trigger] entries[i]),
        None => false,
    }
}

fn has_key(keys: &Vec<String>, name: &str) -> (r: bool)
    ensures
        r == keys.deep_view().contains(name@),
{
    let mut target = String::new();
    target.append(name);
    let mut i: usize = 0;
    while i < keys.len()
        invariant
            i <= keys@.len(),
            target@ == name@,
            forall|j: int| 0 <= j < i ==> keys.deep_view()[j] != name@,
        decreases keys@.len() - i,
    {
        if keys[i] == target {
            assert(keys.deep_view()[i as int] == name@);
            return true;
        }
        i = i + 1;
    }
    false
}

fn entries_have_snapshot_keys(entries: &Vec<Vec<String>>) -> (r: bool)
    ensures
        r == forall|i: int|
            0 <= i < entries@.len() ==> has_snapshot_keys(#[trigger] entries.deep_view()[i]),
{
    let mut i: usize = 0;
    while i < entries.len()
        invariant
            i <= entries@.len(),
            forall|j: int| 0 <= j < i ==> has_snapshot_keys(#[trigger] entries.deep_view()[j]),
        decreases entries@.len() - i,
    {
        let keys = &entries[i];
        assert(entries.deep_view()[i as int] == keys.deep_view());
        let ok = has_key(keys, "cpu_load") && has_key(keys, "cpu_temp") && has_key(keys, "memory")
            && has_key(keys, "swap") && has_key(keys, "load_average") && has_key(keys, "uptime")
            && has_key(keys, "boot_time") && has_key(keys, "socket_stats");
        if !ok {
            return false;
        }
        i = i + 1;
    }
    true
}

/// Relies on `Display` of `serde_json::Error`: the parser's reason and position.
#[verifier::external_body]
fn json_error_text(e: &serde_json::Error) -> String {
    e.to_string()
}

/// The four bytes that JSON counts as whitespace.
pub open spec fn is_whitespace(b: u8) -> bool {
    b == 32 || b == 9 || b == 10 || b == 13
}

/// The index of the last byte of `s` that is not whitespace, or -1 if none is.
pub open spec fn last_content(s: Seq<u8>) -> int
    decreases s.len(),
{
    if s.len() == 0 {
        -1
    } else if !is_whitespace(s.last()) {
        s.len() - 1
    } else {
        last_content(s.drop_last())
    }
}

/// The last byte that is not whitespace is `]`, and some such byte comes before it.
pub open spec fn closes_array(doc: Seq<u8>) -> bool {
    let c = last_content(doc);
    c >= 0 && doc[c] == 93u8 && last_content(doc.subrange(0, c)) >= 0
}

/// An existing log that an append accepts: an empty one (no entries yet), or one
/// that serde_json reads as an array of records, each with every snapshot field.
pub open spec fn accepts(doc: Seq<u8>) -> bool {
    doc.len() == 0 || holds_snapshots(doc)
}

/// The log after appending `record` to `doc`. An empty log becomes a one-element
/// array; otherwise the record goes in before the closing `]`, after a comma
/// unless the array was empty, and every other byte of `doc` stays where it was.
pub open spec fn appended(doc: Seq<u8>, record: Seq<u8>) -> Seq<u8> {
    if doc.len() == 0 {
        seq![91u8] + record + seq![93u8]
    } else {
        let c = last_content(doc);
        let before = doc.subrange(0, c);
        let p = last_content(before);
        let sep = if p >= 0 && before[p] == 91u8 {
            Seq::<u8>::empty()
        } else {
            seq![44u8]
        };
        before + sep + record + doc.subrange(c, doc.len() as int)
    }
}

/// The records separated by commas.
pub open spec fn joined(records: Seq<Seq<u8>>) -> Seq<u8>
    decreases records.len(),
{
    if records.len() <= 1 {
        if records.len() == 0 {
            seq![]
        } else {
            records[0]
        }
    } else {
        joined(records.drop_last()) + seq![44u8] + records.last()
    }
}

/// The log document that holds exactly `records`, in order: a JSON array of
/// them, or nothing at all while there are none.
pub open spec fn document(records: Seq<Seq<u8>>) -> Seq<u8> {
    if records.len() == 0 {
        seq![]
    } else {
        seq![91u8] + joined(records) + seq![93u8]
    }
}

/// The log after appending each of `records` in turn to an empty file.
pub open spec fn log_after(records: Seq<Seq<u8>>) -> Seq<u8>
    decreases records.len(),
{
    if records.len() == 0 {
        seq![]
    } else {
        appended(log_after(records.drop_last()), records.last())
    }
}

/// A record as serialised: a JSON object, so it opens with `{` and closes with `}`.
pub open spec fn is_record(r: Seq<u8>) -> bool {
    r.len() > 0 && r[0] == 123u8 && r.last() == 125u8
}

/// The JSON object serde_json writes for a snapshot, fields in declaration order.
pub open spec fn record_text(s: SysInfoStrings) -> Seq<char> {
    "{\"cpu_load\":"@ + json_string_text(s.cpu_load@) + ",\"cpu_temp\":"@
        + json_string_text(s.cpu_temp@) + ",\"memory\":"@ + json_string_text(s.memory@)
        + ",\"swap\":"@ + json_string_text(s.swap@) + ",\"load_average\":"@
        + json_string_text(s.load_average@) + ",\"uptime\":"@ + json_string_text(s.uptime@)
        + ",\"boot_time\":"@ + json_string_text(s.boot_time@) + ",\"socket_stats\":"@
        + json_string_text(s.socket_stats@) + "}"@
}

proof fn lemma_last_content_bounds(s: Seq<u8>)
    ensures
        -1 <= last_content(s) < s.len(),
    decreases s.len(),
{
    if s.len() > 0 {
        lemma_last_content_bounds(s.drop_last());
    }
}

/// The index of the last byte before `end` that is not whitespace.
fn last_content_index(s: &[u8], end: usize) -> (r: Option<usize>)
    requires
        end <= s@.len(),
    ensures
        r is None ==> last_content(s@.subrange(0, end as int)) == -1,
        r is Some ==> r->0 as int == last_content(s@.subrange(0, end as int)) && r->0 < end,
{
    let mut i: usize = end;
    while i > 0
        invariant
            i <= end <= s@.len(),
            last_content(s@.subrange(0, end as int)) == last_content(s@.subrange(0, i as int)),
        decreases i,
    {
        let b = s[i - 1];
        if !(b == 32 || b == 9 || b == 10 || b == 13) {
            assert(s@.subrange(0, i as int).last() == b);
            return Some(i - 1);
        }
        assert(s@.subrange(0, i as int).drop_last() == s@.subrange(0, i - 1));
        i = i - 1;
    }
    None
}

fn push_range(out: &mut Vec<u8>, s: &[u8], from: usize, to: usize)
    requires
        from <= to <= s@.len(),
    ensures
        final(out)@ == old(out)@ + s@.subrange(from as int, to as int),
{
    let mut i: usize = from;
    while i < to
        invariant
            from <= i <= to <= s@.len(),
            out@ == old(out)@ + s@.subrange(from as int, i as int),
        decreases to - i,
    {
        out.push(s[i]);
        assert(s@.subrange(from as int, i + 1) == s@.subrange(from as int, i as int) + seq![
            s@[i as int],
        ]);
        i = i + 1;
    }
}

/// Appends one serialised record to the log document `existing` and returns the
/// whole new document, to be written over the old one. An empty log counts as
/// holding no entries. Any other log, whitespace alone included, must parse as
/// an array of records that each hold every snapshot field; if it does not, the
/// reason is returned as a parse error and the existing history is left as it is.
pub fn append_entry(existing: &[u8], record: &[u8]) -> (r: Result<Vec<u8>, SysInfoError>)
    ensures
        r is Ok <==> accepts(existing@),
        r is Ok ==> r->Ok_0@ == appended(existing@, record@),
        r is Err ==> r->Err_0 is Serde,
        is_snapshot_document(existing@) ==> r is Ok,
        existing@.len() == 0 ==> r is Ok && r->Ok_0@ == document(seq![record@]),
{
    let n = existing.len();
    let mut out: Vec<u8> = Vec::new();
    assert(existing@.subrange(0, n as int) == existing@);
    assert(record@.subrange(0, record@.len() as int) == record@);
    proof {
        lemma_last_content_bounds(existing@);
    }
    if n == 0 {
        out.push(91u8);
        push_range(&mut out, record, 0, record.len());
        out.push(93u8);
        assert(joined(seq![record@]) == record@);
        return Ok(out);
    }
    match parse_log(existing) {
        Ok(entries) => {
            if !entries_have_snapshot_keys(&entries) {
                let mut reason = String::new();
                reason.append("a record lacks a snapshot field");
                return Err(SysInfoError::Serde(reason));
            }
        },
        Err(e) => {
            return Err(SysInfoError::Serde(json_error_text(&e)));
        },
    }
    let close = match last_content_index(existing, n) {
        Some(c) => c,
        None => {
            assert(false);
            return Err(SysInfoError::Serde(String::new()));
        },
    };
    let ghost before = existing@.subrange(0, close as int);
    push_range(&mut out, existing, 0, close);
    match last_content_index(existing, close) {
        Some(p) => {
            assert(before[p as int] == existing@[p as int]);
            if existing[p] != 91u8 {
                out.push(44u8);
            }
        },
        None => {
            out.push(44u8);
        },
    }
    push_range(&mut out, record, 0, record.len());
    push_range(&mut out, existing, close, n);
    Ok(out)
}

proof fn lemma_joined_last(records: Seq<Seq<u8>>)
    requires
        records.len() > 0,
        is_record(records[0]),
        is_record(records.last()),
    ensures
        joined(records).len() > 0,
        joined(records).last() == 125u8,
{
}

/// Whenever each append succeeds, appending records one by one to an empty log
/// leaves the JSON array of exactly those records, in the order they were
/// appended, each once; with none appended the log stays empty.
pub proof fn lemma_appends_build_document(records: Seq<Seq<u8>>)
    requires
        forall|i: int| 0 <= i < records.len() ==> is_record(#[trigger] records[i]),
    ensures
        log_after(records) == document(records),
    decreases records.len(),
{
    if records.len() > 0 {
        let prefix = records.drop_last();
        assert forall|i: int| 0 <= i < prefix.len() implies is_record(#[trigger] prefix[i]) by {
            assert(prefix[i] == records[i]);
        }
        lemma_appends_build_document(prefix);
        let doc = document(prefix);
        let rec = records.last();
        assert(is_record(records[records.len() - 1]));
        if prefix.len() == 0 {
            assert(doc.len() == 0);
            assert(joined(records) == records[0]);
        } else {
            assert(is_record(prefix[0]));
            assert(is_record(prefix[prefix.len() - 1]));
            lemma_joined_last(prefix);
            let j = joined(prefix);
            assert(doc.last() == 93u8);
            assert(last_content(doc) == doc.len() - 1);
            let before = doc.subrange(0, doc.len() - 1);
            assert(before == seq![91u8] + j);
            assert(before.last() == 125u8);
            assert(last_content(before) == before.len() - 1);
            assert(doc.subrange(doc.len() - 1, doc.len() as int) == seq![93u8]);
            assert(appended(doc, rec) == seq![91u8] + joined(records) + seq![93u8]);
        }
    }
}

proof fn lemma_encode_utf8_concat(a: Seq<char>, b: Seq<char>)
    ensures
        vstd::utf8::encode_utf8(a + b) == vstd::utf8::encode_utf8(a) + vstd::utf8::encode_utf8(b),
    decreases a.len(),
{
    if a.len() == 0 {
        assert(a + b == b);
    } else {
        assert((a + b)[0] == a[0]);
        assert((a + b).drop_first() == a.drop_first() + b);
        lemma_encode_utf8_concat(a.drop_first(), b);
    }
}

/// Every snapshot serialises to a record: a JSON object, from `{` to `}`.
pub proof fn lemma_snapshot_is_record(s: SysInfoStrings)
    ensures
        is_record(vstd::utf8::encode_utf8(record_text(s))),
{
    reveal_strlit("{\"cpu_load\":");
    reveal_strlit("}");
    let t = record_text(s);
    assert(t[0] == '{');
    assert((123u32 & 0x7Fu32) == 123u32) by (bit_vector);
    assert((125u32 & 0x7Fu32) == 125u32) by (bit_vector);
    assert(vstd::utf8::encode_scalar(t[0] as u32) == seq![123u8]);
    let x = t.subrange(0, t.len() - 1);
    assert(t.last() == '}');
    assert(t == x + seq!['}']);
    lemma_encode_utf8_concat(x, seq!['}']);
    let close = seq!['}'];
    assert(close[0] == '}');
    assert(close.drop_first() == Seq::<char>::empty());
    assert(vstd::utf8::encode_utf8(Seq::<char>::empty()) == Seq::<u8>::empty());
    assert(vstd::utf8::encode_scalar(close[0] as u32) == seq![125u8]);
    assert(vstd::utf8::encode_utf8(close) == vstd::utf8::encode_scalar(close[0] as u32)
        + vstd::utf8::encode_utf8(close.drop_first()));
    assert(vstd::utf8::encode_utf8(seq!['}']) == seq![125u8]);
}

impl SysInfoStrings {
    /// The snapshot as a JSON object with its eight string fields.
    pub fn to_json(&self) -> (r: String)
        ensures
            r@ == record_text(*self),
    {
        let mut s = String::new();
        s.append("{\"cpu_load\":");
        append_json_string(&mut s, &self.cpu_load);
        s.append(",\"cpu_temp\":");
        append_json_string(&mut s, &self.cpu_temp);
        s.append(",\"memory\":");
        append_json_string(&mut s, &self.memory);
        s.append(",\"swap\":");
        append_json_string(&mut s, &self.swap);
        s.append(",\"load_average\":");
        append_json_string(&mut s, &self.load_average);
        s.append(",\"uptime\":");
        append_json_string(&mut s, &self.uptime);
        s.append(",\"boot_time\":");
        append_json_string(&mut s, &self.boot_time);
        s.append(",\"socket_stats\":");
        append_json_string(&mut s, &self.socket_stats);
        s.append("}");
        s
    }

    /// Appends this snapshot to the log document `existing` (the file's bytes, empty
    /// when the file does not exist yet) and returns the new document. It succeeds
    /// exactly when the existing log is empty or an array of snapshot records; what
    /// the fields hold, error texts included, never matters.
    pub fn write_log_entry(&self, existing: &[u8]) -> (r: Result<Vec<u8>, SysInfoError>)
        ensures
            r is Ok <==> accepts(existing@),
            r is Ok ==> r->Ok_0@ == appended(existing@, snapshot_record(*self)),
            is_snapshot_document(existing@) ==> r is Ok,
            r is Err ==> r->Err_0 is Serde,
    {
        let record = self.to_json();
        append_entry(existing, record.as_str().as_bytes())
    }
}

fn append_json_string(out: &mut String, s: &String)
    ensures
        final(out)@ == old(out)@ + json_string_text(s@),
{
    match json_string(s.as_str()) {
        Ok(t) => out.append(t.as_str()),
        Err(_) => {},
    }
}

impl SysInfoError {
    /// A one-line description of the error.
    pub fn message(&self) -> (r: String)
        ensures
            r@ == match *self {
                SysInfoError::Io(m) => "IO error: "@ + m@,
                SysInfoError::Serde(m) => "serde_json error: "@ + m@,
            },
    {
        let mut s = String::new();
        match self {
            SysInfoError::Io(m) => {
                s.append("IO error: ");
                s.append(m.as_str());
            },
            SysInfoError::Serde(m) => {
                s.append("serde_json error: ");
                s.append(m.as_str());
            },
        }
        s
    }
}

/// The bytes of a snapshot's record in the log.
pub open spec fn snapshot_record(s: SysInfoStrings) -> Seq<u8> {
    vstd::utf8::encode_utf8(record_text(s))
}

/// A log that holds the records of one or more snapshots and nothing else.
pub open spec fn is_snapshot_document(doc: Seq<u8>) -> bool {
    exists|snapshots: Seq<SysInfoStrings>|
        snapshots.len() > 0 && doc == document(#[trigger] records_of(snapshots))
}

/// The records of a run of snapshots, in order.
pub open spec fn records_of(snapshots: Seq<SysInfoStrings>) -> Seq<Seq<u8>> {
    snapshots.map_values(|s: SysInfoStrings| snapshot_record(s))
}

/// Writing snapshots one by one to a missing or empty log, every write succeeds,
/// and the log is then the JSON array of their records, one each, in the order
/// written; with none written the log is still empty. Each log along the way is
/// itself such an array, so the next write is accepted too.
pub proof fn lemma_snapshot_log_round_trip(snapshots: Seq<SysInfoStrings>)
    ensures
        log_after(records_of(snapshots)) == document(records_of(snapshots)),
        snapshots.len() > 0 ==> is_snapshot_document(log_after(records_of(snapshots))),
        forall|k: int|
            0 <= k <= snapshots.len() ==> {
                let before = log_after(#[trigger] records_of(snapshots.subrange(0, k)));
                before.len() == 0 || is_snapshot_document(before)
            },
{
    assert forall|k: int|
        0 <= k <= snapshots.len() implies {
            let before = log_after(#[trigger] records_of(snapshots.subrange(0, k)));
            before.len() == 0 || is_snapshot_document(before)
        } by {
        lemma_snapshots_document(snapshots.subrange(0, k));
    }
    lemma_snapshots_document(snapshots);
}

proof fn lemma_snapshots_document(snapshots: Seq<SysInfoStrings>)
    ensures
        log_after(records_of(snapshots)) == document(records_of(snapshots)),
        snapshots.len() == 0 ==> log_after(records_of(snapshots)).len() == 0,
        snapshots.len() > 0 ==> is_snapshot_document(log_after(records_of(snapshots))),
{
    let records = records_of(snapshots);
    assert forall|i: int| 0 <= i < records.len() implies is_record(#[trigger] records[i]) by {
        lemma_snapshot_is_record(snapshots[i]);
    }
    lemma_appends_build_document(records);
}

} // verus!
