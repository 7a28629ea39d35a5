//! What entries look like outside the process: the line of a cache file, and
//! the record of a signed batch.

use crate::collector::clock::{parse_rfc3339, rfc3339_parsed, rfc3339_text, utc_rfc3339};
use crate::collector::encoding::{to_upper, uppercase};
use crate::collector::entry::{entries_view, LogEntry, LogEntryView, Timestamp};
use crate::string_map::StringMap;
use crate::json::{
    add_member,
    text_view,
    find_member,
    json_parsed,
    json_text,
    keys_distinct,
    lemma_object_members,
    lemma_well_keyed,
    lemma_view_kind,
    parse,
    lemma_array_view,
    lemma_no_members,
    members,
    object_of_strings,
    render,
    text_members,
    Json,
    JsonDoc,
};
use crate::text::str_eq;
use vstd::prelude::*;

verus! {

/// The severity name of an entry: its level in upper case, `INFO` where it
/// has none.
pub open spec fn severity_text(level: Option<Seq<char>>) -> Seq<char> {
    uppercase(
        match level {
            Some(l) => l,
            None => "INFO"@,
        },
    )
}

/// The number of a severity name: TRACE 1, DEBUG 5, INFO 9, WARN 13, ERROR
/// 17, FATAL 21, and 9 for any other name.
pub open spec fn severity_number(severity: Seq<char>) -> int {
    if severity == "TRACE"@ {
        1
    } else if severity == "DEBUG"@ {
        5
    } else if severity == "INFO"@ {
        9
    } else if severity == "WARN"@ {
        13
    } else if severity == "ERROR"@ {
        17
    } else if severity == "FATAL"@ {
        21
    } else {
        9
    }
}

/// A level as a document: its text, or `null`.
pub open spec fn level_doc(level: Option<Seq<char>>) -> JsonDoc {
    match level {
        Some(l) => JsonDoc::Text(l),
        None => JsonDoc::Null,
    }
}

/// The record that stands for an entry in a signed batch.
pub open spec fn wire_record(entry: LogEntryView) -> JsonDoc {
    JsonDoc::Object(
        Map::<Seq<char>, JsonDoc>::empty().insert(
            "timestamp"@,
            JsonDoc::Int(entry.timestamp.spec_millis()),
        ).insert("severity"@, JsonDoc::Text(severity_text(entry.level))).insert(
            "body"@,
            JsonDoc::Text(entry.message),
        ).insert("attributes"@, text_members(entry.attributes)).insert(
            "resource"@,
            JsonDoc::Object(
                Map::<Seq<char>, JsonDoc>::empty().insert("source"@, JsonDoc::Text(entry.source)),
            ),
        ).insert("trace_id"@, JsonDoc::Null).insert("span_id"@, JsonDoc::Null).insert(
            "severity_num"@,
            JsonDoc::Int(severity_number(severity_text(entry.level))),
        ),
    )
}

/// The document of a signed batch: its records, in the order of the entries.
pub open spec fn wire_batch(entries: Seq<LogEntryView>) -> JsonDoc {
    JsonDoc::Object(
        Map::<Seq<char>, JsonDoc>::empty().insert(
            "records"@,
            JsonDoc::Array(Seq::new(entries.len(), |i: int| wire_record(entries[i]))),
        ),
    )
}

/// The document of a cache line, given the text of the entry's timestamp.
pub open spec fn line_doc(entry: LogEntryView, stamp: Seq<char>) -> JsonDoc {
    JsonDoc::Object(
        Map::<Seq<char>, JsonDoc>::empty().insert("timestamp"@, JsonDoc::Text(stamp)).insert(
            "source"@,
            JsonDoc::Text(entry.source),
        ).insert("level"@, level_doc(entry.level)).insert(
            "message"@,
            JsonDoc::Text(entry.message),
        ).insert("attributes"@, text_members(entry.attributes)),
    )
}

/// The line that stands for an entry in a cache file, without its newline;
/// `None` where the timestamp has no text.
pub open spec fn json_line(entry: LogEntryView) -> Option<Seq<char>> {
    match utc_rfc3339(entry.timestamp.spec_secs(), entry.timestamp.spec_nanos()) {
        Some(stamp) => Some(json_text(line_doc(entry, stamp))),
        None => None,
    }
}

/// The number of a severity name.
pub fn severity_num(severity: &str) -> (n: i64)
    ensures
        n == severity_number(severity@),
{
    if str_eq(severity, "TRACE") {
        1
    } else if str_eq(severity, "DEBUG") {
        5
    } else if str_eq(severity, "INFO") {
        9
    } else if str_eq(severity, "WARN") {
        13
    } else if str_eq(severity, "ERROR") {
        17
    } else if str_eq(severity, "FATAL") {
        21
    } else {
        9
    }
}

/// Builds the record that stands for an entry in a signed batch.
pub fn record_of(entry: &LogEntry) -> (j: Json)
    ensures
        j@ == wire_record(entry@),
        j.distinct_keys(),
{
    let severity = match &entry.level {
        Some(l) => to_upper(l.as_str()),
        None => to_upper("INFO"),
    };
    let number = severity_num(severity.as_str());
    proof {
        reveal_strlit("source");
        reveal_strlit("timestamp");
        reveal_strlit("severity");
        reveal_strlit("body");
        reveal_strlit("attributes");
        reveal_strlit("resource");
        reveal_strlit("trace_id");
        reveal_strlit("span_id");
        reveal_strlit("severity_num");
        assert("timestamp"@.len() == 9);
        assert("severity"@.len() == 8);
        assert("body"@.len() == 4);
        assert("attributes"@.len() == 10);
        assert("resource"@.len() == 8);
        assert("trace_id"@.len() == 8);
        assert("span_id"@.len() == 7);
        assert("severity_num"@.len() == 12);
        assert("severity"@[0] != "resource"@[0]);
        assert("severity"@[0] != "trace_id"@[0]);
        assert("resource"@[0] != "trace_id"@[0]);
    }
    let mut resource: Vec<(String, Json)> = Vec::new();
    proof {
        lemma_no_members(resource);
    }
    add_member(&mut resource, "source", Json::Text(entry.source.clone()));
    proof {
        lemma_well_keyed(resource);
    }
    let mut list: Vec<(String, Json)> = Vec::new();
    proof {
        lemma_no_members(list);
    }
    add_member(&mut list, "timestamp", Json::Int(entry.timestamp.timestamp_millis()));
    add_member(&mut list, "severity", Json::Text(severity));
    add_member(&mut list, "body", Json::Text(entry.message.clone()));
    add_member(&mut list, "attributes", object_of_strings(&entry.attributes));
    add_member(&mut list, "resource", Json::Object(resource));
    add_member(&mut list, "trace_id", Json::Null);
    add_member(&mut list, "span_id", Json::Null);
    add_member(&mut list, "severity_num", Json::Int(number));
    proof {
        lemma_well_keyed(list);
    }
    Json::Object(list)
}

/// Builds the document of a signed batch.
pub fn batch_of(entries: &Vec<LogEntry>) -> (j: Json)
    ensures
        j@ == wire_batch(entries_view(entries@)),
        j.distinct_keys(),
{
    let mut records: Vec<Json> = Vec::new();
    let mut i: usize = 0;
    while i < entries.len()
        invariant
            i <= entries.len(),
            records@.len() == i,
            forall|k: int| 0 <= k < i ==> (#[trigger] records@[k])@ == wire_record(entries@[k]@),
            forall|k: int| 0 <= k < i ==> (#[trigger] records@[k]).distinct_keys(),
        decreases entries.len() - i,
    {
        records.push(record_of(&entries[i]));
        i += 1;
    }
    proof {
        lemma_array_view(records);
        let views = entries_view(entries@);
        assert(Seq::new(records@.len(), |k: int| records@[k]@) =~= Seq::new(
            views.len(),
            |k: int| wire_record(views[k]),
        ));
    }
    let mut list: Vec<(String, Json)> = Vec::new();
    proof {
        lemma_no_members(list);
    }
    add_member(&mut list, "records", Json::Array(records));
    proof {
        lemma_well_keyed(list);
    }
    Json::Object(list)
}

impl LogEntry {
    /// The document of the entry's cache line, given the text of its
    /// timestamp.
    pub fn line_document(&self, stamp: String) -> (doc: Json)
        ensures
            doc@ == line_doc(self@, stamp@),
            doc.distinct_keys(),
    {
        let level = match &self.level {
            Some(l) => Json::Text(l.clone()),
            None => Json::Null,
        };
        let mut list: Vec<(String, Json)> = Vec::new();
        proof {
            lemma_no_members(list);
            reveal_strlit("timestamp");
            reveal_strlit("source");
            reveal_strlit("level");
            reveal_strlit("message");
            reveal_strlit("attributes");
            assert("timestamp"@.len() == 9);
            assert("source"@.len() == 6);
            assert("level"@.len() == 5);
            assert("message"@.len() == 7);
            assert("attributes"@.len() == 10);
        }
        add_member(&mut list, "timestamp", Json::Text(stamp));
        add_member(&mut list, "source", Json::Text(self.source.clone()));
        add_member(&mut list, "level", level);
        add_member(&mut list, "message", Json::Text(self.message.clone()));
        add_member(&mut list, "attributes", object_of_strings(&self.attributes));
        proof {
            lemma_well_keyed(list);
        }
        Json::Object(list)
    }

    /// The line that stands for the entry in a cache file, without its
    /// newline: the JSON text of the entry's line document, with the
    /// timestamp as RFC 3339 text.
    pub fn to_json_line(&self) -> (s: String)
        ensures
            json_line(self@) == Some(s@),
    {
        let stamp = match rfc3339_text(self.timestamp.secs(), self.timestamp.subsec_nanos()) {
            Some(stamp) => stamp,
            None => String::new(),
        };
        render(&self.line_document(stamp))
    }
}

/// The instant that a timestamp text stands for, where it can be
/// represented.
pub open spec fn parsed_instant(text: Seq<char>) -> Option<Timestamp> {
    match rfc3339_parsed(text) {
        Some((secs, nanos)) => if Timestamp::representable(secs, nanos) {
            Some(Timestamp::from_parts(secs, nanos))
        } else {
            None
        },
        None => None,
    }
}

/// The text of a document that is a string.
pub open spec fn text_of(doc: JsonDoc) -> Seq<char> {
    match doc {
        JsonDoc::Text(s) => s,
        _ => Seq::empty(),
    }
}

/// The string member of an object under `key`, if there is one.
pub open spec fn member_text(m: Map<Seq<char>, JsonDoc>, key: Seq<char>) -> Option<Seq<char>> {
    if m.dom().contains(key) && m[key] is Text {
        Some(text_of(m[key]))
    } else {
        None
    }
}

/// The level that an object gives: none where the member is absent or
/// `null`, the text where it is a string; anything else is no level.
pub open spec fn level_member(m: Map<Seq<char>, JsonDoc>) -> Option<Option<Seq<char>>> {
    if !m.dom().contains("level"@) {
        Some(None)
    } else {
        match m["level"@] {
            JsonDoc::Text(l) => Some(Some(l)),
            JsonDoc::Null => Some(None),
            _ => None,
        }
    }
}

/// Every member of the object is a string.
pub open spec fn all_text(m: Map<Seq<char>, JsonDoc>) -> bool {
    forall|k: Seq<char>| m.dom().contains(k) ==> (#[trigger] m[k]) is Text
}

/// The members of an object of strings as a map of texts.
pub open spec fn texts(m: Map<Seq<char>, JsonDoc>) -> Map<Seq<char>, Seq<char>> {
    m.map_values(|d: JsonDoc| text_of(d))
}

/// The attributes that an object gives: its `attributes` member, which has
/// to be an object of strings.
pub open spec fn attributes_member(m: Map<Seq<char>, JsonDoc>) -> Option<
    Map<Seq<char>, Seq<char>>,
> {
    if m.dom().contains("attributes"@) {
        match m["attributes"@] {
            JsonDoc::Object(a) => if all_text(a) {
                Some(texts(a))
            } else {
                None
            },
            _ => None,
        }
    } else {
        None
    }
}

/// The entry that a document of a cache line stands for: an object with a
/// timestamp text that can be read, the strings `source` and `message`, an
/// optional level and the attributes. Other members are passed over.
pub open spec fn entry_of_doc(doc: JsonDoc) -> Option<LogEntryView> {
    match doc {
        JsonDoc::Object(m) => match (
            member_text(m, "timestamp"@),
            member_text(m, "source"@),
            level_member(m),
            member_text(m, "message"@),
            attributes_member(m),
        ) {
            (Some(stamp), Some(source), Some(level), Some(message), Some(attributes)) => match parsed_instant(
                stamp,
            ) {
                Some(timestamp) => Some(
                    LogEntryView { timestamp, source, level, message, attributes },
                ),
                None => None,
            },
            _ => None,
        },
        _ => None,
    }
}

/// The entry that a line of a cache file stands for: the entry of the
/// document that the line holds, where the line is JSON and every number in
/// it is a whole number of 64 bits with a sign.
pub open spec fn entry_of_line(line: Seq<char>) -> Option<LogEntryView> {
    match json_parsed(line) {
        Some(doc) => if doc.in_range() {
            entry_of_doc(doc)
        } else {
            None
        },
        None => None,
    }
}

/// Reads a string member of an object. The contract speaks of an object
/// whose keys are distinct.
fn read_text(list: &Vec<(String, Json)>, key: &str) -> (r: Option<String>)
    ensures
        keys_distinct(list@) ==> text_view(r) == member_text(
            members(Json::Object(*list)@),
            key@,
        ),
{
    match find_member(list, key) {
        Some(value) => {
            proof {
                lemma_view_kind(*value);
            }
            match value {
                Json::Text(s) => Some(s.clone()),
                _ => None,
            }
        },
        None => None,
    }
}

/// What a list of members gives as a level. The contract speaks of an object
/// whose keys are distinct.
fn read_level(list: &Vec<(String, Json)>) -> (r: Option<Option<String>>)
    ensures
        keys_distinct(list@) ==> match r {
            Some(level) => level_member(members(Json::Object(*list)@)) == Some(text_view(level)),
            None => level_member(members(Json::Object(*list)@)) is None,
        },
{
    match find_member(list, "level") {
        None => Some(None),
        Some(value) => {
            proof {
                lemma_view_kind(*value);
            }
            match value {
                Json::Text(l) => Some(Some(l.clone())),
                Json::Null => Some(None),
                _ => None,
            }
        },
    }
}

/// Reads the members of an object of strings into a map. The contract speaks
/// of an object whose keys are distinct.
fn read_strings(list: &Vec<(String, Json)>) -> (r: Option<StringMap>)
    ensures
        keys_distinct(list@) ==> match r {
            Some(map) => all_text(members(Json::Object(*list)@)) && map@ == texts(
                members(Json::Object(*list)@),
            ),
            None => !all_text(members(Json::Object(*list)@)),
        },
{
    let mut map = StringMap::new();
    let mut i: usize = 0;
    proof {
        assert(texts(members(Json::Object(*list).doc_upto(0))) =~= Map::<
            Seq<char>,
            Seq<char>,
        >::empty());
    }
    while i < list.len()
        invariant
            i <= list.len(),
            keys_distinct(list@) ==> all_text(members(Json::Object(*list).doc_upto(i as int))),
            keys_distinct(list@) ==> map@ == texts(members(Json::Object(*list).doc_upto(i as int))),
        decreases list.len() - i,
    {
        let ghost before = members(Json::Object(*list).doc_upto(i as int));
        proof {
            if keys_distinct(list@) {
                lemma_object_members(*list, i as int);
                lemma_object_members(*list, i + 1);
            }
            lemma_view_kind(list@[i as int].1);
        }
        match &list[i].1 {
            Json::Text(value) => {
                map.insert(list[i].0.clone(), value.clone());
                proof {
                    if keys_distinct(list@) {
                        let after = members(Json::Object(*list).doc_upto(i + 1));
                        assert(after == before.insert(list@[i as int].0@, list@[i as int].1@));
                        assert(texts(after) =~= texts(before).insert(list@[i as int].0@, value@));
                    }
                }
            },
            _ => {
                proof {
                    if keys_distinct(list@) {
                        lemma_object_members(*list, list@.len() as int);
                        let all = members(Json::Object(*list)@);
                        assert(all.dom().contains(list@[i as int].0@));
                        assert(all[list@[i as int].0@] == list@[i as int].1@);
                    }
                }
                return None;
            },
        }
        i += 1;
    }
    Some(map)
}

/// What a list of members gives as attributes. The contract speaks of a
/// document no object of which has two members with one key.
fn read_attributes(list: &Vec<(String, Json)>) -> (r: Option<StringMap>)
    ensures
        Json::Object(*list).distinct_keys() ==> match r {
            Some(map) => attributes_member(members(Json::Object(*list)@)) == Some(map@),
            None => attributes_member(members(Json::Object(*list)@)) is None,
        },
{
    match find_member(list, "attributes") {
        Some(value) => {
            proof {
                lemma_view_kind(*value);
                if Json::Object(*list).distinct_keys() {
                    let i = choose|i: int| 0 <= i < list@.len() && #[trigger] list@[i].1 == *value;
                    assert(list@[i].1.distinct_keys());
                }
            }
            match value {
                Json::Object(a) => {
                    assert(*value == Json::Object(*a));
                    read_strings(a)
                },
                _ => None,
            }
        },
        None => None,
    }
}

/// The instant that a timestamp text stands for, given what `chrono` read
/// from the text: nothing where it read nothing, or where what it read
/// cannot be represented.
pub fn instant_of(read: Option<(i64, u32)>) -> (r: Option<Timestamp>)
    ensures
        r == (match read {
            Some((secs, nanos)) => if Timestamp::representable(secs as int, nanos as int) {
                Some(Timestamp::from_parts(secs as int, nanos as int))
            } else {
                None
            },
            None => None,
        }),
{
    match read {
        Some((secs, nanos)) => Timestamp::new(secs, nanos),
        None => None,
    }
}

/// An optional entry as a mathematical value.
pub open spec fn entry_view(o: Option<LogEntry>) -> Option<LogEntryView> {
    match o {
        Some(e) => Some(e@),
        None => None,
    }
}

impl LogEntry {
    /// Reads the entry that a document stands for: an object with a
    /// timestamp text that can be read, the strings `source` and `message`,
    /// an optional level and the attributes. `None` where the document is no
    /// such object. The contract speaks of a document no object of which has
    /// two members with one key.
    pub fn from_document(json: &Json) -> (r: Option<LogEntry>)
        ensures
            json.distinct_keys() ==> entry_view(r) == entry_of_doc(json@),
    {
        proof {
            lemma_view_kind(*json);
        }
        let list = match json {
            Json::Object(list) => list,
            _ => {
                return None;
            },
        };
        assert(*json == Json::Object(*list));
        let stamp = match read_text(list, "timestamp") {
            Some(s) => s,
            None => {
                return None;
            },
        };
        let source = match read_text(list, "source") {
            Some(s) => s,
            None => {
                return None;
            },
        };
        let level = match read_level(list) {
            Some(l) => l,
            None => {
                return None;
            },
        };
        let message = match read_text(list, "message") {
            Some(s) => s,
            None => {
                return None;
            },
        };
        let attributes = match read_attributes(list) {
            Some(a) => a,
            None => {
                return None;
            },
        };
        let timestamp = match instant_of(parse_rfc3339(stamp.as_str())) {
            Some(t) => t,
            None => {
                return None;
            },
        };
        Some(LogEntry { timestamp, source, level, message, attributes })
    }

    /// Reads the entry that a line of a cache file stands for: the entry of
    /// the document that the line holds. `None` exactly where the line is not
    /// JSON, holds a number that is no whole number of 64 bits with a sign,
    /// or holds a document that is no entry.
    pub fn from_json_line(line: &str) -> (r: Option<LogEntry>)
        ensures
            entry_view(r) == entry_of_line(line@),
    {
        match parse(line) {
            Some(json) => LogEntry::from_document(&json),
            None => None,
        }
    }
}

/// The fields of an entry survive its cache line: the document of the line
/// stands for the entry again, provided that the timestamp's text is read
/// back as the timestamp it was written from.
pub proof fn lemma_line_fields_survive(entry: LogEntryView, stamp: Seq<char>)
    requires
        Timestamp::representable(entry.timestamp.spec_secs(), entry.timestamp.spec_nanos()),
        rfc3339_parsed(stamp) == Some((entry.timestamp.spec_secs(), entry.timestamp.spec_nanos())),
    ensures
        entry_of_doc(line_doc(entry, stamp)) == Some(entry),
{
    reveal_strlit("timestamp");
    reveal_strlit("source");
    reveal_strlit("level");
    reveal_strlit("message");
    reveal_strlit("attributes");
    let m = members(line_doc(entry, stamp));
    assert("timestamp"@.len() == 9);
    assert("source"@.len() == 6);
    assert("level"@.len() == 5);
    assert("message"@.len() == 7);
    assert("attributes"@.len() == 10);
    assert(m["timestamp"@] == JsonDoc::Text(stamp));
    assert(m["source"@] == JsonDoc::Text(entry.source));
    assert(m["level"@] == level_doc(entry.level));
    assert(m["message"@] == JsonDoc::Text(entry.message));
    assert(m["attributes"@] == text_members(entry.attributes));
    entry.timestamp.lemma_parts();
    let a = members(text_members(entry.attributes));
    assert(all_text(a));
    assert(texts(a) =~= entry.attributes);
}

/// Whether the two crates read back what they wrote for an entry: `chrono`
/// reads the timestamp's text as the instant it was written from, and
/// `serde_json` reads the text of the entry's line as the document it was
/// written from.
pub open spec fn line_is_read_back(entry: LogEntryView) -> bool {
    let secs = entry.timestamp.spec_secs();
    let nanos = entry.timestamp.spec_nanos();
    &&& utc_rfc3339(secs, nanos) matches Some(stamp)
    &&& rfc3339_parsed(stamp) == Some((secs, nanos))
    &&& json_parsed(json_text(line_doc(entry, stamp))) == Some(line_doc(entry, stamp))
}

/// The document of a cache line holds no number at all.
pub proof fn lemma_line_doc_in_range(entry: LogEntryView, stamp: Seq<char>)
    ensures
        line_doc(entry, stamp).in_range(),
{
    let m = members(line_doc(entry, stamp));
    let a = members(text_members(entry.attributes));
    assert forall|k: Seq<char>| a.dom().contains(k) implies (#[trigger] a[k]).in_range() by {
        assert(a[k] is Text);
    }
    assert(text_members(entry.attributes).in_range());
    assert forall|k: Seq<char>| m.dom().contains(k) implies (#[trigger] m[k]).in_range() by {
        if k == "attributes"@ {
        } else if k == "message"@ {
        } else if k == "level"@ {
        } else if k == "source"@ {
        } else {
            assert(k == "timestamp"@);
        }
    }
}

/// An entry written as a cache line and read back is the same entry, with
/// its timestamp, source, level, message and attributes, wherever the two
/// crates read back what they wrote for it. That they do is a premise here:
/// it is stated of neither crate.
pub proof fn lemma_line_round_trip(entry: LogEntryView)
    requires
        Timestamp::representable(entry.timestamp.spec_secs(), entry.timestamp.spec_nanos()),
        line_is_read_back(entry),
    ensures
        json_line(entry) matches Some(line) && entry_of_line(line) == Some(entry),
{
    let stamp = utc_rfc3339(entry.timestamp.spec_secs(), entry.timestamp.spec_nanos())->Some_0;
    lemma_line_doc_in_range(entry, stamp);
    lemma_line_fields_survive(entry, stamp);
}

} // verus!
