//! The record that flows through the pipeline.

use crate::string_map::StringMap;
use vstd::prelude::*;

verus! {

/// Earliest second, counted from the Unix epoch, that a timestamp can hold:
/// the first second of the year -262143.
pub const MIN_TIMESTAMP_SECS: i64 = -8_334_601_228_800;

/// Latest second, counted from the Unix epoch, that a timestamp can hold:
/// the last second of the year 262142.
pub const MAX_TIMESTAMP_SECS: i64 = 8_210_266_876_799;

/// Nanoseconds in a second.
pub const NANOS_PER_SEC: u32 = 1_000_000_000;

/// An instant in UTC: whole seconds since the Unix epoch and the nanoseconds
/// within that second.
#[derive(Debug, Clone, Copy, PartialEq, Eq, Structural)]
pub struct Timestamp {
    secs: i64,
    nanos: u32,
}

impl Timestamp {
    #[verifier::type_invariant]
    spec fn in_range(self) -> bool {
        Self::representable(self.secs as int, self.nanos as int)
    }

    /// Which pairs of seconds and nanoseconds stand for an instant.
    pub open spec fn representable(secs: int, nanos: int) -> bool {
        &&& MIN_TIMESTAMP_SECS <= secs <= MAX_TIMESTAMP_SECS
        &&& 0 <= nanos < NANOS_PER_SEC
    }

    /// Whole seconds since the Unix epoch.
    pub closed spec fn spec_secs(self) -> int {
        self.secs as int
    }

    /// Nanoseconds within the second.
    pub closed spec fn spec_nanos(self) -> int {
        self.nanos as int
    }

    /// The instant with the given seconds and nanoseconds.
    pub closed spec fn from_parts(secs: int, nanos: int) -> Timestamp {
        Timestamp { secs: secs as i64, nanos: nanos as u32 }
    }

    /// An instant is made of its seconds and nanoseconds.
    pub proof fn lemma_parts(self)
        ensures
            Self::from_parts(self.spec_secs(), self.spec_nanos()) == self,
    {
    }

    /// The parts of an instant that can be represented are what it was made
    /// of.
    pub proof fn lemma_from_parts(secs: int, nanos: int)
        requires
            Self::representable(secs, nanos),
        ensures
            Self::from_parts(secs, nanos).spec_secs() == secs,
            Self::from_parts(secs, nanos).spec_nanos() == nanos,
    {
    }

    /// Milliseconds since the Unix epoch, rounded down.
    pub open spec fn spec_millis(self) -> int {
        self.spec_secs() * 1000 + self.spec_nanos() / 1_000_000
    }

    /// The instant `secs` seconds and `nanos` nanoseconds after the epoch, if
    /// it can be represented.
    pub fn new(secs: i64, nanos: u32) -> (r: Option<Timestamp>)
        ensures
            r is Some <==> Self::representable(secs as int, nanos as int),
            r matches Some(t) ==> t.spec_secs() == secs && t.spec_nanos() == nanos,
            r matches Some(t) ==> t == Self::from_parts(secs as int, nanos as int),
    {
        if MIN_TIMESTAMP_SECS <= secs && secs <= MAX_TIMESTAMP_SECS && nanos < NANOS_PER_SEC {
            Some(Timestamp { secs, nanos })
        } else {
            None
        }
    }

    /// The Unix epoch itself.
    pub fn epoch() -> (t: Timestamp)
        ensures
            t.spec_secs() == 0,
            t.spec_nanos() == 0,
    {
        Timestamp { secs: 0, nanos: 0 }
    }

    /// Whole seconds since the Unix epoch.
    pub fn secs(&self) -> (s: i64)
        ensures
            s == self.spec_secs(),
            MIN_TIMESTAMP_SECS <= s <= MAX_TIMESTAMP_SECS,
    {
        proof {
            use_type_invariant(self);
        }
        self.secs
    }

    /// Nanoseconds within the second.
    pub fn subsec_nanos(&self) -> (n: u32)
        ensures
            n == self.spec_nanos(),
            n < NANOS_PER_SEC,
            n < NANOS_PER_SEC,
    {
        proof {
            use_type_invariant(self);
        }
        self.nanos
    }

    /// Milliseconds since the Unix epoch, rounded down.
    pub fn timestamp_millis(&self) -> (ms: i64)
        ensures
            ms == self.spec_millis(),
    {
        proof {
            use_type_invariant(self);
        }
        let sub: u32 = self.nanos / 1_000_000;
        self.secs * 1000 + (sub as i64)
    }
}

/// A log entry as a mathematical value.
pub struct LogEntryView {
    /// When the entry was produced.
    pub timestamp: Timestamp,
    /// Name of the source that produced it.
    pub source: Seq<char>,
    /// Severity, if known.
    pub level: Option<Seq<char>>,
    /// The message text.
    pub message: Seq<char>,
    /// Attributes by key.
    pub attributes: Map<Seq<char>, Seq<char>>,
}

/// A log entry collected from a source.
#[derive(Debug)]
pub struct LogEntry {
    /// When the entry was produced.
    pub timestamp: Timestamp,
    /// Name of the source that produced it.
    pub source: String,
    /// Severity, if known.
    pub level: Option<String>,
    /// The message text.
    pub message: String,
    /// Attributes by key; every key occurs once.
    pub attributes: StringMap,
}

/// A string option as a mathematical value.
pub open spec fn option_view(o: Option<String>) -> Option<Seq<char>> {
    match o {
        Some(s) => Some(s@),
        None => None,
    }
}

impl View for LogEntry {
    type V = LogEntryView;

    open spec fn view(&self) -> LogEntryView {
        LogEntryView {
            timestamp: self.timestamp,
            source: self.source@,
            level: option_view(self.level),
            message: self.message@,
            attributes: self.attributes@,
        }
    }
}

impl Clone for LogEntry {
    /// A copy that stands for the same entry.
    fn clone(&self) -> (r: LogEntry)
        ensures
            r@ == self@,
    {
        let level = match &self.level {
            Some(l) => Some(l.clone()),
            None => None,
        };
        LogEntry {
            timestamp: self.timestamp,
            source: self.source.clone(),
            level,
            message: self.message.clone(),
            attributes: self.attributes.clone(),
        }
    }
}

/// The entries of a list as mathematical values.
pub open spec fn entries_view(v: Seq<LogEntry>) -> Seq<LogEntryView> {
    v.map_values(|e: LogEntry| e@)
}

/// A copy of a list of entries.
pub fn clone_entries(v: &Vec<LogEntry>) -> (r: Vec<LogEntry>)
    ensures
        entries_view(r@) == entries_view(v@),
{
    let mut r: Vec<LogEntry> = Vec::new();
    let mut i: usize = 0;
    while i < v.len()
        invariant
            i <= v.len(),
            r@.len() == i,
            forall|j: int| 0 <= j < i ==> (#[trigger] r@[j])@ == v@[j]@,
        decreases v.len() - i,
    {
        r.push(v[i].clone());
        i += 1;
    }
    assert(entries_view(r@) =~= entries_view(v@));
    r
}

} // verus!
