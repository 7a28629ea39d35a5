//! Records of the local store, and the statements that change them.

use crate::text::{decimal, i64_to_string, signed_decimal};
use vstd::prelude::*;

verus! {

/// A stored log entry.
#[derive(Debug)]
pub struct LogEntry {
    /// Row id, once stored.
    pub id: Option<i64>,
    /// Milliseconds since the Unix epoch.
    pub timestamp: i64,
    /// Name of the source that produced the entry.
    pub source: String,
    /// The entry, serialized.
    pub content: String,
    /// Whether `content` is encrypted.
    pub encrypted: bool,
    /// Whether the entry has been delivered.
    pub sent: bool,
}

/// A record of an executed action.
#[derive(Debug)]
pub struct ActionRecord {
    /// Row id, once stored.
    pub id: Option<i64>,
    /// Seconds since the Unix epoch.
    pub timestamp: i64,
    /// Which action ran.
    pub action_id: String,
    /// Its parameters, serialized.
    pub parameters: String,
    /// How it ended.
    pub status: String,
    /// What it returned.
    pub result: String,
}

/// The decimal texts of the first `n` ids, separated by commas.
pub open spec fn id_list(ids: Seq<i64>, n: int) -> Seq<char>
    decreases n,
{
    if n <= 0 || n > ids.len() {
        Seq::empty()
    } else if n == 1 {
        signed_decimal(ids[0] as int)
    } else {
        id_list(ids, n - 1) + seq![','] + signed_decimal(ids[n - 1] as int)
    }
}

/// The statement that marks the rows with the given ids as sent; no statement
/// for an empty list.
pub open spec fn mark_sent_statement(ids: Seq<i64>) -> Option<Seq<char>> {
    if ids.len() == 0 {
        None
    } else {
        Some("UPDATE logs SET sent = 1 WHERE id IN ("@ + id_list(ids, ids.len() as int) + ")"@)
    }
}

/// Builds the statement that marks the given rows as sent. An empty list
/// needs no statement.
pub fn mark_logs_sent_query(ids: &[i64]) -> (r: Option<String>)
    ensures
        crate::collector::entry::option_view(r) == mark_sent_statement(ids@),
{
    if ids.len() == 0 {
        return None;
    }
    let mut list = String::new();
    let mut i: usize = 0;
    while i < ids.len()
        invariant
            i <= ids.len(),
            list@ == id_list(ids@, i as int),
        decreases ids.len() - i,
    {
        if i > 0 {
            list.append(",");
            proof {
                reveal_strlit(",");
                assert(","@ =~= seq![',']);
            }
        }
        let text = i64_to_string(ids[i]);
        list.append(text.as_str());
        assert(list@ =~= id_list(ids@, i + 1));
        i += 1;
    }
    let mut query = "UPDATE logs SET sent = 1 WHERE id IN (".to_string();
    query.append(list.as_str());
    query.append(")");
    Some(query)
}

/// Seconds in a day.
pub const SECONDS_PER_DAY: u64 = 86_400;

/// The instant before which sent rows are deleted: `max_age_days` days before
/// `now`, both in seconds since the Unix epoch; the earliest instant an `i64`
/// can hold where that lies further back.
pub open spec fn cleanup_cutoff_spec(now: int, max_age_days: int) -> int {
    let cutoff = now - max_age_days * 86_400;
    if cutoff < i64::MIN {
        i64::MIN as int
    } else {
        cutoff
    }
}

/// The instant before which sent rows are deleted.
pub fn cleanup_cutoff(now: i64, max_age_days: u64) -> (cutoff: i64)
    ensures
        cutoff == cleanup_cutoff_spec(now as int, max_age_days as int),
{
    let limit: u64 = u64::MAX / SECONDS_PER_DAY;
    if max_age_days > limit {
        assert(max_age_days * 86_400 > u64::MAX - 86_400) by (nonlinear_arith)
            requires
                max_age_days > limit,
                limit == u64::MAX / 86_400,
        ;
        return i64::MIN;
    }
    let age: u64 = max_age_days * SECONDS_PER_DAY;
    if age > i64::MAX as u64 {
        if now >= 0 && age - (i64::MAX as u64) <= (now as u64) + 1 {
            let over: u64 = age - (i64::MAX as u64);
            let rest: i64 = (now as u64 + 1 - over) as i64;
            return rest - 1 - i64::MAX;
        }
        return i64::MIN;
    }
    let age_signed: i64 = age as i64;
    match now.checked_sub(age_signed) {
        Some(c) => c,
        None => i64::MIN,
    }
}

} // verus!
