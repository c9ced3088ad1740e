//! The processing history: how entries are made and how the stored list is
//! kept to a bounded length.

use vstd::prelude::*;

use crate::text::owned;
use crate::types::HistoryEntry;

verus! {

/// The most entries the history keeps.
pub const HISTORY_LIMIT: usize = 500;

/// The history after recording `entry`: the old entries and the new one,
/// of which only the newest `HISTORY_LIMIT` are kept.
pub open spec fn history_after(entries: Seq<HistoryEntry>, entry: HistoryEntry) -> Seq<HistoryEntry> {
    let all = entries.push(entry);
    if all.len() > HISTORY_LIMIT {
        all.subrange(all.len() - HISTORY_LIMIT, all.len() as int)
    } else {
        all
    }
}

/// Add an entry to the history, dropping the oldest entries beyond the
/// limit.
pub fn append_bounded(entries: Vec<HistoryEntry>, entry: HistoryEntry) -> (r: Vec<HistoryEntry>)
    ensures
        r@ == history_after(entries@, entry),
{
    let mut entries = entries;
    entries.push(entry);
    if entries.len() > HISTORY_LIMIT {
        let drain = entries.len() - HISTORY_LIMIT;
        let kept = entries.split_off(drain);
        kept
    } else {
        entries
    }
}

/// Trusted wrapper around `chrono::Utc::now().to_rfc3339()` of the `chrono`
/// crate: the current time as RFC 3339 text. Nothing is claimed of it: it
/// depends on the clock.
#[verifier::external_body]
pub(crate) fn now_rfc3339() -> (r: String) {
    chrono::Utc::now().to_rfc3339()
}

/// A history entry for a finished clean, stamped with the current time.
pub fn history_entry_from_clean(source: &str, output: Option<&str>, before: u8, after: u8) -> (r:
    HistoryEntry)
    ensures
        r.source_path@ == source@,
        match output {
            Some(o) => r.output_path matches Some(p) && p@ == o@,
            None => r.output_path is None,
        },
        r.action@ == "clean"@,
        r.privacy_score_before == before,
        r.privacy_score_after == after,
{
    HistoryEntry {
        timestamp: now_rfc3339(),
        source_path: owned(source),
        output_path: match output {
            Some(o) => Some(owned(o)),
            None => None,
        },
        action: owned("clean"),
        privacy_score_before: before,
        privacy_score_after: after,
    }
}

/// The history never holds more than `HISTORY_LIMIT` entries; the entry
/// just recorded is always the newest one kept; what is kept is the newest
/// part of the old history followed by the new entry; and while the limit
/// is not reached nothing is dropped.
pub proof fn law_history_bounded(entries: Seq<HistoryEntry>, entry: HistoryEntry)
    requires
        entries.len() <= HISTORY_LIMIT,
    ensures
        history_after(entries, entry).len() <= HISTORY_LIMIT,
        history_after(entries, entry).last() == entry,
        history_after(entries, entry).drop_last() == entries.subrange(
            entries.len() + 1 - history_after(entries, entry).len(),
            entries.len() as int,
        ),
        entries.len() < HISTORY_LIMIT ==> history_after(entries, entry) == entries.push(entry),
{
    let h = history_after(entries, entry);
    assert(h.drop_last() =~= entries.subrange(entries.len() + 1 - h.len(), entries.len() as int));
}

} // verus!
