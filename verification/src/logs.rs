//! Log entries and the store that keeps them, newest first, for every runtime.

use crate::json::{lemma_members_view_push, Json, JsonValue};
use crate::ts::log::LogEntryLevel;
use crate::RuntimeId;
use std::collections::HashMap;
use vstd::prelude::*;

verus! {

broadcast use vstd::std_specs::hash::group_hash_axioms;

/// Number of log entries on a page.
pub const LOG_PAGE_SIZE: usize = 100;

/// Number of log entries that a store keeps of one runtime unless told otherwise.
pub const MAX_LOG_ENTRIES: usize = 10_000;

/// One log entry. The timestamp is the text a worker wrote for the instant
/// (RFC 3339); the store keeps it as it came.
#[derive(Debug, PartialEq, Eq)]
pub struct LogEntry {
    pub timestamp: String,
    pub level: LogEntryLevel,
    pub target: String,
    pub message: String,
}

/// What a log entry holds.
pub struct LogEntryView {
    pub timestamp: Seq<char>,
    pub level: LogEntryLevel,
    pub target: Seq<char>,
    pub message: Seq<char>,
}

impl View for LogEntry {
    type V = LogEntryView;

    open spec fn view(&self) -> LogEntryView {
        LogEntryView {
            timestamp: self.timestamp@,
            level: self.level,
            target: self.target@,
            message: self.message@,
        }
    }
}

impl Clone for LogEntry {
    fn clone(&self) -> (r: Self)
        ensures
            r@ == self@,
    {
        LogEntry {
            timestamp: self.timestamp.clone(),
            level: self.level,
            target: self.target.clone(),
            message: self.message.clone(),
        }
    }
}

/// Whether a text is a timestamp: what `chrono` reads as a date and time with
/// an offset.
pub uninterp spec fn accepted_timestamp(text: Seq<char>) -> bool;

/// Asks `chrono` whether a text parses as a `DateTime<FixedOffset>`, the test
/// that a timestamp passes when an entry is read from a message. The verdict
/// depends on the text alone; which texts pass is chrono's to say.
#[verifier::external_body]
fn timestamp_accepted(text: &str) -> (r: bool)
    ensures
        r == accepted_timestamp(text@),
{
    text.parse::<chrono::DateTime<chrono::FixedOffset>>().is_ok()
}

/// Reads the clock through `chrono`: the present instant in UTC, written as
/// RFC 3339 text. Nothing is claimed of the text.
#[verifier::external_body]
fn clock_timestamp() -> (r: String) {
    chrono::Utc::now().to_rfc3339_opts(chrono::SecondsFormat::AutoSi, true)
}

impl LogEntryView {
    /// The entry as a JSON object with the members `timestamp`, `level`,
    /// `target` and `message`.
    pub open spec fn to_json(self) -> JsonValue {
        JsonValue::Object(
            Map::empty().insert("timestamp"@, JsonValue::String(self.timestamp)).insert(
                "level"@,
                JsonValue::String(self.level.name()),
            ).insert("target"@, JsonValue::String(self.target)).insert(
                "message"@,
                JsonValue::String(self.message),
            ),
        )
    }

    /// The entry that a JSON document holds: an object whose four members are
    /// strings, the level one of the five names. Other members are passed over.
    /// Whether the timestamp is one is not asked here.
    pub open spec fn from_json_unchecked(json: JsonValue) -> Option<LogEntryView> {
        match (
            json.get("timestamp"@),
            json.get("level"@),
            json.get("target"@),
            json.get("message"@),
        ) {
            (
                Some(JsonValue::String(timestamp)),
                Some(JsonValue::String(level)),
                Some(JsonValue::String(target)),
                Some(JsonValue::String(message)),
            ) => match LogEntryLevel::of_name(level) {
                Some(level) => Some(LogEntryView { timestamp, level, target, message }),
                None => None,
            },
            _ => None,
        }
    }

    /// The entry that a JSON document holds, which must carry a timestamp.
    pub open spec fn from_json(json: JsonValue) -> Option<LogEntryView> {
        match LogEntryView::from_json_unchecked(json) {
            Some(entry) => if accepted_timestamp(entry.timestamp) {
                Some(entry)
            } else {
                None
            },
            None => None,
        }
    }
}

/// An entry written as JSON is read back as it was.
pub proof fn lemma_entry_round_trip(entry: LogEntryView)
    ensures
        LogEntryView::from_json_unchecked(entry.to_json()) == Some(entry),
        LogEntryView::from_json(entry.to_json()) == if accepted_timestamp(entry.timestamp) {
            Some(entry)
        } else {
            None
        },
{
    reveal_strlit("timestamp");
    reveal_strlit("level");
    reveal_strlit("target");
    reveal_strlit("message");
    assert("timestamp"@.len() == 9);
    assert("level"@.len() == 5);
    assert("target"@.len() == 6);
    assert("message"@.len() == 7);
    LogEntryLevel::lemma_name_round_trip(entry.level);
}

impl LogEntry {
    /// The entry as a JSON object.
    pub fn to_json(&self) -> (r: Json)
        ensures
            r@ == self@.to_json(),
    {
        let mut members: Vec<(String, Json)> = Vec::new();
        let k0 = String::from_str("timestamp");
        let v0 = Json::String(self.timestamp.clone());
        proof {
            lemma_members_view_push(members@, k0, v0);
        }
        members.push((k0, v0));
        let k1 = String::from_str("level");
        let v1 = Json::String(String::from_str(self.level.as_str()));
        proof {
            lemma_members_view_push(members@, k1, v1);
        }
        members.push((k1, v1));
        let k2 = String::from_str("target");
        let v2 = Json::String(self.target.clone());
        proof {
            lemma_members_view_push(members@, k2, v2);
        }
        members.push((k2, v2));
        let k3 = String::from_str("message");
        let v3 = Json::String(self.message.clone());
        proof {
            lemma_members_view_push(members@, k3, v3);
        }
        members.push((k3, v3));
        Json::Object(members)
    }

    /// Reads an entry from a JSON document, given the verdict on its
    /// timestamp: none where the document is no entry or the timestamp is
    /// refused.
    pub fn from_json_checked(json: &Json, timestamp_ok: bool) -> (r: Option<LogEntry>)
        ensures
            match r {
                Some(entry) => timestamp_ok && LogEntryView::from_json_unchecked(json@) == Some(
                    entry@,
                ),
                None => !timestamp_ok || LogEntryView::from_json_unchecked(json@) is None,
            },
    {
        if !timestamp_ok {
            return None;
        }
        LogEntry::from_json_unchecked(json)
    }

    /// Reads an entry from a JSON document without asking whether its
    /// timestamp is one.
    pub fn from_json_unchecked(json: &Json) -> (r: Option<LogEntry>)
        ensures
            match r {
                Some(entry) => LogEntryView::from_json_unchecked(json@) == Some(entry@),
                None => LogEntryView::from_json_unchecked(json@) is None,
            },
    {
        let timestamp = match json.get("timestamp") {
            Some(Json::String(text)) => text,
            _ => {
                return None;
            },
        };
        let level = match json.get("level") {
            Some(Json::String(text)) => text,
            _ => {
                return None;
            },
        };
        let target = match json.get("target") {
            Some(Json::String(text)) => text,
            _ => {
                return None;
            },
        };
        let message = match json.get("message") {
            Some(Json::String(text)) => text,
            _ => {
                return None;
            },
        };
        match LogEntryLevel::from_name(level.as_str()) {
            Some(level) => Some(
                LogEntry {
                    timestamp: timestamp.clone(),
                    level,
                    target: target.clone(),
                    message: message.clone(),
                },
            ),
            None => None,
        }
    }

    /// Reads an entry from a JSON document: an object with the four members
    /// of an entry, whose timestamp is one.
    pub fn from_json(json: &Json) -> (r: Option<LogEntry>)
        ensures
            match r {
                Some(entry) => LogEntryView::from_json(json@) == Some(entry@),
                None => LogEntryView::from_json(json@) is None,
            },
    {
        match LogEntry::from_json_unchecked(json) {
            Some(entry) => {
                let ok = timestamp_accepted(entry.timestamp.as_str());
                if ok {
                    Some(entry)
                } else {
                    None
                }
            },
            None => None,
        }
    }

    /// The entry that a worker writes of itself at the present instant.
    pub fn now(level: LogEntryLevel, target: &str, message: String) -> (r: LogEntry)
        ensures
            r.level == level,
            r.target@ == target@,
            r.message@ == message@,
    {
        LogEntry::at(clock_timestamp(), level, target, message)
    }

    /// The entry that a worker writes of itself at an instant.
    pub fn at(timestamp: String, level: LogEntryLevel, target: &str, message: String) -> (r:
        LogEntry)
        ensures
            r@ == (LogEntryView {
                timestamp: timestamp@,
                level,
                target: target@,
                message: message@,
            }),
    {
        LogEntry { timestamp, level, target: String::from_str(target), message }
    }
}

/// What a sequence of entries holds.
pub open spec fn entries_view(entries: Seq<LogEntry>) -> Seq<LogEntryView> {
    entries.map_values(|e: LogEntry| e@)
}

/// Whether an entry passes a filter: without a level every entry does, with
/// one the entries that are at least as serious.
pub open spec fn passes(entry: LogEntryView, level: Option<LogEntryLevel>) -> bool {
    match level {
        Some(minimum) => entry.level.rank() >= minimum.rank(),
        None => true,
    }
}

/// The filter of a level, as a predicate.
pub open spec fn level_filter(level: Option<LogEntryLevel>) -> spec_fn(LogEntryView) -> bool {
    |entry: LogEntryView| passes(entry, level)
}

/// The page of a sequence: page 0 holds the first `LOG_PAGE_SIZE` entries, and
/// a page beyond the end is empty.
pub open spec fn page_of(entries: Seq<LogEntryView>, page: nat) -> Seq<LogEntryView> {
    let start = page * LOG_PAGE_SIZE as nat;
    if start >= entries.len() {
        Seq::empty()
    } else if start + LOG_PAGE_SIZE as nat >= entries.len() {
        entries.subrange(start as int, entries.len() as int)
    } else {
        entries.subrange(start as int, (start + LOG_PAGE_SIZE as nat) as int)
    }
}

/// An entry put in front of a sequence that keeps at most `max` entries: the
/// oldest leave.
pub open spec fn capped_prepend(entry: LogEntryView, entries: Seq<LogEntryView>, max: nat) -> Seq<
    LogEntryView,
> {
    let all = seq![entry] + entries;
    if all.len() > max {
        all.take(max as int)
    } else {
        all
    }
}

/// The entries of a sequence added one after the other, the first one first,
/// to a store of one runtime.
pub open spec fn add_all(entries: Seq<LogEntryView>, added: Seq<LogEntryView>, max: nat) -> Seq<
    LogEntryView,
>
    decreases added.len(),
{
    if added.len() == 0 {
        entries
    } else {
        capped_prepend(added.last(), add_all(entries, added.drop_last(), max), max)
    }
}

/// Entries come out in the reverse of the order in which they went in, as far
/// as the store's limit lets them stay.
pub proof fn lemma_add_all_reverses(entries: Seq<LogEntryView>, added: Seq<LogEntryView>, max: nat)
    ensures
        add_all(entries, added, max) == if (added.reverse() + entries).len() > max
            && added.len() > 0 {
            (added.reverse() + entries).take(max as int)
        } else {
            added.reverse() + entries
        },
    decreases added.len(),
{
    if added.len() == 0 {
        assert(added.reverse() + entries =~= entries);
    } else {
        let rest = added.drop_last();
        lemma_add_all_reverses(entries, rest, max);
        let before = add_all(entries, rest, max);
        let full = added.reverse() + entries;
        assert(full =~= seq![added.last()] + (rest.reverse() + entries));
        if (rest.reverse() + entries).len() > max && rest.len() > 0 {
            assert((seq![added.last()] + before).take(max as int) =~= full.take(max as int));
        }
    }
}

/// A page of a filtered store holds only entries that pass the filter.
pub proof fn lemma_page_passes(entries: Seq<LogEntryView>, level: Option<LogEntryLevel>, page: nat)
    ensures
        forall|i: int|
            0 <= i < page_of(entries.filter(level_filter(level)), page).len() ==> passes(
                #[trigger] page_of(entries.filter(level_filter(level)), page)[i],
                level,
            ),
{
    let filtered = entries.filter(level_filter(level));
    assert forall|i: int| 0 <= i < page_of(filtered, page).len() implies passes(
        #[trigger] page_of(filtered, page)[i],
        level,
    ) by {
        let start = page * LOG_PAGE_SIZE as nat;
        assert(page_of(filtered, page)[i] == filtered[start + i]);
        entries.lemma_filter_pred(level_filter(level), start + i);
        assert(level_filter(level)(filtered[start + i]));
    }
}

/// One more entry at the end of a sequence joins a page exactly when the page
/// starts at or before it and is not yet full.
pub proof fn lemma_page_push(entries: Seq<LogEntryView>, entry: LogEntryView, page: nat)
    ensures
        page_of(entries.push(entry), page) == if page * LOG_PAGE_SIZE as nat <= entries.len()
            && entries.len() < page * LOG_PAGE_SIZE as nat + LOG_PAGE_SIZE as nat {
            page_of(entries, page).push(entry)
        } else {
            page_of(entries, page)
        },
{
    let start = page * LOG_PAGE_SIZE as nat;
    if start <= entries.len() && entries.len() < start + LOG_PAGE_SIZE as nat {
        assert(page_of(entries.push(entry), page) =~= page_of(entries, page).push(entry));
    } else {
        assert(page_of(entries.push(entry), page) =~= page_of(entries, page));
    }
}

/// Stores the logs of all runtimes, each runtime's newest entry first.
pub struct LogStorage {
    max_entries: usize,
    logs: HashMap<RuntimeId, Vec<LogEntry>>,
}

impl LogStorage {
    /// The entries of every runtime that has any, newest first.
    pub closed spec fn view(&self) -> Map<RuntimeId, Seq<LogEntryView>> {
        Map::new(
            |id: RuntimeId| self.logs@.contains_key(id),
            |id: RuntimeId| entries_view(self.logs@[id]@),
        )
    }

    /// The number of entries that the store keeps of one runtime.
    pub closed spec fn max_entries(&self) -> nat {
        self.max_entries as nat
    }

    /// The entries of one runtime, newest first; none for a runtime that the
    /// store does not know.
    pub open spec fn entries(&self, runtime_id: RuntimeId) -> Seq<LogEntryView> {
        if self@.contains_key(runtime_id) {
            self@[runtime_id]
        } else {
            Seq::empty()
        }
    }

    pub fn new(max_entries: usize) -> (r: Self)
        ensures
            r@ == Map::<RuntimeId, Seq<LogEntryView>>::empty(),
            r.max_entries() == max_entries,
    {
        let r = LogStorage { max_entries, logs: HashMap::new() };
        assert(r@ =~= Map::<RuntimeId, Seq<LogEntryView>>::empty());
        r
    }

    /// The limit that the store was made with.
    pub fn limit(&self) -> (r: usize)
        ensures
            r == self.max_entries(),
    {
        self.max_entries
    }

    /// Adds a log entry of a runtime in front of the entries it has, and drops
    /// the oldest entries beyond the limit.
    pub fn add_log(&mut self, runtime_id: RuntimeId, entry: LogEntry)
        ensures
            final(self)@ == old(self)@.insert(
                runtime_id,
                capped_prepend(entry@, old(self).entries(runtime_id), old(self).max_entries()),
            ),
            final(self).max_entries() == old(self).max_entries(),
    {
        let mut entries = match self.logs.remove(&runtime_id) {
            Some(entries) => entries,
            None => Vec::new(),
        };
        assert(entries_view(entries@) =~= old(self).entries(runtime_id));
        entries.insert(0, entry);
        assert(entries_view(entries@) =~= seq![entry@] + old(self).entries(runtime_id));
        if entries.len() > self.max_entries {
            entries.truncate(self.max_entries);
        }
        assert(entries_view(entries@) =~= capped_prepend(
            entry@,
            old(self).entries(runtime_id),
            old(self).max_entries(),
        ));
        self.logs.insert(runtime_id, entries);
        assert(self@ =~= old(self)@.insert(
            runtime_id,
            capped_prepend(entry@, old(self).entries(runtime_id), old(self).max_entries()),
        ));
    }

    /// Gets a page of the logs of a runtime, filtered by level where one is
    /// given. Page 0 holds the most recent entries.
    pub fn get_page(&self, runtime_id: RuntimeId, level: Option<LogEntryLevel>, page: usize) -> (r:
        Vec<LogEntry>)
        ensures
            entries_view(r@) == page_of(
                self.entries(runtime_id).filter(level_filter(level)),
                page as nat,
            ),
            forall|i: int| 0 <= i < r.len() ==> passes(#[trigger] r[i]@, level),
    {
        let mut out: Vec<LogEntry> = Vec::new();
        proof {
            lemma_page_passes(self.entries(runtime_id), level, page as nat);
        }
        match self.logs.get(&runtime_id) {
            None => {
                proof {
                    reveal(Seq::filter);
                }
                assert(entries_view(out@) =~= Seq::<LogEntryView>::empty());
            },
            Some(entries) => {
                let ghost all = entries_view(entries@);
                let ghost pred = level_filter(level);
                assert(all == self.entries(runtime_id));
                let mut seen: usize = 0;
                let mut i: usize = 0;
                let start = page.checked_mul(LOG_PAGE_SIZE);
                proof {
                    reveal(Seq::filter);
                    assert(all.take(0) =~= Seq::<LogEntryView>::empty());
                }
                assert(entries_view(out@) =~= Seq::<LogEntryView>::empty());
                while i < entries.len()
                    invariant
                        i <= entries.len(),
                        all == entries_view(entries@),
                        pred == level_filter(level),
                        match start {
                            Some(s) => s == page * LOG_PAGE_SIZE,
                            None => page * LOG_PAGE_SIZE > usize::MAX,
                        },
                        seen == all.take(i as int).filter(pred).len(),
                        entries_view(out@) == page_of(all.take(i as int).filter(pred), page as nat),
                    decreases entries.len() - i,
                {
                    let entry = &entries[i];
                    let pass = match level {
                        Some(minimum) => entry.level.at_least(minimum),
                        None => true,
                    };
                    proof {
                        all.take(i as int).lemma_filter_push(all[i as int], pred);
                        assert(all.take(i as int).push(all[i as int]) =~= all.take(i as int + 1));
                        all.take(i as int).lemma_filter_len(pred);
                        assert(pass == pred(all[i as int]));
                    }
                    if pass {
                        let ghost prefix = all.take(i as int).filter(pred);
                        proof {
                            lemma_page_push(prefix, all[i as int], page as nat);
                        }
                        let in_page = match start {
                            Some(start) => seen >= start && seen - start < LOG_PAGE_SIZE,
                            None => false,
                        };
                        if in_page {
                            let copy = entry.clone();
                            let ghost shown = entries_view(out@);
                            out.push(copy);
                            assert(entries_view(out@) =~= shown.push(all[i as int]));
                        }
                        seen = seen + 1;
                    }
                    i += 1;
                }
                assert(all.take(entries.len() as int) =~= all);
            },
        }
        assert forall|i: int| 0 <= i < out.len() implies passes(#[trigger] out[i]@, level) by {
            assert(entries_view(out@)[i] == out[i]@);
        }
        out
    }

    /// Forgets the logs of a runtime.
    pub fn clear_logs(&mut self, runtime_id: RuntimeId)
        ensures
            final(self)@ == old(self)@.remove(runtime_id),
            final(self).max_entries() == old(self).max_entries(),
    {
        self.logs.remove(&runtime_id);
        assert(self@ =~= old(self)@.remove(runtime_id));
    }
}

impl Default for LogStorage {
    fn default() -> (r: Self)
        ensures
            r@ == Map::<RuntimeId, Seq<LogEntryView>>::empty(),
            r.max_entries() == MAX_LOG_ENTRIES,
    {
        LogStorage::new(MAX_LOG_ENTRIES)
    }
}

} // verus!
