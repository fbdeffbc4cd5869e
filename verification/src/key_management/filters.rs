//! Filters over key metadata and audit log entries: a map from field names
//! to the values expected, all of which must hold.
use crate::key_management::models::{
    AuditLogEntry, AuditLogEntryView, KeyMetadata, KeyMetadataView,
};
use crate::text::{same_text, strip_prefix, without_prefix};
use crate::text_map::{lookup, Pair, TextMap};
use vstd::prelude::*;

verus! {

/// Whether the key meets one filter. The names `status`, `type`, `algorithm`
/// and `owner` compare a field with the value; `tag.` followed by a tag's
/// name asks that the key carry this tag with this value; any other name
/// holds of every key.
pub open spec fn key_filter_holds(k: KeyMetadataView, name: Seq<char>, value: Seq<char>) -> bool {
    if name == "status"@ {
        k.status.label() == value
    } else if name == "type"@ {
        k.key_type.label() == value
    } else if name == "algorithm"@ {
        k.algorithm.label() == value
    } else if name == "owner"@ {
        k.owner == value
    } else {
        match without_prefix(name, "tag."@) {
            Some(tag) => lookup(k.tags, tag) == Some(value),
            None => true,
        }
    }
}

/// Whether the key meets every filter.
pub open spec fn key_matches(k: KeyMetadataView, filters: Seq<Pair>) -> bool {
    forall|i: int| 0 <= i < filters.len() ==> key_filter_holds(k, (#[trigger] filters[i]).0, filters[i].1)
}

/// The keys of `keys` that meet every filter, in their order.
pub open spec fn matching_keys(keys: Seq<KeyMetadataView>, filters: Seq<Pair>) -> Seq<KeyMetadataView>
    decreases keys.len(),
{
    if keys.len() == 0 {
        Seq::empty()
    } else if key_matches(keys.last(), filters) {
        matching_keys(keys.drop_last(), filters).push(keys.last())
    } else {
        matching_keys(keys.drop_last(), filters)
    }
}

/// The views of a sequence of keys.
pub open spec fn key_views(keys: Seq<KeyMetadata>) -> Seq<KeyMetadataView> {
    keys.map_values(|k: KeyMetadata| k@)
}

/// The filters that an optional map stands for: none where there is no map.
pub open spec fn filters_of(filters: Option<&TextMap>) -> Seq<Pair> {
    match filters {
        Some(f) => f@,
        None => Seq::empty(),
    }
}

/// Every key that `matching_keys` keeps is one of `keys` and meets the
/// filters, and every key of `keys` that meets them is kept.
pub proof fn lemma_matching_keys(keys: Seq<KeyMetadataView>, filters: Seq<Pair>)
    ensures
        forall|k: KeyMetadataView| #[trigger]
            matching_keys(keys, filters).contains(k) <==> keys.contains(k) && key_matches(k, filters),
        matching_keys(keys, filters).len() <= keys.len(),
    decreases keys.len(),
{
    if keys.len() > 0 {
        let front = keys.drop_last();
        let kept = matching_keys(front, filters);
        lemma_matching_keys(front, filters);
        assert forall|k: KeyMetadataView| #[trigger]
            matching_keys(keys, filters).contains(k) <==> keys.contains(k) && key_matches(
                k,
                filters,
            ) by {
            assert(keys =~= front.push(keys.last()));
            if matching_keys(keys, filters).contains(k) {
                let i = choose|i: int|
                    0 <= i < matching_keys(keys, filters).len() && matching_keys(keys, filters)[i] == k;
                if i < kept.len() {
                    assert(kept.contains(k));
                    let j = choose|j: int| 0 <= j < front.len() && front[j] == k;
                    assert(keys[j] == k);
                } else {
                    assert(k == keys.last());
                    assert(keys[keys.len() - 1] == k);
                }
            }
            if keys.contains(k) && key_matches(k, filters) {
                let j = choose|j: int| 0 <= j < keys.len() && keys[j] == k;
                if j < front.len() {
                    assert(front[j] == k);
                    assert(kept.contains(k));
                    let i = choose|i: int| 0 <= i < kept.len() && kept[i] == k;
                    assert(matching_keys(keys, filters)[i] == k);
                } else {
                    assert(matching_keys(keys, filters).last() == k);
                }
            }
        }
    }
}

/// Whether the key meets the filter `name` = `value`.
fn check_key_filter(metadata: &KeyMetadata, name: &str, value: &str) -> (r: bool)
    ensures
        r == key_filter_holds(metadata@, name@, value@),
{
    if same_text(name, "status") {
        same_text(metadata.status.as_label(), value)
    } else if same_text(name, "type") {
        same_text(metadata.key_type.as_label(), value)
    } else if same_text(name, "algorithm") {
        same_text(metadata.algorithm.as_label(), value)
    } else if same_text(name, "owner") {
        same_text(metadata.owner.as_str(), value)
    } else {
        match strip_prefix(name, "tag.") {
            Some(tag) => match metadata.tags.get(tag) {
                Some(v) => same_text(v.as_str(), value),
                None => false,
            },
            None => true,
        }
    }
}

/// Whether the key meets every filter of `filters`.
pub fn key_meets(metadata: &KeyMetadata, filters: &TextMap) -> (r: bool)
    ensures
        r == key_matches(metadata@, filters@),
{
    let mut i: usize = 0;
    while i < filters.len()
        invariant
            i <= filters@.len(),
            forall|j: int| 0 <= j < i ==> key_filter_holds(metadata@, (#[trigger] filters@[j]).0, filters@[j].1),
        decreases filters@.len() - i,
    {
        if !check_key_filter(metadata, filters.key_at(i).as_str(), filters.value_at(i).as_str()) {
            return false;
        }
        i += 1;
    }
    true
}

/// The keys of `keys` that meet every filter, in their order; all of them
/// where there is no filter.
pub fn select_keys(keys: &Vec<KeyMetadata>, filters: Option<&TextMap>) -> (r: Vec<KeyMetadata>)
    ensures
        key_views(r@) == matching_keys(key_views(keys@), filters_of(filters)),
{
    let mut out: Vec<KeyMetadata> = Vec::new();
    let mut i: usize = 0;
    assert(key_views(keys@).take(0) =~= Seq::empty());
    assert(key_views(out@) =~= Seq::empty());
    while i < keys.len()
        invariant
            i <= keys@.len(),
            key_views(out@) == matching_keys(key_views(keys@).take(i as int), filters_of(filters)),
        decreases keys@.len() - i,
    {
        let ghost before = key_views(keys@).take(i as int);
        let ghost after = key_views(keys@).take(i + 1);
        let ghost kept = key_views(out@);
        proof {
            assert(after.drop_last() =~= before);
            assert(after.last() == keys@[i as int]@);
        }
        let keep = match filters {
            Some(f) => key_meets(&keys[i], f),
            None => true,
        };
        if keep {
            out.push(keys[i].clone());
            assert(key_views(out@) =~= kept.push(keys@[i as int]@));
        }
        i += 1;
    }
    assert(key_views(keys@).take(i as int) =~= key_views(keys@));
    out
}

/// Whether the entry meets one filter. The names `action`, `user` and
/// `key_id` compare a field with the value; `success` compares the entry's
/// flag with whether the value is `true`; any other name holds of every
/// entry.
pub open spec fn audit_filter_holds(e: AuditLogEntryView, name: Seq<char>, value: Seq<char>) -> bool {
    if name == "action"@ {
        e.action == value
    } else if name == "user"@ {
        e.user == value
    } else if name == "key_id"@ {
        e.key_id == Some(value)
    } else if name == "success"@ {
        e.success == (value == "true"@)
    } else {
        true
    }
}

/// Whether the entry meets every filter.
pub open spec fn audit_matches(e: AuditLogEntryView, filters: Seq<Pair>) -> bool {
    forall|i: int|
        0 <= i < filters.len() ==> audit_filter_holds(e, (#[trigger] filters[i]).0, filters[i].1)
}

/// The entries of `logs` that meet every filter, in their order.
pub open spec fn matching_logs(logs: Seq<AuditLogEntryView>, filters: Seq<Pair>) -> Seq<
    AuditLogEntryView,
>
    decreases logs.len(),
{
    if logs.len() == 0 {
        Seq::empty()
    } else if audit_matches(logs.last(), filters) {
        matching_logs(logs.drop_last(), filters).push(logs.last())
    } else {
        matching_logs(logs.drop_last(), filters)
    }
}

/// The views of a sequence of entries.
pub open spec fn log_views(logs: Seq<AuditLogEntry>) -> Seq<AuditLogEntryView> {
    logs.map_values(|e: AuditLogEntry| e@)
}

/// The first `limit` of `logs`, or all of them where there is no limit or
/// fewer entries.
pub open spec fn limited(logs: Seq<AuditLogEntryView>, limit: Option<usize>) -> Seq<AuditLogEntryView> {
    match limit {
        Some(n) => if logs.len() > n {
            logs.take(n as int)
        } else {
            logs
        },
        None => logs,
    }
}

/// Where an entry made at `timestamp` goes among `sorted`, which are
/// ordered newest first: behind every entry that is as new or newer.
pub open spec fn insertion_point(sorted: Seq<AuditLogEntryView>, timestamp: i64) -> int
    decreases sorted.len(),
{
    if sorted.len() == 0 {
        0
    } else if sorted.last().timestamp >= timestamp {
        sorted.len() as int
    } else {
        insertion_point(sorted.drop_last(), timestamp)
    }
}

/// The entries of `logs` ordered newest first; entries of the same time
/// keep their order.
pub open spec fn newest_first(logs: Seq<AuditLogEntryView>) -> Seq<AuditLogEntryView>
    decreases logs.len(),
{
    if logs.len() == 0 {
        Seq::empty()
    } else {
        let sorted = newest_first(logs.drop_last());
        sorted.insert(insertion_point(sorted, logs.last().timestamp), logs.last())
    }
}

/// Whether no entry of `logs` is newer than one before it.
pub open spec fn is_newest_first(logs: Seq<AuditLogEntryView>) -> bool {
    forall|i: int, j: int| 0 <= i < j < logs.len() ==> logs[i].timestamp >= logs[j].timestamp
}

/// The insertion point lies within the sequence; among entries ordered
/// newest first, every entry before it is as new as the time given or newer,
/// and every entry from it on is older.
pub proof fn lemma_insertion_point(sorted: Seq<AuditLogEntryView>, timestamp: i64)
    ensures
        0 <= insertion_point(sorted, timestamp) <= sorted.len(),
        forall|i: int|
            insertion_point(sorted, timestamp) <= i < sorted.len() ==> (#[trigger] sorted[i]).timestamp
                < timestamp,
        is_newest_first(sorted) ==> forall|i: int|
            0 <= i < insertion_point(sorted, timestamp) ==> (#[trigger] sorted[i]).timestamp >= timestamp,
    decreases sorted.len(),
{
    if sorted.len() > 0 && sorted.last().timestamp < timestamp {
        let front = sorted.drop_last();
        lemma_insertion_point(front, timestamp);
        assert forall|i: int|
            insertion_point(sorted, timestamp) <= i < sorted.len() implies (#[trigger] sorted[i]).timestamp
            < timestamp by {
            if i < front.len() {
                assert(front[i].timestamp < timestamp);
            }
        }
        if is_newest_first(sorted) {
            assert(is_newest_first(front)) by {
                assert forall|i: int, j: int| 0 <= i < j < front.len() implies front[i].timestamp
                    >= front[j].timestamp by {
                    assert(sorted[i].timestamp >= sorted[j].timestamp);
                }
            }
            assert forall|i: int| 0 <= i < insertion_point(sorted, timestamp) implies (
            #[trigger] sorted[i]).timestamp >= timestamp by {
                assert(front[i].timestamp >= timestamp);
            }
        }
    } else if sorted.len() > 0 {
        if is_newest_first(sorted) {
            assert forall|i: int| 0 <= i < sorted.len() implies (#[trigger] sorted[i]).timestamp
                >= timestamp by {
                if i < sorted.len() - 1 {
                    assert(sorted[i].timestamp >= sorted[sorted.len() - 1].timestamp);
                }
            }
        }
    }
}

/// `newest_first` orders its entries newest first, and holds each entry as
/// often as `logs` does.
pub proof fn lemma_newest_first(logs: Seq<AuditLogEntryView>)
    ensures
        is_newest_first(newest_first(logs)),
        newest_first(logs).len() == logs.len(),
        newest_first(logs).to_multiset() == logs.to_multiset(),
    decreases logs.len(),
{
    if logs.len() == 0 {
        assert(logs =~= Seq::empty());
    } else {
        let front = logs.drop_last();
        let e = logs.last();
        let sorted = newest_first(front);
        let at = insertion_point(sorted, e.timestamp);
        let r = sorted.insert(at, e);
        lemma_newest_first(front);
        lemma_insertion_point(sorted, e.timestamp);
        assert forall|i: int, j: int| 0 <= i < j < r.len() implies r[i].timestamp
            >= r[j].timestamp by {
            if j < at {
                assert(sorted[i].timestamp >= sorted[j].timestamp);
            } else if j == at {
                assert(sorted[i].timestamp >= e.timestamp);
            } else if i < at {
                assert(sorted[i].timestamp >= sorted[j - 1].timestamp);
            } else if i == at {
                assert(sorted[j - 1].timestamp < e.timestamp);
            } else {
                assert(sorted[i - 1].timestamp >= sorted[j - 1].timestamp);
            }
        }
        vstd::seq_lib::to_multiset_insert(sorted, at, e);
        assert(logs =~= front.push(e));
        vstd::seq_lib::to_multiset_build(front, e);
    }
}

/// Whether the entry meets the filter `name` = `value`.
fn check_audit_filter(entry: &AuditLogEntry, name: &str, value: &str) -> (r: bool)
    ensures
        r == audit_filter_holds(entry@, name@, value@),
{
    if same_text(name, "action") {
        same_text(entry.action.as_str(), value)
    } else if same_text(name, "user") {
        same_text(entry.user.as_str(), value)
    } else if same_text(name, "key_id") {
        match &entry.key_id {
            Some(id) => same_text(id.as_str(), value),
            None => false,
        }
    } else if same_text(name, "success") {
        entry.success == same_text(value, "true")
    } else {
        true
    }
}

/// Whether the entry meets every filter of `filters`.
pub fn audit_meets(entry: &AuditLogEntry, filters: &TextMap) -> (r: bool)
    ensures
        r == audit_matches(entry@, filters@),
{
    let mut i: usize = 0;
    while i < filters.len()
        invariant
            i <= filters@.len(),
            forall|j: int|
                0 <= j < i ==> audit_filter_holds(entry@, (#[trigger] filters@[j]).0, filters@[j].1),
        decreases filters@.len() - i,
    {
        if !check_audit_filter(entry, filters.key_at(i).as_str(), filters.value_at(i).as_str()) {
            return false;
        }
        i += 1;
    }
    true
}

/// The entries of `logs` that meet every filter, in their order; all of
/// them where there is no filter.
pub fn select_logs(logs: &Vec<AuditLogEntry>, filters: Option<&TextMap>) -> (r: Vec<AuditLogEntry>)
    ensures
        log_views(r@) == matching_logs(log_views(logs@), filters_of(filters)),
{
    let mut out: Vec<AuditLogEntry> = Vec::new();
    let mut i: usize = 0;
    assert(log_views(logs@).take(0) =~= Seq::empty());
    assert(log_views(out@) =~= Seq::empty());
    while i < logs.len()
        invariant
            i <= logs@.len(),
            log_views(out@) == matching_logs(log_views(logs@).take(i as int), filters_of(filters)),
        decreases logs@.len() - i,
    {
        let ghost before = log_views(logs@).take(i as int);
        let ghost after = log_views(logs@).take(i + 1);
        let ghost kept = log_views(out@);
        proof {
            assert(after.drop_last() =~= before);
            assert(after.last() == logs@[i as int]@);
        }
        let keep = match filters {
            Some(f) => audit_meets(&logs[i], f),
            None => true,
        };
        if keep {
            out.push(logs[i].clone());
            assert(log_views(out@) =~= kept.push(logs@[i as int]@));
        }
        i += 1;
    }
    assert(log_views(logs@).take(i as int) =~= log_views(logs@));
    out
}

/// Where an entry made at `timestamp` goes among `sorted`.
fn find_insertion_point(sorted: &Vec<AuditLogEntry>, timestamp: i64) -> (r: usize)
    ensures
        r == insertion_point(log_views(sorted@), timestamp),
        r <= sorted@.len(),
{
    let ghost all = log_views(sorted@);
    let mut i: usize = sorted.len();
    assert(all.take(i as int) =~= all);
    while i > 0 && sorted[i - 1].timestamp < timestamp
        invariant
            i <= sorted@.len(),
            all == log_views(sorted@),
            insertion_point(all, timestamp) == insertion_point(all.take(i as int), timestamp),
        decreases i,
    {
        proof {
            assert(all.take(i as int).last() == sorted@[i - 1]@);
            assert(all.take(i as int).drop_last() =~= all.take(i - 1));
        }
        i -= 1;
    }
    proof {
        if i > 0 {
            assert(all.take(i as int).last() == sorted@[i - 1]@);
        }
    }
    i
}

/// The entries of `logs` ordered newest first; entries of the same time
/// keep their order.
pub fn order_newest_first(logs: &Vec<AuditLogEntry>) -> (r: Vec<AuditLogEntry>)
    ensures
        log_views(r@) == newest_first(log_views(logs@)),
{
    let mut out: Vec<AuditLogEntry> = Vec::new();
    let mut i: usize = 0;
    assert(log_views(logs@).take(0) =~= Seq::empty());
    assert(log_views(out@) =~= Seq::empty());
    while i < logs.len()
        invariant
            i <= logs@.len(),
            out@.len() == i,
            log_views(out@) == newest_first(log_views(logs@).take(i as int)),
        decreases logs@.len() - i,
    {
        let ghost after = log_views(logs@).take(i + 1);
        let ghost sorted = log_views(out@);
        proof {
            assert(after.drop_last() =~= log_views(logs@).take(i as int));
            assert(after.last() == logs@[i as int]@);
        }
        let at = find_insertion_point(&out, logs[i].timestamp);
        out.insert(at, logs[i].clone());
        assert(log_views(out@) =~= sorted.insert(at as int, logs@[i as int]@));
        i += 1;
    }
    assert(log_views(logs@).take(i as int) =~= log_views(logs@));
    out
}

/// The first `limit` of `logs`, or all of them where there is no limit or
/// fewer entries.
pub fn limit_logs(logs: Vec<AuditLogEntry>, limit: Option<usize>) -> (r: Vec<AuditLogEntry>)
    ensures
        log_views(r@) == limited(log_views(logs@), limit),
{
    let mut out = logs;
    match limit {
        Some(n) => {
            if out.len() > n {
                out.truncate(n);
                assert(log_views(out@) =~= log_views(logs@).take(n as int));
            }
        },
        None => {},
    }
    out
}

} // verus!
