//! What holds of the engine's operations on every state.
use crate::key_management::filters::{key_filter_holds, key_matches, lemma_matching_keys, matching_keys};
use crate::key_management::models::{KeyMetadataView, KeyStatus};
use crate::key_management::state::{
    approval_position, count_id, create_effect, distinct_ids, key_position, lemma_key_position, rotate_effect, rotation_obstacle, rotation_ready, upsert_key, EngineView, KeyRequest, PendingApprovalView,
};
use crate::text::without_prefix;
use crate::text_map::{lookup, Pair};
use crate::error::{PluginErrorView};
use vstd::prelude::*;

verus! {

/// Without filters every key is listed.
pub proof fn lemma_no_filter_keeps_all(keys: Seq<KeyMetadataView>)
    ensures
        matching_keys(keys, Seq::empty()) == keys,
    decreases keys.len(),
{
    if keys.len() > 0 {
        lemma_no_filter_keeps_all(keys.drop_last());
        assert(key_matches(keys.last(), Seq::empty()));
        assert(keys.drop_last().push(keys.last()) =~= keys);
    } else {
        assert(keys =~= Seq::empty());
    }
}

/// Among keys with distinct identifiers, the identifier of the key at
/// position `at` occurs once.
pub proof fn lemma_count_of_distinct(keys: Seq<KeyMetadataView>, at: int)
    requires
        distinct_ids(keys),
        0 <= at < keys.len(),
    ensures
        count_id(keys, keys[at].id) == 1,
    decreases keys.len(),
{
    let id = keys[at].id;
    let front = keys.drop_last();
    assert(distinct_ids(front)) by {
        assert forall|i: int, j: int| 0 <= i < j < front.len() implies (#[trigger] front[i]).id != (
        #[trigger] front[j]).id by {
            assert(keys[i].id != keys[j].id);
        }
    }
    if at == keys.len() - 1 {
        assert forall|i: int| 0 <= i < front.len() implies (#[trigger] front[i]).id != id by {
            assert(keys[i].id != keys[at].id);
        }
        lemma_count_of_absent(front, id);
    } else {
        assert(keys[at].id != keys[keys.len() - 1].id);
        assert(front[at] == keys[at]);
        lemma_count_of_distinct(front, at);
    }
}

/// An identifier that no key has occurs zero times.
pub proof fn lemma_count_of_absent(keys: Seq<KeyMetadataView>, id: Seq<char>)
    requires
        forall|i: int| 0 <= i < keys.len() ==> (#[trigger] keys[i]).id != id,
    ensures
        count_id(keys, id) == 0,
    decreases keys.len(),
{
    if keys.len() > 0 {
        assert(keys[keys.len() - 1].id != id);
        assert forall|i: int| 0 <= i < keys.drop_last().len() implies (#[trigger] keys.drop_last()[i]).id
            != id by {
            assert(keys[i].id != id);
        }
        lemma_count_of_absent(keys.drop_last(), id);
    }
}

/// Storing a key keeps the identifiers distinct, and the key stored is
/// then the one found under its identifier.
pub proof fn lemma_upsert_key(keys: Seq<KeyMetadataView>, m: KeyMetadataView)
    requires
        distinct_ids(keys),
    ensures
        distinct_ids(upsert_key(keys, m)),
        key_position(upsert_key(keys, m), m.id) >= 0,
        upsert_key(keys, m)[key_position(upsert_key(keys, m), m.id)] == m,
        count_id(upsert_key(keys, m), m.id) == 1,
{
    let after = upsert_key(keys, m);
    lemma_key_position(keys, m.id);
    lemma_key_position(after, m.id);
    let at = key_position(keys, m.id);
    if at >= 0 {
        assert forall|i: int, j: int| 0 <= i < j < after.len() implies (#[trigger] after[i]).id != (
        #[trigger] after[j]).id by {
            assert(keys[i].id != keys[j].id);
            assert(after[i].id == keys[i].id);
            assert(after[j].id == keys[j].id);
        }
        assert(after[at].id == m.id);
        if key_position(after, m.id) != at {
            let other = key_position(after, m.id);
            if other < 0 {
                assert(false);
            } else if other < at {
                assert(after[other].id != after[at].id);
            } else {
                assert(after[at].id != after[other].id);
            }
        }
        lemma_count_of_distinct(after, at);
    } else {
        assert forall|i: int, j: int| 0 <= i < j < after.len() implies (#[trigger] after[i]).id != (
        #[trigger] after[j]).id by {
            if j < keys.len() {
                assert(keys[i].id != keys[j].id);
            } else {
                assert(keys[i].id != m.id);
            }
        }
        assert(after[keys.len() as int].id == m.id);
        lemma_count_of_distinct(after, keys.len() as int);
    }
}

/// Storing a key whose version is at least 1 leaves the state well formed.
pub proof fn lemma_store_keeps_well_formed(pre: EngineView, m: KeyMetadataView)
    requires
        pre.well_formed(),
        m.version >= 1,
    ensures
        pre.store(m).well_formed(),
{
    lemma_upsert_key(pre.keys, m);
    lemma_key_position(pre.keys, m.id);
    let after = upsert_key(pre.keys, m);
    assert forall|i: int| 0 <= i < after.len() implies (#[trigger] after[i]).version >= 1 by {
        if i < pre.keys.len() && i != key_position(pre.keys, m.id) {
            assert(pre.keys[i].version >= 1);
        }
    }
}

/// Creating and rotating keys leave a well-formed state well formed,
/// whatever the outside world supplies.
pub proof fn law_operations_keep_state_well_formed(
    pre: EngineView,
    request: KeyRequest,
    key_id: Seq<char>,
    user: Seq<char>,
    now: i64,
    entry_id: Seq<char>,
    entry_time: i64,
    operation_id: Seq<char>,
    provisioned: Result<(), Seq<char>>,
)
    requires
        pre.well_formed(),
    ensures
        create_effect(pre, request, key_id, now, entry_id, entry_time, provisioned).0.well_formed(),
        rotate_effect(
            pre,
            key_id,
            user,
            now,
            entry_id,
            entry_time,
            operation_id,
            provisioned,
        ).0.well_formed(),
{
    lemma_store_keeps_well_formed(pre, request.metadata(key_id, now));
    lemma_key_position(pre.keys, key_id);
    if rotation_ready(pre, key_id) {
        let before = pre.keys[key_position(pre.keys, key_id)];
        let m = KeyMetadataView { updated_at: now, version: (before.version + 1) as u32, ..before };
        lemma_store_keeps_well_formed(pre, m);
    }
}

/// A key that was created is listed exactly once when all keys are listed,
/// in version 1 and active, whatever its algorithm.
pub proof fn law_created_key_is_listed_once(
    pre: EngineView,
    request: KeyRequest,
    key_id: Seq<char>,
    now: i64,
    entry_id: Seq<char>,
    entry_time: i64,
)
    requires
        distinct_ids(pre.keys),
    ensures
        ({
            let (post, result) = create_effect(pre, request, key_id, now, entry_id, entry_time, Ok(()));
            let listed = matching_keys(post.keys, Seq::empty());
            &&& result.is_ok()
            &&& result->Ok_0.id == key_id
            &&& result->Ok_0.version == 1
            &&& result->Ok_0.status == KeyStatus::Active
            &&& result->Ok_0.algorithm == request.algorithm
            &&& count_id(listed, key_id) == 1
            &&& listed.contains(result->Ok_0)
            &&& distinct_ids(post.keys)
            &&& post.audit_log.len() == pre.audit_log.len() + 1
        }),
{
    let (post, result) = create_effect(pre, request, key_id, now, entry_id, entry_time, Ok(()));
    let m = request.metadata(key_id, now);
    lemma_upsert_key(pre.keys, m);
    lemma_no_filter_keeps_all(post.keys);
    lemma_key_position(post.keys, key_id);
    assert(post.keys[key_position(post.keys, key_id)] == m);
}

/// Where the security module fails, creating a key changes nothing.
pub proof fn law_failed_creation_changes_nothing(
    pre: EngineView,
    request: KeyRequest,
    key_id: Seq<char>,
    now: i64,
    entry_id: Seq<char>,
    entry_time: i64,
    error: Seq<char>,
)
    ensures
        create_effect(pre, request, key_id, now, entry_id, entry_time, Err(error)) == (
            pre,
            Err::<KeyMetadataView, PluginErrorView>(PluginErrorView::SecurityModule(error)),
        ),
{
}

/// Rotating an active key that needs no approval makes its version one
/// greater and sets the time of its last update to the time of the
/// rotation, which is later than before where the clock has moved on. The
/// key's identifier and algorithm, and all else, stay.
pub proof fn law_rotation_bumps_version(
    pre: EngineView,
    key_id: Seq<char>,
    user: Seq<char>,
    now: i64,
    entry_id: Seq<char>,
    entry_time: i64,
    operation_id: Seq<char>,
)
    requires
        distinct_ids(pre.keys),
        rotation_ready(pre, key_id),
    ensures
        ({
            let before = pre.keys[key_position(pre.keys, key_id)];
            let (post, result) = rotate_effect(
                pre,
                key_id,
                user,
                now,
                entry_id,
                entry_time,
                operation_id,
                Ok(()),
            );
            &&& result.is_ok()
            &&& result->Ok_0.version == before.version + 1
            &&& result->Ok_0.updated_at == now
            &&& now > before.updated_at ==> result->Ok_0.updated_at > before.updated_at
            &&& result->Ok_0.id == before.id
            &&& result->Ok_0.algorithm == before.algorithm
            &&& result->Ok_0 == (KeyMetadataView {
                version: result->Ok_0.version,
                updated_at: now,
                ..before
            })
            &&& post.keys == pre.keys.update(key_position(pre.keys, key_id), result->Ok_0)
            &&& distinct_ids(post.keys)
            &&& post.audit_log.len() == pre.audit_log.len() + 1
            &&& post.pending_approvals == pre.pending_approvals
        }),
{
    lemma_key_position(pre.keys, key_id);
    let before = pre.keys[key_position(pre.keys, key_id)];
    let m = KeyMetadataView { updated_at: now, version: (before.version + 1) as u32, ..before };
    lemma_upsert_key(pre.keys, m);
}

/// Rotating an active key that requires approval leaves every key as it
/// was, its version too, and fails with `ApprovalRequired` carrying the
/// operation identifier that was drawn for this call: two calls for which
/// different identifiers were drawn carry different ones.
pub proof fn law_guarded_rotation_awaits_approval(
    pre: EngineView,
    key_id: Seq<char>,
    user: Seq<char>,
    now: i64,
    entry_id: Seq<char>,
    entry_time: i64,
    operation_id: Seq<char>,
    provisioned: Result<(), Seq<char>>,
)
    requires
        key_position(pre.keys, key_id) >= 0,
        pre.keys[key_position(pre.keys, key_id)].status == KeyStatus::Active,
        pre.keys[key_position(pre.keys, key_id)].requires_approval,
    ensures
        ({
            let (post, result) = rotate_effect(
                pre,
                key_id,
                user,
                now,
                entry_id,
                entry_time,
                operation_id,
                provisioned,
            );
            &&& result == Err::<KeyMetadataView, PluginErrorView>(PluginErrorView::ApprovalRequired(operation_id))
            &&& post.keys == pre.keys
            &&& post.audit_log.len() == pre.audit_log.len() + 1
            &&& post.audit_log.last().action == "REQUEST_KEY_ROTATION"@
            &&& exists|i: int|
                0 <= i < post.pending_approvals.len() && (#[trigger] post.pending_approvals[i]).operation_id
                    == operation_id && post.pending_approvals[i].key_id == key_id
        }),
{
    let (post, result) = rotate_effect(
        pre,
        key_id,
        user,
        now,
        entry_id,
        entry_time,
        operation_id,
        provisioned,
    );
    let at = approval_position(pre.pending_approvals, operation_id);
    if at >= 0 {
        lemma_approval_position_bounds(pre.pending_approvals, operation_id);
        assert(post.pending_approvals[at].operation_id == operation_id);
    } else {
        assert(post.pending_approvals[pre.pending_approvals.len() as int].operation_id == operation_id);
    }
}

/// `approval_position` is -1 or a position of the sequence.
pub proof fn lemma_approval_position_bounds(
    approvals: Seq<PendingApprovalView>,
    id: Seq<char>,
)
    ensures
        -1 <= approval_position(approvals, id) < approvals.len(),
    decreases approvals.len(),
{
    if approvals.len() > 0 && approvals.last().operation_id != id {
        lemma_approval_position_bounds(approvals.drop_last(), id);
    }
}

/// Rotating a key that is not there fails with `NotFound`, writes exactly
/// one audit entry, which records the failure, and changes nothing else.
pub proof fn law_rotating_absent_key(
    pre: EngineView,
    key_id: Seq<char>,
    user: Seq<char>,
    now: i64,
    entry_id: Seq<char>,
    entry_time: i64,
    operation_id: Seq<char>,
    provisioned: Result<(), Seq<char>>,
)
    requires
        key_position(pre.keys, key_id) < 0,
    ensures
        ({
            let (post, result) = rotate_effect(
                pre,
                key_id,
                user,
                now,
                entry_id,
                entry_time,
                operation_id,
                provisioned,
            );
            &&& result == Err::<KeyMetadataView, PluginErrorView>(PluginErrorView::NotFound)
            &&& post.keys == pre.keys
            &&& post.pending_approvals == pre.pending_approvals
            &&& post.audit_log.len() == pre.audit_log.len() + 1
            &&& post.audit_log.drop_last() == pre.audit_log
            &&& !post.audit_log.last().success
            &&& post.audit_log.last().key_id == Some(key_id)
            &&& post.audit_log.last().error == Some(PluginErrorView::NotFound.text())
        }),
{
    let (post, result) = rotate_effect(
        pre,
        key_id,
        user,
        now,
        entry_id,
        entry_time,
        operation_id,
        provisioned,
    );
    assert(post.audit_log.drop_last() =~= pre.audit_log);
}

/// Every attempt to rotate a key writes exactly one audit entry and leaves
/// the earlier entries as they were, except where the security module was
/// asked and failed: then the state stays as it was.
pub proof fn law_one_audit_entry_per_rotation(
    pre: EngineView,
    key_id: Seq<char>,
    user: Seq<char>,
    now: i64,
    entry_id: Seq<char>,
    entry_time: i64,
    operation_id: Seq<char>,
    provisioned: Result<(), Seq<char>>,
)
    ensures
        ({
            let (post, result) = rotate_effect(
                pre,
                key_id,
                user,
                now,
                entry_id,
                entry_time,
                operation_id,
                provisioned,
            );
            if rotation_ready(pre, key_id) && provisioned.is_err() {
                post == pre && result.is_err()
            } else {
                &&& post.audit_log.len() == pre.audit_log.len() + 1
                &&& post.audit_log.drop_last() == pre.audit_log
                &&& post.audit_log.last().id == entry_id
                &&& post.audit_log.last().success == !(rotation_obstacle(pre, key_id).is_some())
            }
        }),
{
    let (post, result) = rotate_effect(
        pre,
        key_id,
        user,
        now,
        entry_id,
        entry_time,
        operation_id,
        provisioned,
    );
    if !(rotation_ready(pre, key_id) && provisioned.is_err()) {
        assert(post.audit_log.drop_last() =~= pre.audit_log);
    }
}

/// Filters are conjoined: a key meets two lists of filters put together
/// where it meets each of the two.
pub proof fn law_filters_are_conjoined(k: KeyMetadataView, first: Seq<Pair>, second: Seq<Pair>)
    ensures
        key_matches(k, first + second) <==> key_matches(k, first) && key_matches(k, second),
{
    let both = first + second;
    if key_matches(k, both) {
        assert forall|i: int| 0 <= i < first.len() implies key_filter_holds(
            k,
            (#[trigger] first[i]).0,
            first[i].1,
        ) by {
            assert(both[i] == first[i]);
        }
        assert forall|i: int| 0 <= i < second.len() implies key_filter_holds(
            k,
            (#[trigger] second[i]).0,
            second[i].1,
        ) by {
            assert(both[first.len() + i] == second[i]);
        }
    }
    if key_matches(k, first) && key_matches(k, second) {
        assert forall|i: int| 0 <= i < both.len() implies key_filter_holds(
            k,
            (#[trigger] both[i]).0,
            both[i].1,
        ) by {
            if i < first.len() {
                assert(both[i] == first[i]);
            } else {
                assert(both[i] == second[i - first.len()]);
            }
        }
    }
}

/// A filter on a name that is none of `status`, `type`, `algorithm` and
/// `owner` and does not begin with `tag.` holds of every key.
pub proof fn law_unknown_filter_is_ignored(k: KeyMetadataView, name: Seq<char>, value: Seq<char>)
    requires
        name != "status"@,
        name != "type"@,
        name != "algorithm"@,
        name != "owner"@,
        !"tag."@.is_prefix_of(name),
    ensures
        key_filter_holds(k, name, value),
{
}

/// The filter that asks for the tag `tag` with the value `value`.
pub open spec fn tag_filter(tag: Seq<char>, value: Seq<char>) -> Seq<Pair> {
    seq![("tag."@ + tag, value)]
}

/// Listing with a filter on one tag returns the keys whose tags give this
/// tag this value, and no others: a key without the tag, or with another
/// value for it, is left out.
pub proof fn law_tag_filter(keys: Seq<KeyMetadataView>, tag: Seq<char>, value: Seq<char>)
    ensures
        forall|k: KeyMetadataView| #[trigger]
            matching_keys(keys, tag_filter(tag, value)).contains(k) <==> keys.contains(k) && lookup(
                k.tags,
                tag,
            ) == Some(value),
{
    let filters = tag_filter(tag, value);
    let name = "tag."@ + tag;
    reveal_strlit("tag.");
    reveal_strlit("status");
    reveal_strlit("type");
    reveal_strlit("algorithm");
    reveal_strlit("owner");
    assert(name[0] == 't' && name[1] == 'a');
    assert("status"@[0] == 's');
    assert("type"@[1] == 'y');
    assert("algorithm"@[0] == 'a');
    assert("owner"@[0] == 'o');
    assert("tag."@.is_prefix_of(name));
    assert(name.skip(4) =~= tag);
    assert(without_prefix(name, "tag."@) == Some(tag));
    lemma_matching_keys(keys, filters);
    assert forall|k: KeyMetadataView| key_matches(k, filters) <==> lookup(k.tags, tag) == Some(
        value,
    ) by {
        assert(key_filter_holds(k, name, value) <==> lookup(k.tags, tag) == Some(value));
        if key_matches(k, filters) {
            assert(key_filter_holds(k, filters[0].0, filters[0].1));
        }
    }
}

} // verus!
