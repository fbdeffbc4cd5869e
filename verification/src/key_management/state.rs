//! The key management engine as a mathematical state, and what each
//! operation makes of it.
use crate::key_management::models::{
    AuditLogEntry, AuditLogEntryView, KeyAlgorithm, KeyMetadata, KeyMetadataView, KeyStatus, KeyType,
};
use crate::error::{PluginError, PluginErrorView};
use crate::text_map::Pair;
use vstd::prelude::*;

verus! {

/// The view of what an operation on a key returns.
pub open spec fn outcome_view(r: Result<KeyMetadata, PluginError>) -> Result<KeyMetadataView, PluginErrorView> {
    match r {
        Ok(m) => Ok(m@),
        Err(e) => Err(e@),
    }
}

/// The view of what the security module answered.
pub open spec fn provision_view(r: Result<(), String>) -> Result<(), Seq<char>> {
    match r {
        Ok(_) => Ok(()),
        Err(e) => Err(e@),
    }
}

/// An operation that was asked for on a key that requires approval, and
/// was recorded instead of carried out.
#[derive(Debug)]
pub struct PendingApproval {
    pub operation_id: String,
    pub key_id: String,
    pub operation: String,
}

/// A `PendingApproval` as plain values.
pub ghost struct PendingApprovalView {
    pub operation_id: Seq<char>,
    pub key_id: Seq<char>,
    pub operation: Seq<char>,
}

impl View for PendingApproval {
    type V = PendingApprovalView;

    open spec fn view(&self) -> PendingApprovalView {
        PendingApprovalView {
            operation_id: self.operation_id@,
            key_id: self.key_id@,
            operation: self.operation@,
        }
    }
}

impl Clone for PendingApproval {
    fn clone(&self) -> (r: Self)
        ensures
            r@ == self@,
    {
        PendingApproval {
            operation_id: self.operation_id.clone(),
            key_id: self.key_id.clone(),
            operation: self.operation.clone(),
        }
    }
}

/// A write that the persistence store is to mirror.
#[derive(Debug)]
pub enum MirrorWrite {
    Key(KeyMetadata),
    Audit(AuditLogEntry),
}

/// A `MirrorWrite` as plain values.
pub ghost enum MirrorWriteView {
    Key(KeyMetadataView),
    Audit(AuditLogEntryView),
}

impl View for MirrorWrite {
    type V = MirrorWriteView;

    open spec fn view(&self) -> MirrorWriteView {
        match self {
            MirrorWrite::Key(k) => MirrorWriteView::Key(k@),
            MirrorWrite::Audit(e) => MirrorWriteView::Audit(e@),
        }
    }
}

/// The views of a sequence of pending approvals.
pub open spec fn approval_views(s: Seq<PendingApproval>) -> Seq<PendingApprovalView> {
    s.map_values(|a: PendingApproval| a@)
}

/// The views of a sequence of writes.
pub open spec fn write_views(s: Seq<MirrorWrite>) -> Seq<MirrorWriteView> {
    s.map_values(|w: MirrorWrite| w@)
}

/// The position of the last key of `keys` with the identifier `id`, or -1.
pub open spec fn key_position(keys: Seq<KeyMetadataView>, id: Seq<char>) -> int
    decreases keys.len(),
{
    if keys.len() == 0 {
        -1
    } else if keys.last().id == id {
        keys.len() - 1
    } else {
        key_position(keys.drop_last(), id)
    }
}

/// `keys` with `m` stored under its identifier: in the place of the key that
/// had it, or at the end.
pub open spec fn upsert_key(keys: Seq<KeyMetadataView>, m: KeyMetadataView) -> Seq<KeyMetadataView> {
    if key_position(keys, m.id) >= 0 {
        keys.update(key_position(keys, m.id), m)
    } else {
        keys.push(m)
    }
}

/// Whether no two keys of `keys` share an identifier.
pub open spec fn distinct_ids(keys: Seq<KeyMetadataView>) -> bool {
    forall|i: int, j: int| 0 <= i < j < keys.len() ==> (#[trigger] keys[i]).id != (#[trigger] keys[j]).id
}

/// How many keys of `keys` have the identifier `id`.
pub open spec fn count_id(keys: Seq<KeyMetadataView>, id: Seq<char>) -> nat
    decreases keys.len(),
{
    if keys.len() == 0 {
        0
    } else {
        count_id(keys.drop_last(), id) + if keys.last().id == id {
            1nat
        } else {
            0nat
        }
    }
}

/// The position of the last approval of `approvals` with the operation
/// identifier `id`, or -1.
pub open spec fn approval_position(approvals: Seq<PendingApprovalView>, id: Seq<char>) -> int
    decreases approvals.len(),
{
    if approvals.len() == 0 {
        -1
    } else if approvals.last().operation_id == id {
        approvals.len() - 1
    } else {
        approval_position(approvals.drop_last(), id)
    }
}

/// `approvals` with `a` stored under its operation identifier.
pub open spec fn upsert_approval(approvals: Seq<PendingApprovalView>, a: PendingApprovalView) -> Seq<
    PendingApprovalView,
> {
    if approval_position(approvals, a.operation_id) >= 0 {
        approvals.update(approval_position(approvals, a.operation_id), a)
    } else {
        approvals.push(a)
    }
}

/// The engine's state as plain values: the key table, the audit log, the
/// operations that wait for approval, whether writes are mirrored to a
/// persistence store, and the writes not yet handed to it.
pub ghost struct EngineView {
    pub keys: Seq<KeyMetadataView>,
    pub audit_log: Seq<AuditLogEntryView>,
    pub pending_approvals: Seq<PendingApprovalView>,
    pub mirroring: bool,
    pub outbox: Seq<MirrorWriteView>,
}

impl EngineView {
    /// The state with `entry` appended to the audit log and, where writes
    /// are mirrored, queued for the store.
    pub open spec fn record(self, entry: AuditLogEntryView) -> EngineView {
        EngineView {
            audit_log: self.audit_log.push(entry),
            outbox: if self.mirroring {
                self.outbox.push(MirrorWriteView::Audit(entry))
            } else {
                self.outbox
            },
            ..self
        }
    }

    /// The state with `m` stored in the key table and, where writes are
    /// mirrored, queued for the store.
    pub open spec fn store(self, m: KeyMetadataView) -> EngineView {
        EngineView {
            keys: upsert_key(self.keys, m),
            outbox: if self.mirroring {
                self.outbox.push(MirrorWriteView::Key(m))
            } else {
                self.outbox
            },
            ..self
        }
    }

    /// Whether the state is one that the engine can be in: no two keys
    /// share an identifier, and every key's version is at least 1.
    pub open spec fn well_formed(self) -> bool {
        &&& distinct_ids(self.keys)
        &&& forall|i: int| 0 <= i < self.keys.len() ==> (#[trigger] self.keys[i]).version >= 1
    }

    /// The state with `a` stored among the pending approvals.
    pub open spec fn await_approval(self, a: PendingApprovalView) -> EngineView {
        EngineView { pending_approvals: upsert_approval(self.pending_approvals, a), ..self }
    }
}

/// What a caller asks for when creating a key.
pub ghost struct KeyRequest {
    pub name: Seq<char>,
    pub description: Seq<char>,
    pub key_type: KeyType,
    pub algorithm: KeyAlgorithm,
    pub owner: Seq<char>,
    pub requires_approval: bool,
    pub tags: Option<Seq<Pair>>,
    pub expiration_date: Option<i64>,
}

impl KeyRequest {
    /// The metadata of the key asked for, under the identifier `id` and
    /// made at `now`.
    pub open spec fn metadata(self, id: Seq<char>, now: i64) -> KeyMetadataView {
        KeyMetadataView {
            id,
            name: self.name,
            description: self.description,
            key_type: self.key_type,
            algorithm: self.algorithm,
            status: KeyStatus::Active,
            owner: self.owner,
            created_at: now,
            updated_at: now,
            expiration_date: self.expiration_date,
            version: 1,
            requires_approval: self.requires_approval,
            tags: match self.tags {
                Some(t) => t,
                None => Seq::empty(),
            },
        }
    }
}

/// The audit entry of an action that took place.
pub open spec fn success_entry(
    id: Seq<char>,
    timestamp: i64,
    action: Seq<char>,
    user: Seq<char>,
    key_id: Seq<char>,
    details: Seq<char>,
) -> AuditLogEntryView {
    AuditLogEntryView {
        id,
        timestamp,
        user,
        action,
        key_id: Some(key_id),
        details,
        success: true,
        error: None,
    }
}

/// The audit entry of a rotation that was refused with `error`.
pub open spec fn rejection_entry(
    id: Seq<char>,
    timestamp: i64,
    user: Seq<char>,
    key_id: Seq<char>,
    error: PluginErrorView,
) -> AuditLogEntryView {
    AuditLogEntryView {
        id,
        timestamp,
        user,
        action: "ROTATE_KEY"@,
        key_id: Some(key_id),
        details: "Rejected key rotation: "@ + key_id,
        success: false,
        error: Some(error.text()),
    }
}

/// What creating a key makes of the state `pre`, and what it returns.
/// `key_id` and `now` are the new key's identifier and time of creation,
/// `entry_id` and `entry_time` those of the audit entry, and `provisioned`
/// is what the security module answered when asked to make and keep the key
/// material. Where it failed, nothing changes.
pub open spec fn create_effect(
    pre: EngineView,
    request: KeyRequest,
    key_id: Seq<char>,
    now: i64,
    entry_id: Seq<char>,
    entry_time: i64,
    provisioned: Result<(), Seq<char>>,
) -> (EngineView, Result<KeyMetadataView, PluginErrorView>) {
    match provisioned {
        Err(e) => (pre, Err(PluginErrorView::SecurityModule(e))),
        Ok(_) => {
            let m = request.metadata(key_id, now);
            let entry = success_entry(
                entry_id,
                entry_time,
                "CREATE_KEY"@,
                request.owner,
                key_id,
                "Created key: "@ + request.name,
            );
            (pre.store(m).record(entry), Ok(m))
        },
    }
}

/// What stands in the way of rotating the key `key_id`, if anything does.
pub open spec fn rotation_obstacle(pre: EngineView, key_id: Seq<char>) -> Option<PluginErrorView> {
    let at = key_position(pre.keys, key_id);
    if at < 0 {
        Some(PluginErrorView::NotFound)
    } else if pre.keys[at].status != KeyStatus::Active {
        Some(PluginErrorView::InvalidState(pre.keys[at].status))
    } else if pre.keys[at].requires_approval {
        None
    } else if pre.keys[at].version == u32::MAX {
        Some(PluginErrorView::VersionExhausted)
    } else {
        None
    }
}

/// Whether rotating the key `key_id` asks the security module for new key
/// material: the key is there, active, free of approval, and its version can
/// grow.
pub open spec fn rotation_ready(pre: EngineView, key_id: Seq<char>) -> bool {
    let at = key_position(pre.keys, key_id);
    at >= 0 && rotation_obstacle(pre, key_id).is_none() && !pre.keys[at].requires_approval
}

/// What rotating the key `key_id` on behalf of `user` makes of the state
/// `pre`, and what it returns. `now` is the time of the rotation,
/// `entry_id` and `entry_time` are the identifier and time of the audit
/// entry, `operation_id` is the identifier under which an approval would be
/// awaited, and `provisioned` is what the security module answered; it is
/// looked at only where `rotation_ready` holds.
pub open spec fn rotate_effect(
    pre: EngineView,
    key_id: Seq<char>,
    user: Seq<char>,
    now: i64,
    entry_id: Seq<char>,
    entry_time: i64,
    operation_id: Seq<char>,
    provisioned: Result<(), Seq<char>>,
) -> (EngineView, Result<KeyMetadataView, PluginErrorView>) {
    let at = key_position(pre.keys, key_id);
    match rotation_obstacle(pre, key_id) {
        Some(error) => (
            pre.record(rejection_entry(entry_id, entry_time, user, key_id, error)),
            Err(error),
        ),
        None => if pre.keys[at].requires_approval {
            let approval = PendingApprovalView { operation_id, key_id, operation: "ROTATE"@ };
            let entry = success_entry(
                entry_id,
                entry_time,
                "REQUEST_KEY_ROTATION"@,
                user,
                key_id,
                "Requested key rotation, approval ID: "@ + operation_id,
            );
            (
                pre.await_approval(approval).record(entry),
                Err(PluginErrorView::ApprovalRequired(operation_id)),
            )
        } else {
            match provisioned {
                Err(e) => (pre, Err(PluginErrorView::SecurityModule(e))),
                Ok(_) => {
                    let m = KeyMetadataView {
                        updated_at: now,
                        version: (pre.keys[at].version + 1) as u32,
                        ..pre.keys[at]
                    };
                    let entry = success_entry(
                        entry_id,
                        entry_time,
                        "ROTATE_KEY"@,
                        user,
                        key_id,
                        "Rotated key: "@ + m.name,
                    );
                    (pre.store(m).record(entry), Ok(m))
                },
            }
        },
    }
}

/// `key_position` is -1 or the position of a key with the identifier, and
/// no key behind that position has it.
pub proof fn lemma_key_position(keys: Seq<KeyMetadataView>, id: Seq<char>)
    ensures
        -1 <= key_position(keys, id) < keys.len(),
        key_position(keys, id) >= 0 ==> keys[key_position(keys, id)].id == id,
        forall|i: int| key_position(keys, id) < i < keys.len() ==> (#[trigger] keys[i]).id != id,
    decreases keys.len(),
{
    if keys.len() > 0 && keys.last().id != id {
        lemma_key_position(keys.drop_last(), id);
        assert forall|i: int| key_position(keys, id) < i < keys.len() implies (#[trigger] keys[i]).id
            != id by {
            if i < keys.len() - 1 {
                assert(keys.drop_last()[i].id != id);
            }
        }
    }
}

/// A position that holds the identifier, with no such position behind it,
/// is the identifier's position.
pub proof fn lemma_key_position_is(keys: Seq<KeyMetadataView>, id: Seq<char>, at: int)
    requires
        -1 <= at < keys.len(),
        at >= 0 ==> keys[at].id == id,
        forall|i: int| at < i < keys.len() ==> (#[trigger] keys[i]).id != id,
    ensures
        key_position(keys, id) == at,
{
    lemma_key_position(keys, id);
    let found = key_position(keys, id);
    if found > at {
        assert(keys[found].id != id);
    }
}

/// A position that holds the operation identifier, with no such position
/// behind it, is the identifier's position.
pub proof fn lemma_approval_position_is(approvals: Seq<PendingApprovalView>, id: Seq<char>, at: int)
    requires
        -1 <= at < approvals.len(),
        at >= 0 ==> approvals[at].operation_id == id,
        forall|i: int| at < i < approvals.len() ==> (#[trigger] approvals[i]).operation_id != id,
    ensures
        approval_position(approvals, id) == at,
    decreases approvals.len(),
{
    if approvals.len() > 0 {
        if approvals.last().operation_id == id {
            if at < approvals.len() - 1 {
                assert(approvals[approvals.len() - 1].operation_id != id);
            }
        } else {
            assert forall|i: int| at < i < approvals.drop_last().len() implies (
            #[trigger] approvals.drop_last()[i]).operation_id != id by {
                assert(approvals[i].operation_id != id);
            }
            lemma_approval_position_is(approvals.drop_last(), id, at);
        }
    }
}

} // verus!
