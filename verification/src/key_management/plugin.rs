//! The key management engine: the key table, the audit trail and the
//! operations that wait for approval.
use crate::base_plugin::{
    outcome_view as registration_view, BasePlugin, BasePluginView, StartStep, StopStep,
};
use crate::plugin_config::PluginConfig;
use crate::plugin_info::PluginInfo;
use crate::protocol::RegistrationResponse;
use crate::key_management::filters::{filters_of, key_views, log_views, matching_keys, select_keys};
use crate::key_management::laws::{
    law_operations_keep_state_well_formed, lemma_store_keeps_well_formed,
};
use crate::key_management::models::{AuditLogEntry, KeyAlgorithm, KeyMetadata, KeyStatus, KeyType};
use crate::key_management::security::{provisioning, MockHSM, SecurityModuleInterface};
use crate::key_management::state::{
    approval_position, approval_views, create_effect, key_position, lemma_approval_position_is, lemma_key_position, lemma_key_position_is, outcome_view, provision_view, rotate_effect, rotation_obstacle, rotation_ready, upsert_approval, upsert_key, write_views, EngineView, KeyRequest, MirrorWrite, PendingApproval,
};
use crate::system::{current_time, fresh_identifier, hyphenated};
use crate::text::{concat2, owned, same_text};
use crate::text_map::TextMap;
use crate::error::{PluginError, PluginErrorView};
use vstd::prelude::*;

verus! {

/// The key management engine over a security module `S`.
pub struct KeyManagementPlugin<S: SecurityModuleInterface> {
    base: BasePlugin,
    keys: Vec<KeyMetadata>,
    audit_log: Vec<AuditLogEntry>,
    pending_approvals: Vec<PendingApproval>,
    security_module: S,
    mirroring: bool,
    outbox: Vec<MirrorWrite>,
}

impl<S: SecurityModuleInterface> View for KeyManagementPlugin<S> {
    type V = EngineView;

    closed spec fn view(&self) -> EngineView {
        EngineView {
            keys: key_views(self.keys@),
            audit_log: log_views(self.audit_log@),
            pending_approvals: approval_views(self.pending_approvals@),
            mirroring: self.mirroring,
            outbox: write_views(self.outbox@),
        }
    }
}

/// The state of an engine that has done nothing yet.
pub open spec fn empty_engine(mirroring: bool) -> EngineView {
    EngineView {
        keys: Seq::empty(),
        audit_log: Seq::empty(),
        pending_approvals: Seq::empty(),
        mirroring,
        outbox: Seq::empty(),
    }
}

impl KeyManagementPlugin<MockHSM> {
    /// An engine without keys, over the stand-in security module.
    pub fn new() -> (r: Self)
        ensures
            r@ == empty_engine(false),
            r.life_cycle() == BasePluginView::blank(),
    {
        KeyManagementPlugin::with_security_module(MockHSM)
    }
}

impl<S: SecurityModuleInterface> KeyManagementPlugin<S> {
    /// The engine's security module.
    pub closed spec fn module(&self) -> S {
        self.security_module
    }

    /// The life cycle of the plugin that the engine belongs to.
    pub closed spec fn life_cycle(&self) -> BasePluginView {
        self.base@
    }

    /// An engine without keys, over the security module given.
    pub fn with_security_module(security_module: S) -> (r: Self)
        ensures
            r@ == empty_engine(false),
            r.module() == security_module,
            r.life_cycle() == BasePluginView::blank(),
    {
        let r = KeyManagementPlugin {
            base: BasePlugin::new(),
            keys: Vec::new(),
            audit_log: Vec::new(),
            pending_approvals: Vec::new(),
            security_module,
            mirroring: false,
            outbox: Vec::new(),
        };
        assert(r@ =~= empty_engine(false)) by {
            assert(r@.keys =~= Seq::empty());
            assert(r@.audit_log =~= Seq::empty());
            assert(r@.pending_approvals =~= Seq::empty());
            assert(r@.outbox =~= Seq::empty());
        }
        r
    }

    /// The same engine, with every later write queued for a persistence
    /// store.
    pub fn with_persistence(self) -> (r: Self)
        ensures
            r@ == (EngineView { mirroring: true, ..self@ }),
            r.module() == self.module(),
            r.life_cycle() == self.life_cycle(),
    {
        let mut r = self;
        r.mirroring = true;
        r
    }

    /// Stores `config` in the plugin's life cycle and takes the plugin's
    /// identity from it. Never fails.
    pub fn initialize(&mut self, config: PluginConfig) -> (r: bool)
        ensures
            r,
            final(self).life_cycle() == old(self).life_cycle().initialized(config@),
            final(self)@ == old(self)@,
            final(self).module() == old(self).module(),
    {
        self.base.initialize(config)
    }

    /// Starts the plugin's life cycle: see `BasePlugin::start`.
    pub fn start(&mut self) -> (r: StartStep)
        ensures
            exists|local_id: Seq<char>|
                hyphenated(local_id) && (final(self).life_cycle(), r@) == #[trigger] old(
                    self,
                ).life_cycle().start(local_id),
            final(self)@ == old(self)@,
            final(self).module() == old(self).module(),
    {
        self.base.start()
    }

    /// Takes in the outcome of a registration attempt: see
    /// `BasePlugin::registration_result`.
    pub fn registration_result(&mut self, outcome: Result<RegistrationResponse, String>) -> (r:
        StartStep)
        ensures
            exists|local_id: Seq<char>|
                hyphenated(local_id) && (final(self).life_cycle(), r@) == #[trigger] old(
                    self,
                ).life_cycle().registration_result(registration_view(outcome), local_id),
            final(self)@ == old(self)@,
            final(self).module() == old(self).module(),
    {
        self.base.registration_result(outcome)
    }

    /// Stops the plugin's life cycle: see `BasePlugin::stop`.
    pub fn stop(&mut self) -> (r: StopStep)
        ensures
            (final(self).life_cycle(), r@) == old(self).life_cycle().stop(),
            final(self)@ == old(self)@,
            final(self).module() == old(self).module(),
    {
        self.base.stop()
    }

    /// A copy of the plugin's identity.
    pub fn get_info(&self) -> (r: PluginInfo)
        ensures
            r@ == self.life_cycle().info,
    {
        self.base.get_info()
    }

    /// The plugin's life cycle.
    pub fn base(&self) -> (r: &BasePlugin)
        ensures
            r@ == self.life_cycle(),
    {
        &self.base
    }

    /// The key table, in the order in which the keys were created.
    pub fn keys(&self) -> (r: &Vec<KeyMetadata>)
        ensures
            key_views(r@) == self@.keys,
    {
        &self.keys
    }

    /// The audit trail, oldest entry first.
    pub fn audit_log(&self) -> (r: &Vec<AuditLogEntry>)
        ensures
            log_views(r@) == self@.audit_log,
    {
        &self.audit_log
    }

    /// The operations that wait for approval.
    pub fn pending_approvals(&self) -> (r: &Vec<PendingApproval>)
        ensures
            approval_views(r@) == self@.pending_approvals,
    {
        &self.pending_approvals
    }

    /// Hands out the writes queued for the persistence store, oldest first,
    /// and empties the queue.
    pub fn take_pending_writes(&mut self) -> (r: Vec<MirrorWrite>)
        ensures
            write_views(r@) == old(self)@.outbox,
            final(self)@ == (EngineView { outbox: Seq::empty(), ..old(self)@ }),
            final(self).module() == old(self).module(),
            final(self).life_cycle() == old(self).life_cycle(),
    {
        let mut out: Vec<MirrorWrite> = Vec::new();
        std::mem::swap(&mut out, &mut self.outbox);
        assert(self@.outbox =~= Seq::empty());
        out
    }

    /// The position of the key `key_id` in the table.
    fn find_key(&self, key_id: &str) -> (r: Option<usize>)
        ensures
            match r {
                Some(i) => i < self.keys@.len() && i == key_position(self@.keys, key_id@),
                None => key_position(self@.keys, key_id@) == -1,
            },
    {
        let mut i: usize = self.keys.len();
        while i > 0
            invariant
                i <= self.keys@.len(),
                forall|j: int| i <= j < self.keys@.len() ==> (#[trigger] self@.keys[j]).id != key_id@,
            decreases i,
        {
            i -= 1;
            if same_text(self.keys[i].id.as_str(), key_id) {
                proof {
                    lemma_key_position_is(self@.keys, key_id@, i as int);
                }
                return Some(i);
            }
        }
        proof {
            lemma_key_position_is(self@.keys, key_id@, -1);
        }
        None
    }

    /// The position of the approval `operation_id` in the table.
    fn find_approval(&self, operation_id: &str) -> (r: Option<usize>)
        ensures
            match r {
                Some(i) => i < self.pending_approvals@.len() && i == approval_position(
                    self@.pending_approvals,
                    operation_id@,
                ),
                None => approval_position(self@.pending_approvals, operation_id@) == -1,
            },
    {
        let mut i: usize = self.pending_approvals.len();
        while i > 0
            invariant
                i <= self.pending_approvals@.len(),
                forall|j: int|
                    i <= j < self.pending_approvals@.len() ==> (
                    #[trigger] self@.pending_approvals[j]).operation_id != operation_id@,
            decreases i,
        {
            i -= 1;
            if same_text(self.pending_approvals[i].operation_id.as_str(), operation_id) {
                proof {
                    lemma_approval_position_is(self@.pending_approvals, operation_id@, i as int);
                }
                return Some(i);
            }
        }
        proof {
            lemma_approval_position_is(self@.pending_approvals, operation_id@, -1);
        }
        None
    }

    /// Appends `entry` to the audit trail and queues it for the store.
    fn add_audit_log(&mut self, entry: AuditLogEntry)
        ensures
            final(self)@ == old(self)@.record(entry@),
            final(self).module() == old(self).module(),
            final(self).life_cycle() == old(self).life_cycle(),
    {
        if self.mirroring {
            self.outbox.push(MirrorWrite::Audit(entry.clone()));
        }
        self.audit_log.push(entry);
        assert(self@.audit_log =~= old(self)@.audit_log.push(entry@));
        assert(self@.outbox =~= old(self)@.record(entry@).outbox);
    }

    /// Stores `metadata` in the key table and queues it for the store.
    fn store_metadata(&mut self, metadata: KeyMetadata)
        ensures
            final(self)@ == old(self)@.store(metadata@),
            final(self).module() == old(self).module(),
            final(self).life_cycle() == old(self).life_cycle(),
    {
        if self.mirroring {
            self.outbox.push(MirrorWrite::Key(metadata.clone()));
        }
        match self.find_key(metadata.id.as_str()) {
            Some(i) => {
                self.keys.set(i, metadata);
            },
            None => {
                self.keys.push(metadata);
            },
        }
        assert(self@.keys =~= upsert_key(old(self)@.keys, metadata@));
        assert(self@.outbox =~= old(self)@.store(metadata@).outbox);
    }

    /// Stores `approval` among the pending approvals.
    fn store_approval(&mut self, approval: PendingApproval)
        ensures
            final(self)@ == old(self)@.await_approval(approval@),
            final(self).module() == old(self).module(),
            final(self).life_cycle() == old(self).life_cycle(),
    {
        match self.find_approval(approval.operation_id.as_str()) {
            Some(i) => {
                self.pending_approvals.set(i, approval);
            },
            None => {
                self.pending_approvals.push(approval);
            },
        }
        assert(self@.pending_approvals =~= upsert_approval(old(self)@.pending_approvals, approval@));
    }

    /// Puts a key that was read from a store back into the table, in the
    /// place of the key with its identifier or at the end. Nothing is
    /// written to the audit trail, and nothing is queued for the store.
    pub fn restore_key(&mut self, metadata: KeyMetadata)
        ensures
            final(self)@ == (EngineView {
                keys: upsert_key(old(self)@.keys, metadata@),
                ..old(self)@
            }),
            old(self)@.well_formed() && metadata.version >= 1 ==> final(self)@.well_formed(),
            final(self).module() == old(self).module(),
            final(self).life_cycle() == old(self).life_cycle(),
    {
        proof {
            if old(self)@.well_formed() && metadata.version >= 1 {
                lemma_store_keeps_well_formed(old(self)@, metadata@);
            }
        }
        match self.find_key(metadata.id.as_str()) {
            Some(i) => {
                self.keys.set(i, metadata);
            },
            None => {
                self.keys.push(metadata);
            },
        }
        assert(self@.keys =~= upsert_key(old(self)@.keys, metadata@));
    }

    /// Asks the security module for key material for `algorithm` and has it
    /// kept under `key_id`. The result is the module's failure to make the
    /// material, or else its answer to keeping the material that it made.
    fn provision(&self, key_id: &str, algorithm: KeyAlgorithm) -> (r: Result<(), String>)
        ensures
            self.module().dependable() ==> r.is_ok(),
            provisioning(self.module(), key_id@, algorithm, provision_view(r)),
    {
        match self.security_module.generate_key(algorithm) {
            Ok(key_data) => {
                let r = self.security_module.store_key(key_id, key_data.as_slice());
                assert(self.module().can_generate(
                    algorithm,
                    Ok::<Seq<u8>, Seq<char>>(key_data@),
                ) && self.module().can_store(key_id@, key_data@, provision_view(r)));
                r
            },
            Err(e) => Err(e),
        }
    }

    /// Creates a key from what the outside world supplied: the new key's
    /// identifier and time, the audit entry's identifier and time, and the
    /// security module's answer.
    pub fn create_key_with(
        &mut self,
        name: String,
        description: String,
        key_type: KeyType,
        algorithm: KeyAlgorithm,
        owner: String,
        requires_approval: bool,
        tags: Option<TextMap>,
        expiration_date: Option<i64>,
        key_id: String,
        now: i64,
        entry_id: String,
        entry_time: i64,
        provisioned: Result<(), String>,
    ) -> (r: Result<KeyMetadata, PluginError>)
        ensures
            (final(self)@, outcome_view(r)) == create_effect(
                old(self)@,
                request_view(name, description, key_type, algorithm, owner, requires_approval, tags, expiration_date),
                key_id@,
                now,
                entry_id@,
                entry_time,
                provision_view(provisioned),
            ),
            old(self)@.well_formed() ==> final(self)@.well_formed(),
            final(self).module() == old(self).module(),
            final(self).life_cycle() == old(self).life_cycle(),
    {
        proof {
            if old(self)@.well_formed() {
                law_operations_keep_state_well_formed(
                    old(self)@,
                    request_view(
                        name,
                        description,
                        key_type,
                        algorithm,
                        owner,
                        requires_approval,
                        tags,
                        expiration_date,
                    ),
                    key_id@,
                    Seq::empty(),
                    now,
                    entry_id@,
                    entry_time,
                    Seq::empty(),
                    provision_view(provisioned),
                );
            }
        }
        match provisioned {
            Err(e) => Err(PluginError::SecurityModule(e)),
            Ok(_) => {
                let details = concat2("Created key: ", name.as_str());
                let user = owner.clone();
                let mut metadata = KeyMetadata::assemble(
                    key_id,
                    now,
                    name,
                    description,
                    key_type,
                    algorithm,
                    owner,
                    requires_approval,
                );
                if let Some(t) = tags {
                    metadata.tags = t;
                }
                metadata.expiration_date = expiration_date;
                let entry = AuditLogEntry {
                    id: entry_id,
                    timestamp: entry_time,
                    user,
                    action: owned("CREATE_KEY"),
                    key_id: Some(metadata.id.clone()),
                    details,
                    success: true,
                    error: None,
                };
                self.store_metadata(metadata.clone());
                self.add_audit_log(entry);
                Ok(metadata)
            },
        }
    }

    /// Creates a key: active, in version 1, under a fresh identifier. The
    /// security module makes and keeps the key material; where it fails,
    /// nothing changes and its error is returned. Otherwise the key is
    /// stored and one audit entry is written.
    pub fn create_key(
        &mut self,
        name: String,
        description: String,
        key_type: KeyType,
        algorithm: KeyAlgorithm,
        owner: String,
        requires_approval: bool,
        tags: Option<TextMap>,
        expiration_date: Option<i64>,
    ) -> (r: Result<KeyMetadata, PluginError>)
        ensures
            exists|key_id: Seq<char>, now: i64, entry_id: Seq<char>, entry_time: i64, provisioned: Result<(), Seq<char>>|
                {
                    &&& hyphenated(key_id)
                    &&& hyphenated(entry_id)
                    &&& old(self).module().dependable() ==> provisioned.is_ok()
                    &&& (final(self)@, outcome_view(r)) == #[trigger] create_effect(
                        old(self)@,
                        request_view(
                            name,
                            description,
                            key_type,
                            algorithm,
                            owner,
                            requires_approval,
                            tags,
                            expiration_date,
                        ),
                        key_id,
                        now,
                        entry_id,
                        entry_time,
                        provisioned,
                    )
                },
            old(self)@.well_formed() ==> final(self)@.well_formed(),
            final(self).module() == old(self).module(),
            final(self).life_cycle() == old(self).life_cycle(),
    {
        let key_id = fresh_identifier();
        let now = current_time();
        let provisioned = self.provision(key_id.as_str(), algorithm);
        let entry_id = fresh_identifier();
        let entry_time = current_time();
        let ghost witness = (key_id@, now, entry_id@, entry_time, provision_view(provisioned));
        let r = self.create_key_with(
            name,
            description,
            key_type,
            algorithm,
            owner,
            requires_approval,
            tags,
            expiration_date,
            key_id,
            now,
            entry_id,
            entry_time,
            provisioned,
        );
        assert((self@, outcome_view(r)) == create_effect(
            old(self)@,
            request_view(name, description, key_type, algorithm, owner, requires_approval, tags, expiration_date),
            witness.0,
            witness.1,
            witness.2,
            witness.3,
            witness.4,
        ));
        r
    }

    /// Rotates a key from what the outside world supplied: the time of the
    /// rotation, the audit entry's identifier and time, the identifier under
    /// which an approval would be awaited, and the security module's answer.
    pub fn rotate_key_with(
        &mut self,
        key_id: &str,
        user: &str,
        now: i64,
        entry_id: String,
        entry_time: i64,
        operation_id: String,
        provisioned: Result<(), String>,
    ) -> (r: Result<KeyMetadata, PluginError>)
        ensures
            (final(self)@, outcome_view(r)) == rotate_effect(
                old(self)@,
                key_id@,
                user@,
                now,
                entry_id@,
                entry_time,
                operation_id@,
                provision_view(provisioned),
            ),
            old(self)@.well_formed() ==> final(self)@.well_formed(),
            final(self).module() == old(self).module(),
            final(self).life_cycle() == old(self).life_cycle(),
    {
        proof {
            if old(self)@.well_formed() {
                law_operations_keep_state_well_formed(
                    old(self)@,
                    arbitrary(),
                    key_id@,
                    user@,
                    now,
                    entry_id@,
                    entry_time,
                    operation_id@,
                    provision_view(provisioned),
                );
            }
        }
        let obstacle = self.rotation_obstacle(key_id);
        match obstacle {
            Some(error) => {
                let entry = AuditLogEntry {
                    id: entry_id,
                    timestamp: entry_time,
                    user: owned(user),
                    action: owned("ROTATE_KEY"),
                    key_id: Some(owned(key_id)),
                    details: concat2("Rejected key rotation: ", key_id),
                    success: false,
                    error: Some(error.message()),
                };
                self.add_audit_log(entry);
                Err(error)
            },
            None => {
                let at = self.find_key(key_id).unwrap();
                if self.keys[at].requires_approval {
                    let approval = PendingApproval {
                        operation_id: operation_id.clone(),
                        key_id: owned(key_id),
                        operation: owned("ROTATE"),
                    };
                    let entry = AuditLogEntry {
                        id: entry_id,
                        timestamp: entry_time,
                        user: owned(user),
                        action: owned("REQUEST_KEY_ROTATION"),
                        key_id: Some(owned(key_id)),
                        details: concat2("Requested key rotation, approval ID: ", operation_id.as_str()),
                        success: true,
                        error: None,
                    };
                    self.store_approval(approval);
                    self.add_audit_log(entry);
                    Err(PluginError::ApprovalRequired(operation_id))
                } else {
                    match provisioned {
                        Err(e) => Err(PluginError::SecurityModule(e)),
                        Ok(_) => {
                            let mut metadata = self.keys[at].clone();
                            metadata.updated_at = now;
                            metadata.version = metadata.version + 1;
                            let entry = AuditLogEntry {
                                id: entry_id,
                                timestamp: entry_time,
                                user: owned(user),
                                action: owned("ROTATE_KEY"),
                                key_id: Some(owned(key_id)),
                                details: concat2("Rotated key: ", metadata.name.as_str()),
                                success: true,
                                error: None,
                            };
                            proof {
                                lemma_key_position(self@.keys, key_id@);
                            }
                            self.store_metadata(metadata.clone());
                            self.add_audit_log(entry);
                            Ok(metadata)
                        },
                    }
                }
            },
        }
    }

    /// What stands in the way of rotating the key `key_id`, if anything
    /// does.
    pub fn rotation_obstacle(&self, key_id: &str) -> (r: Option<PluginError>)
        ensures
            match r {
                Some(e) => rotation_obstacle(self@, key_id@) == Some(e@),
                None => rotation_obstacle(self@, key_id@).is_none(),
            },
    {
        match self.find_key(key_id) {
            None => Some(PluginError::NotFound),
            Some(at) => {
                let key = &self.keys[at];
                if key.status != KeyStatus::Active {
                    Some(PluginError::InvalidState(key.status))
                } else if key.requires_approval {
                    None
                } else if key.version == u32::MAX {
                    Some(PluginError::VersionExhausted)
                } else {
                    None
                }
            },
        }
    }

    /// The algorithm for which the security module is asked for new key
    /// material when the key `key_id` is rotated; `None` where the rotation
    /// does not get that far.
    pub fn rotation_algorithm(&self, key_id: &str) -> (r: Option<KeyAlgorithm>)
        ensures
            r == if rotation_ready(self@, key_id@) {
                Some(self@.keys[key_position(self@.keys, key_id@)].algorithm)
            } else {
                None
            },
    {
        match self.find_key(key_id) {
            Some(at) => {
                if self.keys[at].status == KeyStatus::Active && !self.keys[at].requires_approval
                    && self.keys[at].version < u32::MAX {
                    Some(self.keys[at].algorithm)
                } else {
                    None
                }
            },
            None => None,
        }
    }

    /// Rotates the key `key_id` on behalf of `user`. A key that is absent or
    /// not active, or whose version cannot grow, is refused. For a key that
    /// requires approval the request is recorded under a fresh operation
    /// identifier and the key stays as it is. Otherwise the security module
    /// makes and keeps new key material, the version grows by one and the
    /// time of the last update is set. One audit entry is written, unless
    /// the security module fails, in which case nothing changes.
    pub fn rotate_key(&mut self, key_id: &str, user: &str) -> (r: Result<KeyMetadata, PluginError>)
        ensures
            exists|now: i64, entry_id: Seq<char>, entry_time: i64, operation_id: Seq<char>, provisioned: Result<(), Seq<char>>|
                {
                    &&& hyphenated(entry_id)
                    &&& hyphenated(operation_id)
                    &&& old(self).module().dependable() ==> provisioned.is_ok()
                    &&& (final(self)@, outcome_view(r)) == #[trigger] rotate_effect(
                        old(self)@,
                        key_id@,
                        user@,
                        now,
                        entry_id,
                        entry_time,
                        operation_id,
                        provisioned,
                    )
                },
            old(self)@.well_formed() ==> final(self)@.well_formed(),
            final(self).module() == old(self).module(),
            final(self).life_cycle() == old(self).life_cycle(),
    {
        let provisioned = match self.rotation_algorithm(key_id) {
            Some(algorithm) => self.provision(key_id, algorithm),
            None => Ok(()),
        };
        let now = current_time();
        let entry_id = fresh_identifier();
        let entry_time = current_time();
        let operation_id = fresh_identifier();
        let ghost witness = (now, entry_id@, entry_time, operation_id@, provision_view(provisioned));
        let r = self.rotate_key_with(key_id, user, now, entry_id, entry_time, operation_id, provisioned);
        assert((self@, outcome_view(r)) == rotate_effect(
            old(self)@,
            key_id@,
            user@,
            witness.0,
            witness.1,
            witness.2,
            witness.3,
            witness.4,
        ));
        r
    }

    /// The keys that meet every filter, in the order in which they were
    /// created; all keys where there is no filter.
    pub fn list_keys(&self, filters: Option<&TextMap>) -> (r: Vec<KeyMetadata>)
        ensures
            key_views(r@) == matching_keys(self@.keys, filters_of(filters)),
    {
        select_keys(&self.keys, filters)
    }

    /// The metadata of the key `key_id`.
    pub fn get_key(&self, key_id: &str) -> (r: Result<KeyMetadata, PluginError>)
        ensures
            match r {
                Ok(m) => key_position(self@.keys, key_id@) >= 0 && m@ == self@.keys[key_position(
                    self@.keys,
                    key_id@,
                )],
                Err(e) => key_position(self@.keys, key_id@) < 0 && e@ == PluginErrorView::NotFound,
            },
    {
        match self.find_key(key_id) {
            Some(at) => Ok(self.keys[at].clone()),
            None => Err(PluginError::NotFound),
        }
    }
}

/// The request that the arguments of `create_key` stand for.
pub open spec fn request_view(
    name: String,
    description: String,
    key_type: KeyType,
    algorithm: KeyAlgorithm,
    owner: String,
    requires_approval: bool,
    tags: Option<TextMap>,
    expiration_date: Option<i64>,
) -> KeyRequest {
    KeyRequest {
        name: name@,
        description: description@,
        key_type,
        algorithm,
        owner: owner@,
        requires_approval,
        tags: match tags {
            Some(t) => Some(t@),
            None => None,
        },
        expiration_date,
    }
}

} // verus!
