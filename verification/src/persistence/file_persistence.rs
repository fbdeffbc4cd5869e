//! The flat-file store's side of persistence that needs no file system:
//! where each key and the audit log are kept, and which of the entries
//! read a query returns.
use crate::key_management::filters::{
    filters_of, key_views, limit_logs, limited, log_views, matching_keys, matching_logs, newest_first,
    order_newest_first, select_keys, select_logs,
};
use crate::key_management::models::{AuditLogEntry, KeyMetadata};
use crate::text::{concat2, concat3};
use crate::text_map::TextMap;
use vstd::prelude::*;

verus! {

/// A store that keeps each key in a file of its own and the audit log in
/// one file, a line for each entry, below one directory.
#[derive(Debug)]
pub struct FilePersistence {
    metadata_dir: String,
    audit_log_file: String,
}

impl FilePersistence {
    /// The store below the directory `base_dir`.
    pub fn new(base_dir: &str) -> (r: Self)
        ensures
            r.metadata_dir_view() == base_dir@ + "/metadata"@,
            r.audit_log_file_view() == base_dir@ + "/audit.log"@,
    {
        FilePersistence {
            metadata_dir: concat2(base_dir, "/metadata"),
            audit_log_file: concat2(base_dir, "/audit.log"),
        }
    }

    /// The directory that holds the keys' files, as text.
    pub closed spec fn metadata_dir_view(&self) -> Seq<char> {
        self.metadata_dir@
    }

    /// The audit log's file, as text.
    pub closed spec fn audit_log_file_view(&self) -> Seq<char> {
        self.audit_log_file@
    }

    /// The directory that holds the keys' files.
    pub fn metadata_dir(&self) -> (r: &str)
        ensures
            r@ == self.metadata_dir_view(),
    {
        self.metadata_dir.as_str()
    }

    /// The audit log's file.
    pub fn audit_log_file(&self) -> (r: &str)
        ensures
            r@ == self.audit_log_file_view(),
    {
        self.audit_log_file.as_str()
    }

    /// The file that holds the key `key_id`.
    pub fn metadata_path(&self, key_id: &str) -> (r: String)
        ensures
            r@ == self.metadata_dir_view() + "/"@ + key_id@ + ".json"@,
    {
        let mut path = concat3(self.metadata_dir.as_str(), "/", key_id);
        path.append(".json");
        path
    }

    /// Of the keys read from the store, those that meet every filter, in
    /// the order in which they were read.
    pub fn list_key_metadata(&self, stored: &Vec<KeyMetadata>, filters: Option<&TextMap>) -> (r: Vec<
        KeyMetadata,
    >)
        ensures
            key_views(r@) == matching_keys(key_views(stored@), filters_of(filters)),
    {
        select_keys(stored, filters)
    }

    /// Of the audit entries read from the log, those that meet every
    /// filter, newest first, cut after the first `limit` of them.
    pub fn load_audit_logs(
        &self,
        stored: &Vec<AuditLogEntry>,
        filters: Option<&TextMap>,
        limit: Option<usize>,
    ) -> (r: Vec<AuditLogEntry>)
        ensures
            log_views(r@) == limited(
                newest_first(matching_logs(log_views(stored@), filters_of(filters))),
                limit,
            ),
    {
        let matching = select_logs(stored, filters);
        limit_logs(order_newest_first(&matching), limit)
    }
}

} // verus!
