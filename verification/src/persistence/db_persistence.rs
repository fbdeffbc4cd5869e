//! The relational store's side of persistence that needs no database: the
//! schema, the queries that filters turn into, and the rows that keys and
//! audit entries are stored as.
use crate::error::{PluginError, PluginErrorView};
use crate::decimal::{decimal_digits, decimal_text};
use crate::key_management::models::{
    AuditLogEntry, AuditLogEntryView, KeyAlgorithm, KeyMetadata, KeyMetadataView, KeyStatus, KeyType,
};
use crate::key_management::filters::filters_of;
use crate::system::{parse_rfc3339, parsed_time, rfc3339, rfc3339_micros, rfc3339_text};
use crate::text::{
    clone_opt_text, concat2, opt_text, owned, same_text, strip_prefix, text_views, without_prefix,
};
use crate::text_map::{Pair, TextMap};
use vstd::prelude::*;
use vstd::string::*;

verus! {

/// The statement that makes the table of keys.
pub const KEY_TABLE_SCHEMA: &'static str =
    "CREATE TABLE IF NOT EXISTS key_metadata (id TEXT PRIMARY KEY, name TEXT NOT NULL, description TEXT, key_type TEXT NOT NULL, algorithm TEXT NOT NULL, status TEXT NOT NULL, owner TEXT NOT NULL, created_at TEXT NOT NULL, updated_at TEXT NOT NULL, expires_at TEXT, version INTEGER NOT NULL, requires_approval INTEGER NOT NULL)";

/// The statement that makes the table of tags, whose rows go when their
/// key goes.
pub const TAG_TABLE_SCHEMA: &'static str =
    "CREATE TABLE IF NOT EXISTS key_tags (key_id TEXT NOT NULL, tag_key TEXT NOT NULL, tag_value TEXT NOT NULL, PRIMARY KEY (key_id, tag_key), FOREIGN KEY (key_id) REFERENCES key_metadata(id) ON DELETE CASCADE)";

/// The statement that makes the table of audit entries.
pub const AUDIT_TABLE_SCHEMA: &'static str =
    "CREATE TABLE IF NOT EXISTS audit_logs (id TEXT PRIMARY KEY, timestamp TEXT NOT NULL, user TEXT NOT NULL, action TEXT NOT NULL, key_id TEXT, details TEXT, success INTEGER NOT NULL, error TEXT)";

/// The statement that stores a key's row, in the order of `KeyRow`'s fields.
pub const SAVE_KEY: &'static str =
    "INSERT OR REPLACE INTO key_metadata (id, name, description, key_type, algorithm, status, owner, created_at, updated_at, expires_at, version, requires_approval) VALUES (?, ?, ?, ?, ?, ?, ?, ?, ?, ?, ?, ?)";

/// The statement that removes a key's tags.
pub const DELETE_TAGS: &'static str = "DELETE FROM key_tags WHERE key_id = ?";

/// The statement that stores one tag of a key.
pub const SAVE_TAG: &'static str = "INSERT INTO key_tags (key_id, tag_key, tag_value) VALUES (?, ?, ?)";

/// The statement that loads a key's row.
pub const LOAD_KEY: &'static str = "SELECT * FROM key_metadata WHERE id = ?";

/// The statement that loads a key's tags.
pub const LOAD_TAGS: &'static str = "SELECT tag_key, tag_value FROM key_tags WHERE key_id = ?";

/// The statement that removes a key's row.
pub const DELETE_KEY: &'static str = "DELETE FROM key_metadata WHERE id = ?";

/// The statement that stores an audit entry's row, in the order of
/// `AuditRow`'s fields.
pub const SAVE_AUDIT: &'static str =
    "INSERT INTO audit_logs (id, timestamp, user, action, key_id, details, success, error) VALUES (?, ?, ?, ?, ?, ?, ?, ?)";

/// The table that a query reads.
#[derive(Clone, Copy, Debug, PartialEq, Eq, Structural)]
pub enum Table {
    Keys,
    AuditLogs,
}

/// One condition of a query, with the values bound to its placeholders.
pub ghost struct Clause {
    pub text: Seq<char>,
    pub params: Seq<Seq<char>>,
}

/// The condition that the filter `name` = `value` turns into; `None` for a
/// name that the table does not filter by.
pub open spec fn clause_of(table: Table, name: Seq<char>, value: Seq<char>) -> Option<Clause> {
    match table {
        Table::Keys => if name == "status"@ {
            Some(Clause { text: "status = ?"@, params: seq![value] })
        } else if name == "type"@ {
            Some(Clause { text: "key_type = ?"@, params: seq![value] })
        } else if name == "algorithm"@ {
            Some(Clause { text: "algorithm = ?"@, params: seq![value] })
        } else if name == "owner"@ {
            Some(Clause { text: "owner = ?"@, params: seq![value] })
        } else {
            match without_prefix(name, "tag."@) {
                Some(tag) => Some(
                    Clause {
                        text: "id IN (SELECT key_id FROM key_tags WHERE tag_key = ? AND tag_value = ?)"@,
                        params: seq![tag, value],
                    },
                ),
                None => None,
            }
        },
        Table::AuditLogs => if name == "action"@ {
            Some(Clause { text: "action = ?"@, params: seq![value] })
        } else if name == "user"@ {
            Some(Clause { text: "user = ?"@, params: seq![value] })
        } else if name == "key_id"@ {
            Some(Clause { text: "key_id = ?"@, params: seq![value] })
        } else if name == "success"@ {
            Some(
                Clause {
                    text: "success = ?"@,
                    params: seq![if value == "true"@ {
                        "1"@
                    } else {
                        "0"@
                    }],
                },
            )
        } else {
            None
        },
    }
}

/// The conditions that the filters turn into, in the filters' order.
pub open spec fn clauses_of(table: Table, filters: Seq<Pair>) -> Seq<Clause>
    decreases filters.len(),
{
    if filters.len() == 0 {
        Seq::empty()
    } else {
        match clause_of(table, filters.last().0, filters.last().1) {
            Some(c) => clauses_of(table, filters.drop_last()).push(c),
            None => clauses_of(table, filters.drop_last()),
        }
    }
}

/// The conditions' texts with ` AND ` between them.
pub open spec fn conjunction(clauses: Seq<Clause>) -> Seq<char>
    decreases clauses.len(),
{
    if clauses.len() == 0 {
        Seq::empty()
    } else if clauses.len() == 1 {
        clauses.last().text
    } else {
        conjunction(clauses.drop_last()) + " AND "@ + clauses.last().text
    }
}

/// The values bound to the conditions' placeholders, in order.
pub open spec fn bound_values(clauses: Seq<Clause>) -> Seq<Seq<char>>
    decreases clauses.len(),
{
    if clauses.len() == 0 {
        Seq::empty()
    } else {
        bound_values(clauses.drop_last()) + clauses.last().params
    }
}

/// The `WHERE` part of a query: nothing where there is no condition.
pub open spec fn where_part(clauses: Seq<Clause>) -> Seq<char> {
    if clauses.len() == 0 {
        Seq::empty()
    } else {
        " WHERE "@ + conjunction(clauses)
    }
}

/// The query that lists the keys that meet the filters.
pub open spec fn key_query_text(filters: Seq<Pair>) -> Seq<char> {
    "SELECT * FROM key_metadata"@ + where_part(clauses_of(Table::Keys, filters))
}

/// The `LIMIT` part of a query: nothing where there is no limit.
pub open spec fn limit_part(limit: Option<usize>) -> Seq<char> {
    match limit {
        Some(n) => " LIMIT "@ + decimal_digits(n as nat),
        None => Seq::empty(),
    }
}

/// The query that lists the audit entries that meet the filters, newest
/// first, and at most `limit` of them.
pub open spec fn audit_query_text(filters: Seq<Pair>, limit: Option<usize>) -> Seq<char> {
    "SELECT * FROM audit_logs"@ + where_part(clauses_of(Table::AuditLogs, filters))
        + " ORDER BY timestamp DESC"@ + limit_part(limit)
}

/// A query with the values to bind to its placeholders, in order.
#[derive(Debug)]
pub struct SqlQuery {
    pub text: String,
    pub params: Vec<String>,
}

/// One condition as it is built: its text and the values it binds.
struct BuiltClause {
    text: &'static str,
    first: String,
    second: Option<String>,
}

impl BuiltClause {
    spec fn clause(self) -> Clause {
        Clause {
            text: self.text@,
            params: match self.second {
                Some(s) => seq![self.first@, s@],
                None => seq![self.first@],
            },
        }
    }
}

/// The condition that the filter `name` = `value` turns into.
fn build_clause(table: Table, name: &str, value: &str) -> (r: Option<BuiltClause>)
    ensures
        match r {
            Some(c) => clause_of(table, name@, value@) == Some(c.clause()),
            None => clause_of(table, name@, value@).is_none(),
        },
{
    match table {
        Table::Keys => {
            if same_text(name, "status") {
                Some(BuiltClause { text: "status = ?", first: owned(value), second: None })
            } else if same_text(name, "type") {
                Some(BuiltClause { text: "key_type = ?", first: owned(value), second: None })
            } else if same_text(name, "algorithm") {
                Some(BuiltClause { text: "algorithm = ?", first: owned(value), second: None })
            } else if same_text(name, "owner") {
                Some(BuiltClause { text: "owner = ?", first: owned(value), second: None })
            } else {
                match strip_prefix(name, "tag.") {
                    Some(tag) => Some(
                        BuiltClause {
                            text: "id IN (SELECT key_id FROM key_tags WHERE tag_key = ? AND tag_value = ?)",
                            first: owned(tag),
                            second: Some(owned(value)),
                        },
                    ),
                    None => None,
                }
            }
        },
        Table::AuditLogs => {
            if same_text(name, "action") {
                Some(BuiltClause { text: "action = ?", first: owned(value), second: None })
            } else if same_text(name, "user") {
                Some(BuiltClause { text: "user = ?", first: owned(value), second: None })
            } else if same_text(name, "key_id") {
                Some(BuiltClause { text: "key_id = ?", first: owned(value), second: None })
            } else if same_text(name, "success") {
                let flag = if same_text(value, "true") {
                    "1"
                } else {
                    "0"
                };
                Some(BuiltClause { text: "success = ?", first: owned(flag), second: None })
            } else {
                None
            }
        },
    }
}

/// Appends the `WHERE` part that the filters turn into to `text`, and
/// returns the values to bind.
fn append_conditions(text: &mut String, table: Table, filters: Option<&TextMap>) -> (params: Vec<String>)
    ensures
        final(text)@ == old(text)@ + where_part(clauses_of(table, filters_of(filters))),
        text_views(params@) == bound_values(clauses_of(table, filters_of(filters))),
{
    let mut params: Vec<String> = Vec::new();
    let ghost all = filters_of(filters);
    assert(text_views(params@) =~= Seq::empty());
    assert(text@ =~= old(text)@ + Seq::<char>::empty());
    match filters {
        None => {},
        Some(f) => {
            let mut i: usize = 0;
            let mut count: usize = 0;
            assert(all.take(0) =~= Seq::empty());
            while i < f.len()
                invariant
                    all == f@,
                    i <= all.len(),
                    count <= i,
                    count == clauses_of(table, all.take(i as int)).len(),
                    text@ == old(text)@ + where_part(clauses_of(table, all.take(i as int))),
                    text_views(params@) == bound_values(clauses_of(table, all.take(i as int))),
                decreases all.len() - i,
            {
                let ghost before = clauses_of(table, all.take(i as int));
                let ghost bound = text_views(params@);
                proof {
                    assert(all.take(i + 1).drop_last() =~= all.take(i as int));
                    assert(all.take(i + 1).last() == all[i as int]);
                }
                match build_clause(table, f.key_at(i).as_str(), f.value_at(i).as_str()) {
                    Some(c) => {
                        let ghost after = before.push(c.clause());
                        proof {
                            assert(after.drop_last() =~= before);
                        }
                        if count == 0 {
                            text.append(" WHERE ");
                        } else {
                            text.append(" AND ");
                        }
                        text.append(c.text);
                        params.push(c.first);
                        match c.second {
                            Some(s) => {
                                params.push(s);
                            },
                            None => {},
                        }
                        proof {
                            assert(text_views(params@) =~= bound + c.clause().params);
                            if count == 0 {
                                assert(where_part(before) =~= Seq::<char>::empty());
                                assert(text@ =~= old(text)@ + where_part(after));
                            } else {
                                assert(text@ =~= old(text)@ + where_part(after));
                            }
                        }
                        count += 1;
                    },
                    None => {},
                }
                i += 1;
            }
            assert(all.take(i as int) =~= all);
        },
    }
    params
}

/// The query that lists the keys that meet the filters; all keys where
/// there is none. A filter on a name that keys are not filtered by leaves no
/// trace in it.
pub fn key_query(filters: Option<&TextMap>) -> (r: SqlQuery)
    ensures
        r.text@ == key_query_text(filters_of(filters)),
        text_views(r.params@) == bound_values(clauses_of(Table::Keys, filters_of(filters))),
{
    let mut text = owned("SELECT * FROM key_metadata");
    let params = append_conditions(&mut text, Table::Keys, filters);
    SqlQuery { text, params }
}

/// The query that lists the audit entries that meet the filters, newest
/// first, and at most `limit` of them where there is a limit.
pub fn audit_query(filters: Option<&TextMap>, limit: Option<usize>) -> (r: SqlQuery)
    ensures
        r.text@ == audit_query_text(filters_of(filters), limit),
        text_views(r.params@) == bound_values(clauses_of(Table::AuditLogs, filters_of(filters))),
{
    let mut text = owned("SELECT * FROM audit_logs");
    let params = append_conditions(&mut text, Table::AuditLogs, filters);
    text.append(" ORDER BY timestamp DESC");
    match limit {
        Some(n) => {
            text.append(" LIMIT ");
            text.append(decimal_text(n as u64).as_str());
            assert(text@ =~= audit_query_text(filters_of(filters), limit));
        },
        None => {
            assert(text@ =~= audit_query_text(filters_of(filters), limit));
        },
    }
    SqlQuery { text, params }
}

/// A key as a row of the table of keys. The kind, algorithm and status are
/// stored as their labels, the times as text in RFC 3339, the flag as 0 or
/// 1.
#[derive(Debug)]
pub struct KeyRow {
    pub id: String,
    pub name: String,
    pub description: String,
    pub key_type: String,
    pub algorithm: String,
    pub status: String,
    pub owner: String,
    pub created_at: String,
    pub updated_at: String,
    pub expires_at: Option<String>,
    pub version: u32,
    pub requires_approval: i32,
}

/// A `KeyRow` as plain values.
pub ghost struct KeyRowView {
    pub id: Seq<char>,
    pub name: Seq<char>,
    pub description: Seq<char>,
    pub key_type: Seq<char>,
    pub algorithm: Seq<char>,
    pub status: Seq<char>,
    pub owner: Seq<char>,
    pub created_at: Seq<char>,
    pub updated_at: Seq<char>,
    pub expires_at: Option<Seq<char>>,
    pub version: u32,
    pub requires_approval: i32,
}

impl View for KeyRow {
    type V = KeyRowView;

    open spec fn view(&self) -> KeyRowView {
        KeyRowView {
            id: self.id@,
            name: self.name@,
            description: self.description@,
            key_type: self.key_type@,
            algorithm: self.algorithm@,
            status: self.status@,
            owner: self.owner@,
            created_at: self.created_at@,
            updated_at: self.updated_at@,
            expires_at: opt_text(self.expires_at),
            version: self.version,
            requires_approval: self.requires_approval,
        }
    }
}

/// The row that a key is stored as, with the three times as the texts
/// given.
pub open spec fn key_row_with_times(
    k: KeyMetadataView,
    created_at: Seq<char>,
    updated_at: Seq<char>,
    expires_at: Option<Seq<char>>,
) -> KeyRowView {
    KeyRowView {
        id: k.id,
        name: k.name,
        description: k.description,
        key_type: k.key_type.label(),
        algorithm: k.algorithm.label(),
        status: k.status.label(),
        owner: k.owner,
        created_at,
        updated_at,
        expires_at,
        version: k.version,
        requires_approval: if k.requires_approval {
            1
        } else {
            0
        },
    }
}

/// The row that a key is stored as; `None` where one of its times cannot be
/// written.
pub open spec fn key_row_of(k: KeyMetadataView) -> Option<KeyRowView> {
    let expires = match k.expiration_date {
        Some(t) => rfc3339_text(t, false),
        None => None,
    };
    if rfc3339_text(k.created_at, false).is_none() || rfc3339_text(k.updated_at, false).is_none() || (
    k.expiration_date.is_some() && expires.is_none()) {
        None
    } else {
        Some(
            key_row_with_times(
                k,
                rfc3339_text(k.created_at, false).unwrap(),
                rfc3339_text(k.updated_at, false).unwrap(),
                expires,
            ),
        )
    }
}

/// What reading a time from text came to.
pub type TimeRead = Result<i64, Seq<char>>;

/// The key that a row and its tags stand for, given what reading its three
/// times came to; or the reason why they stand for none: the first of the
/// three times that is no time, or else the type, algorithm or status that
/// is no label.
pub open spec fn key_of_parts(
    row: KeyRowView,
    tags: Seq<Pair>,
    created_at: TimeRead,
    updated_at: TimeRead,
    expires_at: Option<TimeRead>,
) -> Result<KeyMetadataView, PluginErrorView> {
    if created_at is Err {
        Err(PluginErrorView::Persistence("解析创建时间失败: "@ + created_at->Err_0))
    } else if updated_at is Err {
        Err(PluginErrorView::Persistence("解析更新时间失败: "@ + updated_at->Err_0))
    } else if expires_at.is_some() && expires_at.unwrap() is Err {
        Err(PluginErrorView::Persistence("解析过期时间失败: "@ + expires_at.unwrap()->Err_0))
    } else if KeyType::of_label(row.key_type).is_none() {
        Err(PluginErrorView::Persistence("无效的密钥类型: "@ + row.key_type))
    } else if KeyAlgorithm::of_label(row.algorithm).is_none() {
        Err(PluginErrorView::Persistence("无效的算法: "@ + row.algorithm))
    } else if KeyStatus::of_label(row.status).is_none() {
        Err(PluginErrorView::Persistence("无效的状态: "@ + row.status))
    } else {
        Ok(
            KeyMetadataView {
                id: row.id,
                name: row.name,
                description: row.description,
                key_type: KeyType::of_label(row.key_type).unwrap(),
                algorithm: KeyAlgorithm::of_label(row.algorithm).unwrap(),
                status: KeyStatus::of_label(row.status).unwrap(),
                owner: row.owner,
                created_at: created_at->Ok_0,
                updated_at: updated_at->Ok_0,
                expiration_date: match expires_at {
                    Some(t) => Some(t->Ok_0),
                    None => None,
                },
                version: row.version,
                requires_approval: row.requires_approval != 0,
                tags,
            },
        )
    }
}

/// The key that a row and its tags stand for, or the reason why they stand
/// for none.
pub open spec fn key_of_row(row: KeyRowView, tags: Seq<Pair>) -> Result<
    KeyMetadataView,
    PluginErrorView,
> {
    key_of_parts(
        row,
        tags,
        rfc3339_micros(row.created_at),
        rfc3339_micros(row.updated_at),
        match row.expires_at {
            Some(t) => Some(rfc3339_micros(t)),
            None => None,
        },
    )
}

/// The view of a row, where there is one.
pub open spec fn key_row_view(r: Option<KeyRow>) -> Option<KeyRowView> {
    match r {
        Some(row) => Some(row@),
        None => None,
    }
}

/// The view of a key read from a row, or of the reason why there is none.
pub open spec fn key_result_view(r: Result<KeyMetadata, PluginError>) -> Result<
    KeyMetadataView,
    PluginErrorView,
> {
    match r {
        Ok(k) => Ok(k@),
        Err(e) => Err(e@),
    }
}

/// The view of what reading an optional time came to.
pub open spec fn optional_time_read(r: Option<Result<i64, String>>) -> Option<TimeRead> {
    match r {
        Some(t) => Some(parsed_time(t)),
        None => None,
    }
}

/// The row to store a key as, with the three times as the texts given.
pub fn key_row_with(
    metadata: &KeyMetadata,
    created_at: String,
    updated_at: String,
    expires_at: Option<String>,
) -> (r: KeyRow)
    ensures
        r@ == key_row_with_times(metadata@, created_at@, updated_at@, opt_text(expires_at)),
{
    KeyRow {
        id: metadata.id.clone(),
        name: metadata.name.clone(),
        description: metadata.description.clone(),
        key_type: metadata.key_type.to_string(),
        algorithm: metadata.algorithm.to_string(),
        status: metadata.status.to_string(),
        owner: metadata.owner.clone(),
        created_at,
        updated_at,
        expires_at,
        version: metadata.version,
        requires_approval: if metadata.requires_approval {
            1
        } else {
            0
        },
    }
}

/// The row to store a key as. Its tags go to the table of tags, one row
/// each.
pub fn key_to_row(metadata: &KeyMetadata) -> (r: Option<KeyRow>)
    ensures
        key_row_view(r) == key_row_of(metadata@),
{
    let created_at = match rfc3339(metadata.created_at, false) {
        Some(t) => t,
        None => {
            return None;
        },
    };
    let updated_at = match rfc3339(metadata.updated_at, false) {
        Some(t) => t,
        None => {
            return None;
        },
    };
    let expires_at = match metadata.expiration_date {
        Some(t) => match rfc3339(t, false) {
            Some(text) => Some(text),
            None => {
                return None;
            },
        },
        None => None,
    };
    Some(key_row_with(metadata, created_at, updated_at, expires_at))
}

/// The key that a row and its tags stand for, given what reading its three
/// times came to.
pub fn key_from_parts(
    row: KeyRow,
    tags: TextMap,
    created_at: Result<i64, String>,
    updated_at: Result<i64, String>,
    expires_at: Option<Result<i64, String>>,
) -> (r: Result<KeyMetadata, PluginError>)
    ensures
        key_result_view(r) == key_of_parts(
            row@,
            tags@,
            parsed_time(created_at),
            parsed_time(updated_at),
            optional_time_read(expires_at),
        ),
{
    let created_at = match created_at {
        Ok(t) => t,
        Err(e) => {
            return Err(PluginError::Persistence(concat2("解析创建时间失败: ", e.as_str())));
        },
    };
    let updated_at = match updated_at {
        Ok(t) => t,
        Err(e) => {
            return Err(PluginError::Persistence(concat2("解析更新时间失败: ", e.as_str())));
        },
    };
    let expiration_date = match expires_at {
        Some(read) => match read {
            Ok(t) => Some(t),
            Err(e) => {
                return Err(PluginError::Persistence(concat2("解析过期时间失败: ", e.as_str())));
            },
        },
        None => None,
    };
    let key_type = match KeyType::from_label(row.key_type.as_str()) {
        Some(t) => t,
        None => {
            return Err(PluginError::Persistence(concat2("无效的密钥类型: ", row.key_type.as_str())));
        },
    };
    let algorithm = match KeyAlgorithm::from_label(row.algorithm.as_str()) {
        Some(a) => a,
        None => {
            return Err(PluginError::Persistence(concat2("无效的算法: ", row.algorithm.as_str())));
        },
    };
    let status = match KeyStatus::from_label(row.status.as_str()) {
        Some(s) => s,
        None => {
            return Err(PluginError::Persistence(concat2("无效的状态: ", row.status.as_str())));
        },
    };
    Ok(
        KeyMetadata {
            id: row.id,
            name: row.name,
            description: row.description,
            key_type,
            algorithm,
            status,
            owner: row.owner,
            created_at,
            updated_at,
            expiration_date,
            version: row.version,
            requires_approval: row.requires_approval != 0,
            tags,
        },
    )
}

/// The key that a row and its tags stand for.
pub fn key_from_row(row: KeyRow, tags: TextMap) -> (r: Result<KeyMetadata, PluginError>)
    ensures
        key_result_view(r) == key_of_row(row@, tags@),
{
    let created_at = parse_rfc3339(row.created_at.as_str());
    let updated_at = parse_rfc3339(row.updated_at.as_str());
    let expires_at = match &row.expires_at {
        Some(text) => Some(parse_rfc3339(text.as_str())),
        None => None,
    };
    key_from_parts(row, tags, created_at, updated_at, expires_at)
}

/// An audit entry as a row of the table of audit entries. The time is
/// stored as text in RFC 3339, the flag as 0 or 1.
#[derive(Debug)]
pub struct AuditRow {
    pub id: String,
    pub timestamp: String,
    pub user: String,
    pub action: String,
    pub key_id: Option<String>,
    pub details: String,
    pub success: i32,
    pub error: Option<String>,
}

/// An `AuditRow` as plain values.
pub ghost struct AuditRowView {
    pub id: Seq<char>,
    pub timestamp: Seq<char>,
    pub user: Seq<char>,
    pub action: Seq<char>,
    pub key_id: Option<Seq<char>>,
    pub details: Seq<char>,
    pub success: i32,
    pub error: Option<Seq<char>>,
}

impl View for AuditRow {
    type V = AuditRowView;

    open spec fn view(&self) -> AuditRowView {
        AuditRowView {
            id: self.id@,
            timestamp: self.timestamp@,
            user: self.user@,
            action: self.action@,
            key_id: opt_text(self.key_id),
            details: self.details@,
            success: self.success,
            error: opt_text(self.error),
        }
    }
}

/// The row that an audit entry is stored as, with its time as the text
/// given.
pub open spec fn audit_row_with_time(e: AuditLogEntryView, timestamp: Seq<char>) -> AuditRowView {
    AuditRowView {
        id: e.id,
        timestamp,
        user: e.user,
        action: e.action,
        key_id: e.key_id,
        details: e.details,
        success: if e.success {
            1
        } else {
            0
        },
        error: e.error,
    }
}

/// The row that an audit entry is stored as; `None` where its time cannot
/// be written.
pub open spec fn audit_row_of(e: AuditLogEntryView) -> Option<AuditRowView> {
    match rfc3339_text(e.timestamp, false) {
        Some(timestamp) => Some(audit_row_with_time(e, timestamp)),
        None => None,
    }
}

/// The audit entry that a row stands for, given what reading its time came
/// to; or the reason why it stands for none: its time is no time.
pub open spec fn audit_of_parts(row: AuditRowView, timestamp: TimeRead) -> Result<
    AuditLogEntryView,
    PluginErrorView,
> {
    match timestamp {
        Ok(timestamp) => Ok(
            AuditLogEntryView {
                id: row.id,
                timestamp,
                user: row.user,
                action: row.action,
                key_id: row.key_id,
                details: row.details,
                success: row.success != 0,
                error: row.error,
            },
        ),
        Err(e) => Err(PluginErrorView::Persistence("解析时间戳失败: "@ + e)),
    }
}

/// The audit entry that a row stands for, or the reason why it stands for
/// none.
pub open spec fn audit_of_row(row: AuditRowView) -> Result<AuditLogEntryView, PluginErrorView> {
    audit_of_parts(row, rfc3339_micros(row.timestamp))
}

/// The view of a row, where there is one.
pub open spec fn audit_row_view(r: Option<AuditRow>) -> Option<AuditRowView> {
    match r {
        Some(row) => Some(row@),
        None => None,
    }
}

/// The view of an entry read from a row, or of the reason why there is
/// none.
pub open spec fn audit_result_view(r: Result<AuditLogEntry, PluginError>) -> Result<
    AuditLogEntryView,
    PluginErrorView,
> {
    match r {
        Ok(e) => Ok(e@),
        Err(e) => Err(e@),
    }
}

/// The row to store an audit entry as, with its time as the text given.
pub fn audit_row_with(log: &AuditLogEntry, timestamp: String) -> (r: AuditRow)
    ensures
        r@ == audit_row_with_time(log@, timestamp@),
{
    AuditRow {
        id: log.id.clone(),
        timestamp,
        user: log.user.clone(),
        action: log.action.clone(),
        key_id: clone_opt_text(&log.key_id),
        details: log.details.clone(),
        success: if log.success {
            1
        } else {
            0
        },
        error: clone_opt_text(&log.error),
    }
}

/// The row to store an audit entry as.
pub fn audit_to_row(log: &AuditLogEntry) -> (r: Option<AuditRow>)
    ensures
        audit_row_view(r) == audit_row_of(log@),
{
    match rfc3339(log.timestamp, false) {
        Some(timestamp) => Some(audit_row_with(log, timestamp)),
        None => None,
    }
}

/// The audit entry that a row stands for, given what reading its time came
/// to.
pub fn audit_from_parts(row: AuditRow, timestamp: Result<i64, String>) -> (r: Result<
    AuditLogEntry,
    PluginError,
>)
    ensures
        audit_result_view(r) == audit_of_parts(row@, parsed_time(timestamp)),
{
    match timestamp {
        Ok(timestamp) => Ok(
            AuditLogEntry {
                id: row.id,
                timestamp,
                user: row.user,
                action: row.action,
                key_id: row.key_id,
                details: row.details,
                success: row.success != 0,
                error: row.error,
            },
        ),
        Err(e) => Err(PluginError::Persistence(concat2("解析时间戳失败: ", e.as_str()))),
    }
}

/// The audit entry that a row stands for.
pub fn audit_from_row(row: AuditRow) -> (r: Result<AuditLogEntry, PluginError>)
    ensures
        audit_result_view(r) == audit_of_row(row@),
{
    let timestamp = parse_rfc3339(row.timestamp.as_str());
    audit_from_parts(row, timestamp)
}

} // verus!
