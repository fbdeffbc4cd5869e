//! The data that the key management engine keeps: key metadata and audit
//! log entries.
use crate::system::{current_time, fresh_identifier, hyphenated};
use crate::text::{clone_opt_text, opt_text, owned, same_text};
use crate::text_map::{Pair, TextMap};
use vstd::prelude::*;

verus! {

/// The state of a key in its life cycle.
#[derive(Clone, Copy, Debug, PartialEq, Eq, Structural)]
pub enum KeyStatus {
    Active,
    Suspended,
    Expired,
    Compromised,
    Destroyed,
    PendingDestruction,
}

impl KeyStatus {
    /// The label under which the status is stored and compared with filters.
    pub open spec fn label(self) -> Seq<char> {
        match self {
            KeyStatus::Active => "ACTIVE"@,
            KeyStatus::Suspended => "SUSPENDED"@,
            KeyStatus::Expired => "EXPIRED"@,
            KeyStatus::Compromised => "COMPROMISED"@,
            KeyStatus::Destroyed => "DESTROYED"@,
            KeyStatus::PendingDestruction => "PENDING_DESTRUCTION"@,
        }
    }

    /// The status that a label names.
    pub open spec fn of_label(s: Seq<char>) -> Option<KeyStatus> {
        if s == "ACTIVE"@ {
            Some(KeyStatus::Active)
        } else if s == "SUSPENDED"@ {
            Some(KeyStatus::Suspended)
        } else if s == "EXPIRED"@ {
            Some(KeyStatus::Expired)
        } else if s == "COMPROMISED"@ {
            Some(KeyStatus::Compromised)
        } else if s == "DESTROYED"@ {
            Some(KeyStatus::Destroyed)
        } else if s == "PENDING_DESTRUCTION"@ {
            Some(KeyStatus::PendingDestruction)
        } else {
            None
        }
    }

    /// The variant's name, as it appears in messages.
    pub open spec fn name(self) -> Seq<char> {
        match self {
            KeyStatus::Active => "Active"@,
            KeyStatus::Suspended => "Suspended"@,
            KeyStatus::Expired => "Expired"@,
            KeyStatus::Compromised => "Compromised"@,
            KeyStatus::Destroyed => "Destroyed"@,
            KeyStatus::PendingDestruction => "PendingDestruction"@,
        }
    }

    /// The status's label.
    pub fn as_label(&self) -> (r: &'static str)
        ensures
            r@ == self.label(),
    {
        match self {
            KeyStatus::Active => "ACTIVE",
            KeyStatus::Suspended => "SUSPENDED",
            KeyStatus::Expired => "EXPIRED",
            KeyStatus::Compromised => "COMPROMISED",
            KeyStatus::Destroyed => "DESTROYED",
            KeyStatus::PendingDestruction => "PENDING_DESTRUCTION",
        }
    }

    /// The status's label, as an owned string.
    pub fn to_string(&self) -> (r: String)
        ensures
            r@ == self.label(),
    {
        owned(self.as_label())
    }

    /// The variant's name.
    pub fn variant_name(&self) -> (r: &'static str)
        ensures
            r@ == self.name(),
    {
        match self {
            KeyStatus::Active => "Active",
            KeyStatus::Suspended => "Suspended",
            KeyStatus::Expired => "Expired",
            KeyStatus::Compromised => "Compromised",
            KeyStatus::Destroyed => "Destroyed",
            KeyStatus::PendingDestruction => "PendingDestruction",
        }
    }

    /// Reads a status from its label.
    pub fn from_label(s: &str) -> (r: Option<KeyStatus>)
        ensures
            r == KeyStatus::of_label(s@),
    {
        if same_text(s, "ACTIVE") {
            Some(KeyStatus::Active)
        } else if same_text(s, "SUSPENDED") {
            Some(KeyStatus::Suspended)
        } else if same_text(s, "EXPIRED") {
            Some(KeyStatus::Expired)
        } else if same_text(s, "COMPROMISED") {
            Some(KeyStatus::Compromised)
        } else if same_text(s, "DESTROYED") {
            Some(KeyStatus::Destroyed)
        } else if same_text(s, "PENDING_DESTRUCTION") {
            Some(KeyStatus::PendingDestruction)
        } else {
            None
        }
    }

    /// Every status is read back from its own label.
    pub proof fn lemma_label_round_trip(self)
        ensures
            KeyStatus::of_label(self.label()) == Some(self),
    {
        reveal_strlit("ACTIVE");
        reveal_strlit("SUSPENDED");
        reveal_strlit("EXPIRED");
        reveal_strlit("COMPROMISED");
        reveal_strlit("DESTROYED");
        reveal_strlit("PENDING_DESTRUCTION");
        assert("ACTIVE"@.len() == 6);
        assert("SUSPENDED"@.len() == 9);
        assert("EXPIRED"@.len() == 7);
        assert("COMPROMISED"@.len() == 11);
        assert("DESTROYED"@[0] == 'D');
        assert("SUSPENDED"@[0] == 'S');
        assert("PENDING_DESTRUCTION"@.len() == 19);
    }
}

/// What kind of secret a key is.
#[derive(Clone, Copy, Debug, PartialEq, Eq, Structural)]
pub enum KeyType {
    Symmetric,
    AsymmetricPrivate,
    AsymmetricPublic,
    HMAC,
    Password,
}

impl KeyType {
    /// The label under which the type is stored and compared with filters.
    pub open spec fn label(self) -> Seq<char> {
        match self {
            KeyType::Symmetric => "SYMMETRIC"@,
            KeyType::AsymmetricPrivate => "ASYMMETRIC_PRIVATE"@,
            KeyType::AsymmetricPublic => "ASYMMETRIC_PUBLIC"@,
            KeyType::HMAC => "HMAC"@,
            KeyType::Password => "PASSWORD"@,
        }
    }

    /// The type that a label names.
    pub open spec fn of_label(s: Seq<char>) -> Option<KeyType> {
        if s == "SYMMETRIC"@ {
            Some(KeyType::Symmetric)
        } else if s == "ASYMMETRIC_PRIVATE"@ {
            Some(KeyType::AsymmetricPrivate)
        } else if s == "ASYMMETRIC_PUBLIC"@ {
            Some(KeyType::AsymmetricPublic)
        } else if s == "HMAC"@ {
            Some(KeyType::HMAC)
        } else if s == "PASSWORD"@ {
            Some(KeyType::Password)
        } else {
            None
        }
    }

    /// The variant's name, as it is written in a serialized key.
    pub open spec fn name(self) -> Seq<char> {
        match self {
            KeyType::Symmetric => "Symmetric"@,
            KeyType::AsymmetricPrivate => "AsymmetricPrivate"@,
            KeyType::AsymmetricPublic => "AsymmetricPublic"@,
            KeyType::HMAC => "HMAC"@,
            KeyType::Password => "Password"@,
        }
    }

    /// The variant's name.
    pub fn variant_name(&self) -> (r: &'static str)
        ensures
            r@ == self.name(),
    {
        match self {
            KeyType::Symmetric => "Symmetric",
            KeyType::AsymmetricPrivate => "AsymmetricPrivate",
            KeyType::AsymmetricPublic => "AsymmetricPublic",
            KeyType::HMAC => "HMAC",
            KeyType::Password => "Password",
        }
    }

    /// The type's label.
    pub fn as_label(&self) -> (r: &'static str)
        ensures
            r@ == self.label(),
    {
        match self {
            KeyType::Symmetric => "SYMMETRIC",
            KeyType::AsymmetricPrivate => "ASYMMETRIC_PRIVATE",
            KeyType::AsymmetricPublic => "ASYMMETRIC_PUBLIC",
            KeyType::HMAC => "HMAC",
            KeyType::Password => "PASSWORD",
        }
    }

    /// The type's label, as an owned string.
    pub fn to_string(&self) -> (r: String)
        ensures
            r@ == self.label(),
    {
        owned(self.as_label())
    }

    /// Reads a type from its label.
    pub fn from_label(s: &str) -> (r: Option<KeyType>)
        ensures
            r == KeyType::of_label(s@),
    {
        if same_text(s, "SYMMETRIC") {
            Some(KeyType::Symmetric)
        } else if same_text(s, "ASYMMETRIC_PRIVATE") {
            Some(KeyType::AsymmetricPrivate)
        } else if same_text(s, "ASYMMETRIC_PUBLIC") {
            Some(KeyType::AsymmetricPublic)
        } else if same_text(s, "HMAC") {
            Some(KeyType::HMAC)
        } else if same_text(s, "PASSWORD") {
            Some(KeyType::Password)
        } else {
            None
        }
    }

    /// Every type is read back from its own label.
    pub proof fn lemma_label_round_trip(self)
        ensures
            KeyType::of_label(self.label()) == Some(self),
    {
        reveal_strlit("SYMMETRIC");
        reveal_strlit("ASYMMETRIC_PRIVATE");
        reveal_strlit("ASYMMETRIC_PUBLIC");
        reveal_strlit("HMAC");
        reveal_strlit("PASSWORD");
        assert("SYMMETRIC"@.len() == 9);
        assert("ASYMMETRIC_PRIVATE"@.len() == 18);
        assert("ASYMMETRIC_PUBLIC"@.len() == 17);
        assert("HMAC"@.len() == 4);
        assert("PASSWORD"@.len() == 8);
    }
}

/// The algorithm that a key is made for.
#[derive(Clone, Copy, Debug, PartialEq, Eq, Structural)]
pub enum KeyAlgorithm {
    AES256,
    RSA2048,
    RSA4096,
    ECDSA,
    ED25519,
}

impl KeyAlgorithm {
    /// The label under which the algorithm is stored and compared with
    /// filters.
    pub open spec fn label(self) -> Seq<char> {
        match self {
            KeyAlgorithm::AES256 => "AES-256"@,
            KeyAlgorithm::RSA2048 => "RSA-2048"@,
            KeyAlgorithm::RSA4096 => "RSA-4096"@,
            KeyAlgorithm::ECDSA => "ECDSA"@,
            KeyAlgorithm::ED25519 => "ED25519"@,
        }
    }

    /// The algorithm that a label names.
    pub open spec fn of_label(s: Seq<char>) -> Option<KeyAlgorithm> {
        if s == "AES-256"@ {
            Some(KeyAlgorithm::AES256)
        } else if s == "RSA-2048"@ {
            Some(KeyAlgorithm::RSA2048)
        } else if s == "RSA-4096"@ {
            Some(KeyAlgorithm::RSA4096)
        } else if s == "ECDSA"@ {
            Some(KeyAlgorithm::ECDSA)
        } else if s == "ED25519"@ {
            Some(KeyAlgorithm::ED25519)
        } else {
            None
        }
    }

    /// The variant's name, as it is written in a serialized key.
    pub open spec fn name(self) -> Seq<char> {
        match self {
            KeyAlgorithm::AES256 => "AES256"@,
            KeyAlgorithm::RSA2048 => "RSA2048"@,
            KeyAlgorithm::RSA4096 => "RSA4096"@,
            KeyAlgorithm::ECDSA => "ECDSA"@,
            KeyAlgorithm::ED25519 => "ED25519"@,
        }
    }

    /// The variant's name.
    pub fn variant_name(&self) -> (r: &'static str)
        ensures
            r@ == self.name(),
    {
        match self {
            KeyAlgorithm::AES256 => "AES256",
            KeyAlgorithm::RSA2048 => "RSA2048",
            KeyAlgorithm::RSA4096 => "RSA4096",
            KeyAlgorithm::ECDSA => "ECDSA",
            KeyAlgorithm::ED25519 => "ED25519",
        }
    }

    /// The algorithm's label.
    pub fn as_label(&self) -> (r: &'static str)
        ensures
            r@ == self.label(),
    {
        match self {
            KeyAlgorithm::AES256 => "AES-256",
            KeyAlgorithm::RSA2048 => "RSA-2048",
            KeyAlgorithm::RSA4096 => "RSA-4096",
            KeyAlgorithm::ECDSA => "ECDSA",
            KeyAlgorithm::ED25519 => "ED25519",
        }
    }

    /// The algorithm's label, as an owned string.
    pub fn to_string(&self) -> (r: String)
        ensures
            r@ == self.label(),
    {
        owned(self.as_label())
    }

    /// Reads an algorithm from its label.
    pub fn from_label(s: &str) -> (r: Option<KeyAlgorithm>)
        ensures
            r == KeyAlgorithm::of_label(s@),
    {
        if same_text(s, "AES-256") {
            Some(KeyAlgorithm::AES256)
        } else if same_text(s, "RSA-2048") {
            Some(KeyAlgorithm::RSA2048)
        } else if same_text(s, "RSA-4096") {
            Some(KeyAlgorithm::RSA4096)
        } else if same_text(s, "ECDSA") {
            Some(KeyAlgorithm::ECDSA)
        } else if same_text(s, "ED25519") {
            Some(KeyAlgorithm::ED25519)
        } else {
            None
        }
    }

    /// Every algorithm is read back from its own label.
    pub proof fn lemma_label_round_trip(self)
        ensures
            KeyAlgorithm::of_label(self.label()) == Some(self),
    {
        reveal_strlit("AES-256");
        reveal_strlit("RSA-2048");
        reveal_strlit("RSA-4096");
        reveal_strlit("ECDSA");
        reveal_strlit("ED25519");
        assert("AES-256"@[0] == 'A');
        assert("RSA-2048"@[4] == '2');
        assert("RSA-4096"@[4] == '4');
        assert("ECDSA"@.len() == 5);
        assert("ED25519"@[0] == 'E');
    }
}

/// What the engine knows of a key, without the key material itself.
/// Times are microseconds since the Unix epoch.
#[derive(Debug)]
pub struct KeyMetadata {
    pub id: String,
    pub name: String,
    pub description: String,
    pub key_type: KeyType,
    pub algorithm: KeyAlgorithm,
    pub status: KeyStatus,
    pub owner: String,
    pub created_at: i64,
    pub updated_at: i64,
    pub expiration_date: Option<i64>,
    pub version: u32,
    pub requires_approval: bool,
    pub tags: TextMap,
}

/// A `KeyMetadata` as plain values.
pub ghost struct KeyMetadataView {
    pub id: Seq<char>,
    pub name: Seq<char>,
    pub description: Seq<char>,
    pub key_type: KeyType,
    pub algorithm: KeyAlgorithm,
    pub status: KeyStatus,
    pub owner: Seq<char>,
    pub created_at: i64,
    pub updated_at: i64,
    pub expiration_date: Option<i64>,
    pub version: u32,
    pub requires_approval: bool,
    pub tags: Seq<Pair>,
}

impl View for KeyMetadata {
    type V = KeyMetadataView;

    open spec fn view(&self) -> KeyMetadataView {
        KeyMetadataView {
            id: self.id@,
            name: self.name@,
            description: self.description@,
            key_type: self.key_type,
            algorithm: self.algorithm,
            status: self.status,
            owner: self.owner@,
            created_at: self.created_at,
            updated_at: self.updated_at,
            expiration_date: self.expiration_date,
            version: self.version,
            requires_approval: self.requires_approval,
            tags: self.tags@,
        }
    }
}

impl KeyMetadataView {
    /// The metadata of a key that was just made, at time `now`.
    pub open spec fn fresh(
        id: Seq<char>,
        now: i64,
        name: Seq<char>,
        description: Seq<char>,
        key_type: KeyType,
        algorithm: KeyAlgorithm,
        owner: Seq<char>,
        requires_approval: bool,
    ) -> KeyMetadataView {
        KeyMetadataView {
            id,
            name,
            description,
            key_type,
            algorithm,
            status: KeyStatus::Active,
            owner,
            created_at: now,
            updated_at: now,
            expiration_date: None,
            version: 1,
            requires_approval,
            tags: Seq::empty(),
        }
    }
}

impl KeyMetadata {
    /// The metadata of a new key: active, in version 1, without tags or
    /// expiration, under a fresh identifier and with the current time.
    pub fn new(
        name: String,
        description: String,
        key_type: KeyType,
        algorithm: KeyAlgorithm,
        owner: String,
        requires_approval: bool,
    ) -> (r: Self)
        ensures
            hyphenated(r@.id),
            r@ == KeyMetadataView::fresh(
                r@.id,
                r@.created_at,
                name@,
                description@,
                key_type,
                algorithm,
                owner@,
                requires_approval,
            ),
    {
        let id = fresh_identifier();
        let now = current_time();
        KeyMetadata::assemble(id, now, name, description, key_type, algorithm, owner, requires_approval)
    }

    /// The metadata of a new key under the identifier and time given.
    pub fn assemble(
        id: String,
        now: i64,
        name: String,
        description: String,
        key_type: KeyType,
        algorithm: KeyAlgorithm,
        owner: String,
        requires_approval: bool,
    ) -> (r: Self)
        ensures
            r@ == KeyMetadataView::fresh(
                id@,
                now,
                name@,
                description@,
                key_type,
                algorithm,
                owner@,
                requires_approval,
            ),
    {
        KeyMetadata {
            id,
            name,
            description,
            key_type,
            algorithm,
            status: KeyStatus::Active,
            owner,
            created_at: now,
            updated_at: now,
            expiration_date: None,
            version: 1,
            requires_approval,
            tags: TextMap::new(),
        }
    }
}

impl Clone for KeyMetadata {
    fn clone(&self) -> (r: Self)
        ensures
            r@ == self@,
    {
        KeyMetadata {
            id: self.id.clone(),
            name: self.name.clone(),
            description: self.description.clone(),
            key_type: self.key_type,
            algorithm: self.algorithm,
            status: self.status,
            owner: self.owner.clone(),
            created_at: self.created_at,
            updated_at: self.updated_at,
            expiration_date: self.expiration_date,
            version: self.version,
            requires_approval: self.requires_approval,
            tags: self.tags.clone(),
        }
    }
}

/// One line of the audit trail. The time is in microseconds since the Unix
/// epoch.
#[derive(Debug)]
pub struct AuditLogEntry {
    pub id: String,
    pub timestamp: i64,
    pub user: String,
    pub action: String,
    pub key_id: Option<String>,
    pub details: String,
    pub success: bool,
    pub error: Option<String>,
}

/// An `AuditLogEntry` as plain values.
pub ghost struct AuditLogEntryView {
    pub id: Seq<char>,
    pub timestamp: i64,
    pub user: Seq<char>,
    pub action: Seq<char>,
    pub key_id: Option<Seq<char>>,
    pub details: Seq<char>,
    pub success: bool,
    pub error: Option<Seq<char>>,
}

impl View for AuditLogEntry {
    type V = AuditLogEntryView;

    open spec fn view(&self) -> AuditLogEntryView {
        AuditLogEntryView {
            id: self.id@,
            timestamp: self.timestamp,
            user: self.user@,
            action: self.action@,
            key_id: opt_text(self.key_id),
            details: self.details@,
            success: self.success,
            error: opt_text(self.error),
        }
    }
}

impl AuditLogEntry {
    /// The entry with the identifier, the time and the other parts given.
    pub fn assemble(
        id: String,
        timestamp: i64,
        action: String,
        user: String,
        key_id: Option<String>,
        details: String,
        success: bool,
        error: Option<String>,
    ) -> (r: Self)
        ensures
            r@ == (AuditLogEntryView {
                id: id@,
                timestamp,
                user: user@,
                action: action@,
                key_id: opt_text(key_id),
                details: details@,
                success,
                error: opt_text(error),
            }),
    {
        AuditLogEntry { id, timestamp, user, action, key_id, details, success, error }
    }

    /// An entry without an error text, under a fresh identifier and with the
    /// current time.
    pub fn new(action: String, user: String, key_id: Option<String>, details: String, success: bool) -> (r:
        Self)
        ensures
            hyphenated(r@.id),
            r@ == (AuditLogEntryView {
                id: r@.id,
                timestamp: r@.timestamp,
                user: user@,
                action: action@,
                key_id: opt_text(key_id),
                details: details@,
                success,
                error: None,
            }),
    {
        AuditLogEntry::assemble(
            fresh_identifier(),
            current_time(),
            action,
            user,
            key_id,
            details,
            success,
            None,
        )
    }

    /// The entry of an action that failed with `error`, under a fresh
    /// identifier and with the current time.
    pub fn with_error(
        action: String,
        user: String,
        key_id: Option<String>,
        details: String,
        error: String,
    ) -> (r: Self)
        ensures
            hyphenated(r@.id),
            r@ == (AuditLogEntryView {
                id: r@.id,
                timestamp: r@.timestamp,
                user: user@,
                action: action@,
                key_id: opt_text(key_id),
                details: details@,
                success: false,
                error: Some(error@),
            }),
    {
        AuditLogEntry::assemble(
            fresh_identifier(),
            current_time(),
            action,
            user,
            key_id,
            details,
            false,
            Some(error),
        )
    }
}

impl Clone for AuditLogEntry {
    fn clone(&self) -> (r: Self)
        ensures
            r@ == self@,
    {
        AuditLogEntry {
            id: self.id.clone(),
            timestamp: self.timestamp,
            user: self.user.clone(),
            action: self.action.clone(),
            key_id: clone_opt_text(&self.key_id),
            details: self.details.clone(),
            success: self.success,
            error: clone_opt_text(&self.error),
        }
    }
}

} // verus!
