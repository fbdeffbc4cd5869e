//! Keys written out as JSON text, for the payload of a command's result.
//! Strings are quoted by `serde_json` and times are written by `chrono`; the
//! framing around them is done here.
use crate::decimal::{decimal_digits, decimal_text};
use crate::key_management::filters::key_views;
use crate::key_management::models::{KeyMetadata, KeyMetadataView};
use crate::system::{rfc3339, rfc3339_text};
use crate::text::{opt_text, owned, text_views};
use crate::text_map::{Pair, TextMap};
use vstd::prelude::*;
use vstd::string::*;

verus! {

/// A text as a JSON string: between quotes, with the characters escaped that
/// JSON does not take as they are, as `serde_json` writes it.
pub uninterp spec fn json_quoted(s: Seq<char>) -> Seq<char>;

/// Trusted: `serde_json::to_string` of a string slice writes it as a JSON
/// string and does not fail. The text depends on the slice alone and is
/// named `json_quoted`.
#[verifier::external_body]
pub(crate) fn json_string(s: &str) -> (r: String)
    ensures
        r@ == json_quoted(s@),
{
    serde_json::to_string(s).unwrap_or_default()
}

/// The texts with `separator` between them.
pub open spec fn joined(texts: Seq<Seq<char>>, separator: Seq<char>) -> Seq<char>
    decreases texts.len(),
{
    if texts.len() == 0 {
        Seq::empty()
    } else if texts.len() == 1 {
        texts.last()
    } else {
        joined(texts.drop_last(), separator) + separator + texts.last()
    }
}

/// A JSON array of the elements given, each of which is JSON text already.
pub open spec fn framed_array(elements: Seq<Seq<char>>) -> Seq<char> {
    "["@ + joined(elements, ","@) + "]"@
}

/// The members of a JSON object, each as its name, a colon and its value;
/// names and values are JSON text already.
pub open spec fn member_texts(members: Seq<Pair>) -> Seq<Seq<char>> {
    members.map_values(|m: Pair| m.0 + ":"@ + m.1)
}

/// A JSON object of the members given, whose names and values are JSON text
/// already.
pub open spec fn framed_object(members: Seq<Pair>) -> Seq<char> {
    "{"@ + joined(member_texts(members), ","@) + "}"@
}

/// The pairs with each key and each value as a JSON string.
pub open spec fn quoted_pairs(pairs: Seq<Pair>) -> Seq<Pair> {
    pairs.map_values(|p: Pair| (json_quoted(p.0), json_quoted(p.1)))
}

/// A map from text to text as a JSON object.
pub open spec fn json_object(pairs: Seq<Pair>) -> Seq<char> {
    framed_object(quoted_pairs(pairs))
}

/// A point in time as a JSON string, or `None` where it cannot be written.
pub open spec fn json_time(micros: i64) -> Option<Seq<char>> {
    match rfc3339_text(micros, true) {
        Some(t) => Some(json_quoted(t)),
        None => None,
    }
}

/// An optional point in time as a JSON string or `null`, or `None` where it
/// cannot be written.
pub open spec fn json_optional_time(micros: Option<i64>) -> Option<Seq<char>> {
    match micros {
        Some(t) => json_time(t),
        None => Some("null"@),
    }
}

/// `true` or `false`.
pub open spec fn json_bool(b: bool) -> Seq<char> {
    if b {
        "true"@
    } else {
        "false"@
    }
}

/// The values of a key's members that are text or times, each as JSON text.
#[derive(Debug)]
pub struct KeyMembers {
    pub id: String,
    pub name: String,
    pub description: String,
    pub key_type: String,
    pub algorithm: String,
    pub status: String,
    pub owner: String,
    pub created_at: String,
    pub updated_at: String,
    pub expiration_date: String,
    pub tags: String,
}

/// `KeyMembers` as plain values.
pub ghost struct KeyMembersView {
    pub id: Seq<char>,
    pub name: Seq<char>,
    pub description: Seq<char>,
    pub key_type: Seq<char>,
    pub algorithm: Seq<char>,
    pub status: Seq<char>,
    pub owner: Seq<char>,
    pub created_at: Seq<char>,
    pub updated_at: Seq<char>,
    pub expiration_date: Seq<char>,
    pub tags: Seq<char>,
}

impl View for KeyMembers {
    type V = KeyMembersView;

    open spec fn view(&self) -> KeyMembersView {
        KeyMembersView {
            id: self.id@,
            name: self.name@,
            description: self.description@,
            key_type: self.key_type@,
            algorithm: self.algorithm@,
            status: self.status@,
            owner: self.owner@,
            created_at: self.created_at@,
            updated_at: self.updated_at@,
            expiration_date: self.expiration_date@,
            tags: self.tags@,
        }
    }
}

/// A key as a JSON object with one member for each of its fields, in their
/// order, from the JSON texts of their values.
pub open spec fn framed_key(m: KeyMembersView, version: u32, requires_approval: bool) -> Seq<char> {
    "{\"id\":"@ + m.id + ",\"name\":"@ + m.name + ",\"description\":"@ + m.description
        + ",\"key_type\":"@ + m.key_type + ",\"algorithm\":"@ + m.algorithm + ",\"status\":"@
        + m.status + ",\"owner\":"@ + m.owner + ",\"created_at\":"@ + m.created_at
        + ",\"updated_at\":"@ + m.updated_at + ",\"expiration_date\":"@ + m.expiration_date
        + ",\"version\":"@ + decimal_digits(version as nat) + ",\"requires_approval\":"@ + json_bool(
        requires_approval,
    ) + ",\"tags\":"@ + m.tags + "}"@
}

/// The JSON texts of the key's members; `None` where one of its times
/// cannot be written.
pub open spec fn key_members(k: KeyMetadataView) -> Option<KeyMembersView> {
    if json_time(k.created_at).is_none() || json_time(k.updated_at).is_none() || json_optional_time(
        k.expiration_date,
    ).is_none() {
        None
    } else {
        Some(
            KeyMembersView {
                id: json_quoted(k.id),
                name: json_quoted(k.name),
                description: json_quoted(k.description),
                key_type: json_quoted(k.key_type.name()),
                algorithm: json_quoted(k.algorithm.name()),
                status: json_quoted(k.status.name()),
                owner: json_quoted(k.owner),
                created_at: json_time(k.created_at).unwrap(),
                updated_at: json_time(k.updated_at).unwrap(),
                expiration_date: json_optional_time(k.expiration_date).unwrap(),
                tags: json_object(k.tags),
            },
        )
    }
}

/// The key as JSON; `None` where one of its times cannot be written.
pub open spec fn key_json(k: KeyMetadataView) -> Option<Seq<char>> {
    match key_members(k) {
        Some(m) => Some(framed_key(m, k.version, k.requires_approval)),
        None => None,
    }
}

/// The keys as JSON, one text each; `None` where one of them cannot be
/// written.
pub open spec fn key_texts(keys: Seq<KeyMetadataView>) -> Option<Seq<Seq<char>>>
    decreases keys.len(),
{
    if keys.len() == 0 {
        Some(Seq::empty())
    } else {
        match (key_texts(keys.drop_last()), key_json(keys.last())) {
            (Some(front), Some(last)) => Some(front.push(last)),
            _ => None,
        }
    }
}

/// The keys as a JSON array; `None` where one of them cannot be written.
pub open spec fn keys_json(keys: Seq<KeyMetadataView>) -> Option<Seq<char>> {
    match key_texts(keys) {
        Some(texts) => Some(framed_array(texts)),
        None => None,
    }
}

/// The payload that stands for what could not be written: the empty text.
pub open spec fn payload(json: Option<Seq<char>>) -> Seq<char> {
    match json {
        Some(text) => text,
        None => Seq::empty(),
    }
}

/// The views of a sequence of pairs of strings.
pub open spec fn pair_views(pairs: Seq<(String, String)>) -> Seq<Pair> {
    pairs.map_values(|p: (String, String)| (p.0@, p.1@))
}

/// The texts with `separator` between them.
pub fn join(texts: &Vec<String>, separator: &str) -> (r: String)
    ensures
        r@ == joined(text_views(texts@), separator@),
{
    let mut out = String::new();
    let mut i: usize = 0;
    let ghost all = text_views(texts@);
    assert(all.take(0) =~= Seq::empty());
    while i < texts.len()
        invariant
            i <= texts@.len(),
            all == text_views(texts@),
            out@ == joined(all.take(i as int), separator@),
        decreases texts@.len() - i,
    {
        let ghost before = all.take(i as int);
        let ghost after = all.take(i + 1);
        proof {
            assert(after.drop_last() =~= before);
            assert(after.last() == texts@[i as int]@);
        }
        if i > 0 {
            out.append(separator);
        }
        out.append(texts[i].as_str());
        proof {
            if i == 0 {
                assert(joined(before, separator@) =~= Seq::<char>::empty());
                assert(out@ =~= texts@[i as int]@);
            }
        }
        i += 1;
    }
    assert(all.take(i as int) =~= all);
    out
}

/// Writes a JSON array of the elements given, each of which is JSON text
/// already.
pub fn frame_array(elements: &Vec<String>) -> (r: String)
    ensures
        r@ == framed_array(text_views(elements@)),
{
    let mut out = owned("[");
    out.append(join(elements, ",").as_str());
    out.append("]");
    out
}

/// Writes a JSON object of the members given, whose names and values are
/// JSON text already.
pub fn frame_object(members: &Vec<(String, String)>) -> (r: String)
    ensures
        r@ == framed_object(pair_views(members@)),
{
    let mut texts: Vec<String> = Vec::new();
    let mut i: usize = 0;
    while i < members.len()
        invariant
            i <= members@.len(),
            texts@.len() == i,
            forall|j: int|
                0 <= j < i ==> (#[trigger] texts@[j])@ == members@[j].0@ + ":"@ + members@[j].1@,
        decreases members@.len() - i,
    {
        let mut text = members[i].0.clone();
        text.append(":");
        text.append(members[i].1.as_str());
        texts.push(text);
        i += 1;
    }
    assert(text_views(texts@) =~= member_texts(pair_views(members@)));
    let mut out = owned("{");
    out.append(join(&texts, ",").as_str());
    out.append("}");
    out
}

/// Each key and each value of the map as a JSON string.
pub fn quote_pairs(pairs: &TextMap) -> (r: Vec<(String, String)>)
    ensures
        pair_views(r@) == quoted_pairs(pairs@),
{
    let mut out: Vec<(String, String)> = Vec::new();
    let mut i: usize = 0;
    while i < pairs.len()
        invariant
            i <= pairs@.len(),
            out@.len() == i,
            forall|j: int|
                0 <= j < i ==> (#[trigger] out@[j]).0@ == json_quoted(pairs@[j].0) && out@[j].1@
                    == json_quoted(pairs@[j].1),
        decreases pairs@.len() - i,
    {
        out.push((json_string(pairs.key_at(i).as_str()), json_string(pairs.value_at(i).as_str())));
        i += 1;
    }
    assert(pair_views(out@) =~= quoted_pairs(pairs@));
    out
}

/// Writes a map from text to text as a JSON object.
pub fn write_object(pairs: &TextMap) -> (r: String)
    ensures
        r@ == json_object(pairs@),
{
    frame_object(&quote_pairs(pairs))
}

/// Writes a key as a JSON object from the JSON texts of its members' values.
pub fn frame_key(members: &KeyMembers, version: u32, requires_approval: bool) -> (r: String)
    ensures
        r@ == framed_key(members@, version, requires_approval),
{
    let mut out = owned("{\"id\":");
    out.append(members.id.as_str());
    out.append(",\"name\":");
    out.append(members.name.as_str());
    out.append(",\"description\":");
    out.append(members.description.as_str());
    out.append(",\"key_type\":");
    out.append(members.key_type.as_str());
    out.append(",\"algorithm\":");
    out.append(members.algorithm.as_str());
    out.append(",\"status\":");
    out.append(members.status.as_str());
    out.append(",\"owner\":");
    out.append(members.owner.as_str());
    out.append(",\"created_at\":");
    out.append(members.created_at.as_str());
    out.append(",\"updated_at\":");
    out.append(members.updated_at.as_str());
    out.append(",\"expiration_date\":");
    out.append(members.expiration_date.as_str());
    out.append(",\"version\":");
    out.append(decimal_text(version as u64).as_str());
    out.append(",\"requires_approval\":");
    out.append(
        if requires_approval {
            "true"
        } else {
            "false"
        },
    );
    out.append(",\"tags\":");
    out.append(members.tags.as_str());
    out.append("}");
    out
}

/// Writes a point in time as a JSON string.
fn write_time(micros: i64) -> (r: Option<String>)
    ensures
        opt_text(r) == json_time(micros),
{
    match rfc3339(micros, true) {
        Some(text) => Some(json_string(text.as_str())),
        None => None,
    }
}

/// Writes an optional point in time as a JSON string or `null`.
fn write_optional_time(micros: Option<i64>) -> (r: Option<String>)
    ensures
        opt_text(r) == json_optional_time(micros),
{
    match micros {
        Some(t) => write_time(t),
        None => Some(owned("null")),
    }
}

/// Writes the key as a JSON object; `None` where one of its times is out
/// of the range that can be written.
pub fn write_key(key: &KeyMetadata) -> (r: Option<String>)
    ensures
        opt_text(r) == key_json(key@),
{
    let created_at = match write_time(key.created_at) {
        Some(t) => t,
        None => {
            return None;
        },
    };
    let updated_at = match write_time(key.updated_at) {
        Some(t) => t,
        None => {
            return None;
        },
    };
    let expiration_date = match write_optional_time(key.expiration_date) {
        Some(t) => t,
        None => {
            return None;
        },
    };
    let members = KeyMembers {
        id: json_string(key.id.as_str()),
        name: json_string(key.name.as_str()),
        description: json_string(key.description.as_str()),
        key_type: json_string(key.key_type.variant_name()),
        algorithm: json_string(key.algorithm.variant_name()),
        status: json_string(key.status.variant_name()),
        owner: json_string(key.owner.as_str()),
        created_at,
        updated_at,
        expiration_date,
        tags: write_object(&key.tags),
    };
    Some(frame_key(&members, key.version, key.requires_approval))
}

/// Writes the keys as a JSON array; `None` where one of them cannot be
/// written.
pub fn write_keys(keys: &Vec<KeyMetadata>) -> (r: Option<String>)
    ensures
        opt_text(r) == keys_json(key_views(keys@)),
{
    let mut texts: Vec<String> = Vec::new();
    let mut i: usize = 0;
    let ghost all = key_views(keys@);
    assert(all.take(0) =~= Seq::empty());
    assert(text_views(texts@) =~= Seq::empty());
    while i < keys.len()
        invariant
            i <= keys@.len(),
            all == key_views(keys@),
            key_texts(all.take(i as int)) == Some(text_views(texts@)),
        decreases keys@.len() - i,
    {
        let ghost before = all.take(i as int);
        let ghost after = all.take(i + 1);
        let ghost written = text_views(texts@);
        proof {
            assert(after.drop_last() =~= before);
            assert(after.last() == keys@[i as int]@);
        }
        match write_key(&keys[i]) {
            Some(text) => {
                texts.push(text);
                assert(text_views(texts@) =~= written.push(text@));
            },
            None => {
                proof {
                    lemma_unwritable_key(all, i as int);
                }
                return None;
            },
        }
        i += 1;
    }
    assert(all.take(i as int) =~= all);
    Some(frame_array(&texts))
}

/// Where one key cannot be written, the keys cannot be written.
pub proof fn lemma_unwritable_key(keys: Seq<KeyMetadataView>, at: int)
    requires
        0 <= at < keys.len(),
        key_json(keys[at]).is_none(),
    ensures
        key_texts(keys).is_none(),
    decreases keys.len(),
{
    if at < keys.len() - 1 {
        assert(keys.drop_last()[at] == keys[at]);
        lemma_unwritable_key(keys.drop_last(), at);
    }
}

} // verus!
