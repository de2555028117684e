//! JSON documents as plain values, read and written by `serde_json`.

use crate::text::same_text;
use vstd::prelude::*;

verus! {

/// The tree that `serde_json` builds for a document.
#[verifier::external_type_specification]
#[verifier::external_body]
pub struct ExValue(serde_json::Value);

/// A number as `serde_json` holds it.
#[verifier::external_type_specification]
#[verifier::external_body]
pub struct ExNumber(serde_json::Number);

/// A JSON number that is not an integer of 64 bits.
///
/// Only reading a document makes one. Its value is kept, not the way it was written.
#[derive(Debug, PartialEq)]
pub struct Real {
    number: serde_json::Number,
}

/// A JSON document.
///
/// Where an object lists a key more than once, its last entry counts.
#[derive(Debug, PartialEq)]
pub enum Json {
    Null,
    Bool(bool),
    Unsigned(u64),
    Signed(i64),
    Real(Real),
    Text(String),
    Array(Vec<Json>),
    Object(Vec<(String, Json)>),
}

/// What a JSON document says: integers are numbers, and the members of an object have no order.
pub enum JsonView {
    Null,
    Bool(bool),
    Integer(int),
    Real(Real),
    Text(Seq<char>),
    Array(Seq<JsonView>),
    Object(Map<Seq<char>, JsonView>),
}

/// What a document says.
pub open spec fn json_view(j: Json) -> JsonView
    decreases j,
{
    match j {
        Json::Null => JsonView::Null,
        Json::Bool(b) => JsonView::Bool(b),
        Json::Unsigned(n) => JsonView::Integer(n as int),
        Json::Signed(n) => JsonView::Integer(n as int),
        Json::Real(r) => JsonView::Real(r),
        Json::Text(s) => JsonView::Text(s@),
        Json::Array(items) => JsonView::Array(items_view(items@)),
        Json::Object(entries) => JsonView::Object(members_view(entries@)),
    }
}

/// What the items of an array say, in order.
pub open spec fn items_view(items: Seq<Json>) -> Seq<JsonView>
    decreases items,
{
    if items.len() == 0 {
        Seq::empty()
    } else {
        items_view(items.drop_last()).push(json_view(items.last()))
    }
}

/// What the entries of an object say: the last entry of a key counts.
pub open spec fn members_view(entries: Seq<(String, Json)>) -> Map<Seq<char>, JsonView>
    decreases entries,
{
    if entries.len() == 0 {
        Map::empty()
    } else {
        members_view(entries.drop_last()).insert(entries.last().0@, json_view(entries.last().1))
    }
}

impl View for Json {
    type V = JsonView;

    open spec fn view(&self) -> JsonView {
        json_view(*self)
    }
}

/// The deepest nesting that a document may have to be read.
pub open spec fn max_depth() -> nat {
    127
}

/// Whether arrays and objects nest at most `depth` deep in `v`, and objects are finite.
pub open spec fn nested_within(v: JsonView, depth: nat) -> bool
    decreases v,
{
    match v {
        JsonView::Array(items) => depth > 0 && forall|i: int|
            0 <= i < items.len() ==> nested_within(#[trigger] items[i], (depth - 1) as nat),
        JsonView::Object(members) => depth > 0 && members.dom().finite() && forall|k: Seq<char>|
            #[trigger] members.dom().contains(k) ==> nested_within(members[k], (depth - 1) as nat),
        _ => true,
    }
}

/// Whether arrays and objects nest at most `depth` deep in the document as it is built: an entry
/// that a later one of the same key replaces counts too.
pub open spec fn built_within(j: Json, depth: nat) -> bool
    decreases j,
{
    match j {
        Json::Array(items) => depth > 0 && forall|i: int|
            0 <= i < items@.len() ==> built_within(#[trigger] items@[i], (depth - 1) as nat),
        Json::Object(entries) => depth > 0 && forall|i: int|
            0 <= i < entries@.len() ==> built_within(
                (#[trigger] entries@[i]).1,
                (depth - 1) as nat,
            ),
        _ => true,
    }
}

/// Whether the entries of an object nest at most `depth` deep as they are built.
pub open spec fn entries_within(entries: Seq<(String, Json)>, depth: nat) -> bool {
    forall|i: int| 0 <= i < entries.len() ==> built_within((#[trigger] entries[i]).1, depth)
}

/// Whether every number in `v` is an integer of 64 bits.
pub open spec fn without_reals(v: JsonView) -> bool
    decreases v,
{
    match v {
        JsonView::Real(_) => false,
        JsonView::Array(items) => forall|i: int|
            0 <= i < items.len() ==> without_reals(#[trigger] items[i]),
        JsonView::Object(members) => members.dom().finite() && forall|k: Seq<char>|
            #[trigger] members.dom().contains(k) ==> without_reals(members[k]),
        _ => true,
    }
}

/// Whether `v` and `w` say the same up to the values of their real numbers.
pub open spec fn same_but_reals(v: JsonView, w: JsonView) -> bool
    decreases v,
{
    match (v, w) {
        (JsonView::Real(_), JsonView::Real(_)) => true,
        (JsonView::Array(a), JsonView::Array(b)) => a.len() == b.len() && forall|i: int|
            0 <= i < a.len() ==> same_but_reals(#[trigger] a[i], b[i]),
        (JsonView::Object(m), JsonView::Object(n)) => m.dom() == n.dom() && m.dom().finite()
            && forall|k: Seq<char>|
            #[trigger] m.dom().contains(k) ==> same_but_reals(m[k], n[k]),
        _ => v == w,
    }
}

/// Whether `text` reads as `v`. Where `v` holds a real number, what is read is the same up to the
/// values of the real numbers.
pub open spec fn reads_as(text: Seq<char>, v: JsonView) -> bool {
    &&& json_of_text(text) is Some
    &&& same_but_reals(v, json_of_text(text)->0)
    &&& without_reals(v) ==> json_of_text(text) == Some(v)
}

/// The member of an object under `key`.
pub open spec fn member(v: JsonView, key: Seq<char>) -> Option<JsonView> {
    match v {
        JsonView::Object(members) => if members.dom().contains(key) {
            Some(members[key])
        } else {
            None
        },
        _ => None,
    }
}

/// The text of the member of an object under `key`.
pub open spec fn text_member(v: JsonView, key: Seq<char>) -> Option<Seq<char>> {
    match member(v, key) {
        Some(JsonView::Text(s)) => Some(s),
        _ => None,
    }
}

/// The value of the member of an object under `key`, where it is an integer that `u64` can hold.
pub open spec fn unsigned_member(v: JsonView, key: Seq<char>) -> Option<u64> {
    match member(v, key) {
        Some(JsonView::Integer(n)) => if 0 <= n <= u64::MAX {
            Some(n as u64)
        } else {
            None
        },
        _ => None,
    }
}

impl Json {
    /// The member of an object under `key`.
    pub fn get(&self, key: &str) -> (r: Option<&Json>)
        ensures
            match r {
                Some(j) => member(self@, key@) == Some(j@),
                None => member(self@, key@) is None,
            },
    {
        match self {
            Json::Object(entries) => {
                let ghost all = members_view(entries@);
                let mut i: usize = entries.len();
                assert(entries@.take(i as int) =~= entries@);
                while i > 0
                    invariant
                        i <= entries.len(),
                        all == members_view(entries@),
                        self@ == JsonView::Object(all),
                        all.dom().contains(key@) == members_view(
                            entries@.take(i as int),
                        ).dom().contains(key@),
                        all.dom().contains(key@) ==> all[key@] == members_view(
                            entries@.take(i as int),
                        )[key@],
                    decreases i,
                {
                    i = i - 1;
                    proof {
                        let now = entries@.take(i + 1);
                        assert(now.drop_last() =~= entries@.take(i as int));
                        assert(now.last() == entries@[i as int]);
                    }
                    if same_text(entries[i].0.as_str(), key) {
                        return Some(&entries[i].1);
                    }
                }
                assert(entries@.take(0) =~= Seq::empty());
                None
            },
            _ => None,
        }
    }

    /// The text of the member of an object under `key`.
    pub fn text_at(&self, key: &str) -> (r: Option<&str>)
        ensures
            match r {
                Some(s) => text_member(self@, key@) == Some(s@),
                None => text_member(self@, key@) is None,
            },
    {
        match self.get(key) {
            Some(Json::Text(s)) => Some(s.as_str()),
            _ => None,
        }
    }

    /// The value of the member of an object under `key`, where it is an integer that `u64` can hold.
    pub fn unsigned_at(&self, key: &str) -> (r: Option<u64>)
        ensures
            r == unsigned_member(self@, key@),
    {
        match self.get(key) {
            Some(Json::Unsigned(n)) => Some(*n),
            Some(Json::Signed(n)) => if *n >= 0 {
                Some(*n as u64)
            } else {
                None
            },
            _ => None,
        }
    }
}

/// Puts a member at the end of the entries of an object.
pub fn put(entries: &mut Vec<(String, Json)>, key: &str, value: Json)
    ensures
        members_view(final(entries)@) == members_view(old(entries)@).insert(key@, value@),
        forall|depth: nat|
            entries_within(old(entries)@, depth) && built_within(value, depth)
                ==> #[trigger] entries_within(final(entries)@, depth),
{
    let ghost before = entries@;
    entries.push((key.to_string(), value));
    assert(entries@.drop_last() =~= before);
}

/// A JSON text.
pub fn text(s: &str) -> (j: Json)
    ensures
        j@ == JsonView::Text(s@),
{
    Json::Text(s.to_string())
}

proof fn lemma_items_view(items: Seq<Json>)
    ensures
        items_view(items).len() == items.len(),
        forall|i: int|
            0 <= i < items.len() ==> #[trigger] items_view(items)[i] == json_view(items[i]),
    decreases items.len(),
{
    if items.len() > 0 {
        lemma_items_view(items.drop_last());
    }
}

proof fn lemma_members_view(entries: Seq<(String, Json)>, depth: nat)
    requires
        forall|i: int|
            0 <= i < entries.len() ==> nested_within(json_view((#[trigger] entries[i]).1), depth),
    ensures
        members_view(entries).dom().finite(),
        forall|k: Seq<char>|
            members_view(entries).dom().contains(k) ==> nested_within(
                #[trigger] members_view(entries)[k],
                depth,
            ),
    decreases entries.len(),
{
    if entries.len() > 0 {
        let front = entries.drop_last();
        assert forall|i: int| 0 <= i < front.len() implies nested_within(
            json_view((#[trigger] front[i]).1),
            depth,
        ) by {
            assert(front[i] == entries[i]);
        }
        lemma_members_view(front, depth);
        assert(entries.last() == entries[entries.len() - 1]);
    }
}

/// What a document says nests no deeper than the document as it is built.
pub proof fn lemma_built_within(j: Json, depth: nat)
    requires
        built_within(j, depth),
    ensures
        nested_within(j@, depth),
    decreases j,
{
    match j {
        Json::Array(items) => {
            lemma_items_view(items@);
            assert forall|i: int| 0 <= i < items_view(items@).len() implies nested_within(
                #[trigger] items_view(items@)[i],
                (depth - 1) as nat,
            ) by {
                lemma_built_within(items@[i], (depth - 1) as nat);
            }
        },
        Json::Object(entries) => {
            assert forall|i: int| 0 <= i < entries@.len() implies nested_within(
                json_view((#[trigger] entries@[i]).1),
                (depth - 1) as nat,
            ) by {
                lemma_built_within(entries@[i].1, (depth - 1) as nat);
            }
            lemma_members_view(entries@, (depth - 1) as nat);
        },
        _ => {},
    }
}

/// What a tree of `serde_json` says.
pub uninterp spec fn json_content(v: serde_json::Value) -> JsonView;

/// What `serde_json::from_str` reads from a text, if the text is a JSON document.
pub uninterp spec fn json_of_text(text: Seq<char>) -> Option<JsonView>;

/// What `serde_json::from_slice` reads from bytes, if they are a JSON document.
pub uninterp spec fn json_of_bytes(bytes: Seq<u8>) -> Option<JsonView>;

/// The text that `serde_json` writes for a document, without spaces between its parts.
pub uninterp spec fn compact_text(v: JsonView) -> Seq<char>;

/// The text that `serde_json` writes for a document, with one part to a line.
pub uninterp spec fn pretty_text(v: JsonView) -> Seq<char>;

/// Calls `serde_json::from_str` for a `Value`.
///
/// Claimed: what comes back depends on the text alone, and nothing that nests deeper than the
/// reader's recursion limit comes back. Nothing is said of which texts are documents.
#[verifier::external_body]
fn value_from_str(text: &str) -> (r: Option<serde_json::Value>)
    ensures
        match r {
            Some(v) => json_of_text(text@) == Some(json_content(v)) && nested_within(
                json_content(v),
                max_depth(),
            ),
            None => json_of_text(text@) is None,
        },
{
    serde_json::from_str::<serde_json::Value>(text).ok()
}

/// Calls `serde_json::from_slice` for a `Value`.
///
/// Claimed: what comes back depends on the bytes alone, and nothing that nests deeper than the
/// reader's recursion limit comes back. Nothing is said of which bytes are documents.
#[verifier::external_body]
fn value_from_slice(bytes: &[u8]) -> (r: Option<serde_json::Value>)
    ensures
        match r {
            Some(v) => json_of_bytes(bytes@) == Some(json_content(v)) && nested_within(
                json_content(v),
                max_depth(),
            ),
            None => json_of_bytes(bytes@) is None,
        },
{
    serde_json::from_slice::<serde_json::Value>(bytes).ok()
}

/// Takes a `serde_json::Value` apart, variant by variant, by `Number::as_u64` and
/// `Number::as_i64` where it is a number.
///
/// Claimed: the document says what the tree says. A `serde_json::Map` holds a key once, so the
/// document holds nothing besides, and it nests as deep as the tree.
#[verifier::external_body]
fn json_from_value(v: serde_json::Value) -> (j: Json)
    requires
        nested_within(json_content(v), max_depth()),
    ensures
        j@ == json_content(v),
        built_within(j, max_depth()),
{
    match v {
        serde_json::Value::Null => Json::Null,
        serde_json::Value::Bool(b) => Json::Bool(b),
        serde_json::Value::Number(n) => match (n.as_u64(), n.as_i64()) {
            (Some(u), _) => Json::Unsigned(u),
            (None, Some(i)) => Json::Signed(i),
            (None, None) => Json::Real(Real { number: n }),
        },
        serde_json::Value::String(s) => Json::Text(s),
        serde_json::Value::Array(a) => Json::Array(a.into_iter().map(json_from_value).collect()),
        serde_json::Value::Object(m) => Json::Object(
            m.into_iter().map(|(k, v)| (k, json_from_value(v))).collect(),
        ),
    }
}

/// Puts a `serde_json::Value` together, variant by variant; the members of an object go one by
/// one into a `serde_json::Map`, whose `insert` replaces what stands under the key.
///
/// Claimed: the tree says what the document says. It is put together level by level, every entry
/// of an object included, so the document must not nest deeper than the limit as it is built.
#[verifier::external_body]
fn json_to_value(j: Json) -> (v: serde_json::Value)
    requires
        built_within(j, max_depth()),
    ensures
        json_content(v) == j@,
{
    match j {
        Json::Null => serde_json::Value::Null,
        Json::Bool(b) => serde_json::Value::Bool(b),
        Json::Unsigned(u) => serde_json::Value::Number(u.into()),
        Json::Signed(i) => serde_json::Value::Number(i.into()),
        Json::Real(r) => serde_json::Value::Number(r.number),
        Json::Text(s) => serde_json::Value::String(s),
        Json::Array(a) => serde_json::Value::Array(a.into_iter().map(json_to_value).collect()),
        Json::Object(m) => serde_json::Value::Object(
            m.into_iter().fold(serde_json::Map::new(), |mut o, (k, v)| {
                o.insert(k, json_to_value(v));
                o
            }),
        ),
    }
}

/// Calls `to_string` on a `serde_json::Value`.
///
/// Claimed: the text depends on what the tree says alone, since a `serde_json::Map` keeps its
/// members in the order of their keys, and reading it gives the tree's content back. A real number
/// is written with the fewest digits that tell it apart, always with a point or an exponent;
/// reading these gives a real number again and does not leave the range, but may change the last
/// digit. So nothing is said of the values of real numbers.
#[verifier::external_body]
fn value_to_string(v: &serde_json::Value) -> (s: String)
    requires
        nested_within(json_content(*v), max_depth()),
    ensures
        s@ == compact_text(json_content(*v)),
        json_of_text(s@) is Some,
        same_but_reals(json_content(*v), json_of_text(s@)->0),
        without_reals(json_content(*v)) ==> json_of_text(s@) == Some(json_content(*v)),
{
    v.to_string()
}

/// Calls `serde_json::to_string_pretty` on a `Value`.
///
/// Claimed: writing a tree into a string does not fail, the text depends on what the tree says
/// alone, since a `serde_json::Map` keeps its members in the order of their keys, and reading it
/// gives the tree's content back. Real numbers are written and read as by `to_string`, and nothing
/// is said of their values.
#[verifier::external_body]
fn value_to_string_pretty(v: &serde_json::Value) -> (r: Option<String>)
    requires
        nested_within(json_content(*v), max_depth()),
    ensures
        r is Some,
        r->0@ == pretty_text(json_content(*v)),
        json_of_text(r->0@) is Some,
        same_but_reals(json_content(*v), json_of_text(r->0@)->0),
        without_reals(json_content(*v)) ==> json_of_text(r->0@) == Some(json_content(*v)),
{
    serde_json::to_string_pretty(v).ok()
}

/// The document that `text` is, if it is one.
pub fn parse(text: &str) -> (r: Option<Json>)
    ensures
        match r {
            Some(j) => json_of_text(text@) == Some(j@) && built_within(j, max_depth()),
            None => json_of_text(text@) is None,
        },
{
    match value_from_str(text) {
        Some(v) => Some(json_from_value(v)),
        None => None,
    }
}

/// The document that `bytes` are, if they are one.
pub fn parse_bytes(bytes: &[u8]) -> (r: Option<Json>)
    ensures
        match r {
            Some(j) => json_of_bytes(bytes@) == Some(j@) && built_within(j, max_depth()),
            None => json_of_bytes(bytes@) is None,
        },
{
    match value_from_slice(bytes) {
        Some(v) => Some(json_from_value(v)),
        None => None,
    }
}

/// The text of a document, without spaces between its parts.
pub fn compact(j: Json) -> (s: String)
    requires
        built_within(j, max_depth()),
    ensures
        s@ == compact_text(j@),
        reads_as(s@, j@),
{
    proof {
        lemma_built_within(j, max_depth());
    }
    let v = json_to_value(j);
    value_to_string(&v)
}

/// The text of a document, with one part to a line.
pub fn pretty(j: Json) -> (s: String)
    requires
        built_within(j, max_depth()),
    ensures
        s@ == pretty_text(j@),
        reads_as(s@, j@),
{
    proof {
        lemma_built_within(j, max_depth());
    }
    let v = json_to_value(j);
    value_to_string_pretty(&v).unwrap()
}

proof fn lemma_last_entry_counts(entries: Seq<(String, Json)>, key: Seq<char>, i: int)
    requires
        0 <= i < entries.len(),
        entries[i].0@ == key,
        forall|j: int| i < j < entries.len() ==> (#[trigger] entries[j]).0@ != key,
    ensures
        members_view(entries).dom().contains(key),
        members_view(entries)[key] == json_view(entries[i].1),
    decreases entries.len(),
{
    if i < entries.len() - 1 {
        let front = entries.drop_last();
        assert(entries[entries.len() - 1].0@ != key);
        assert(front[i] == entries[i]);
        lemma_last_entry_counts(front, key, i);
    }
}

proof fn lemma_no_entry(entries: Seq<(String, Json)>, key: Seq<char>)
    requires
        forall|j: int| 0 <= j < entries.len() ==> (#[trigger] entries[j]).0@ != key,
    ensures
        !members_view(entries).dom().contains(key),
    decreases entries.len(),
{
    if entries.len() > 0 {
        assert(entries[entries.len() - 1].0@ != key);
        let front = entries.drop_last();
        assert forall|j: int| 0 <= j < front.len() implies (#[trigger] front[j]).0@ != key by {
            assert(front[j] == entries[j]);
        }
        lemma_no_entry(front, key);
    }
}

/// Of an object the last entry under a key is found, whatever its other entries; its text is found
/// where it is a text, and its value where it is an integer that `u64` can hold, and only there.
pub proof fn law_last_entry_is_found(
    entries: Vec<(String, Json)>,
    key: &str,
    i: int,
    found: Option<&Json>,
    text_found: Option<&str>,
    number_found: Option<u64>,
)
    requires
        0 <= i < entries@.len(),
        entries@[i].0@ == key@,
        forall|j: int| i < j < entries@.len() ==> (#[trigger] entries@[j]).0@ != key@,
        call_ensures(Json::get, (&Json::Object(entries), key), found),
        call_ensures(Json::text_at, (&Json::Object(entries), key), text_found),
        call_ensures(Json::unsigned_at, (&Json::Object(entries), key), number_found),
    ensures
        found is Some && found->0@ == entries@[i].1@,
        match entries@[i].1 {
            Json::Text(t) => text_found is Some && text_found->0@ == t@ && number_found is None,
            Json::Unsigned(n) => text_found is None && number_found == Some(n),
            Json::Signed(n) => text_found is None && (n >= 0 ==> number_found == Some(n as u64)) && (
            n < 0 ==> number_found is None),
            _ => text_found is None && number_found is None,
        },
{
    lemma_last_entry_counts(entries@, key@, i);
}

/// Under a key that no entry of an object has nothing is found.
pub proof fn law_missing_entry_is_not_found(
    entries: Vec<(String, Json)>,
    key: &str,
    found: Option<&Json>,
    text_found: Option<&str>,
    number_found: Option<u64>,
)
    requires
        forall|j: int| 0 <= j < entries@.len() ==> (#[trigger] entries@[j]).0@ != key@,
        call_ensures(Json::get, (&Json::Object(entries), key), found),
        call_ensures(Json::text_at, (&Json::Object(entries), key), text_found),
        call_ensures(Json::unsigned_at, (&Json::Object(entries), key), number_found),
    ensures
        found is None && text_found is None && number_found is None,
{
    lemma_no_entry(entries@, key@);
}

/// In a document that is no object nothing is found.
pub proof fn law_only_objects_have_members(
    j: Json,
    key: &str,
    found: Option<&Json>,
    text_found: Option<&str>,
    number_found: Option<u64>,
)
    requires
        !(j is Object),
        call_ensures(Json::get, (&j, key), found),
        call_ensures(Json::text_at, (&j, key), text_found),
        call_ensures(Json::unsigned_at, (&j, key), number_found),
    ensures
        found is None && text_found is None && number_found is None,
{
}

/// What a document says: a scalar says itself, an array what its items say in order, and an object
/// under each key what the last entry of the key says.
pub proof fn law_documents_say_what_they_hold(
    items: Vec<Json>,
    entries: Vec<(String, Json)>,
    i: int,
    b: bool,
    u: u64,
    s: i64,
    t: String,
)
    ensures
        Json::Null@ == JsonView::Null,
        Json::Bool(b)@ == JsonView::Bool(b),
        Json::Unsigned(u)@ == JsonView::Integer(u as int),
        Json::Signed(s)@ == JsonView::Integer(s as int),
        Json::Text(t)@ == JsonView::Text(t@),
        Json::Array(items)@ matches JsonView::Array(a) && a.len() == items@.len() && (0 <= i
            < items@.len() ==> a[i] == items@[i]@),
        0 <= i < entries@.len() && (forall|j: int|
            i < j < entries@.len() ==> (#[trigger] entries@[j]).0@ != entries@[i].0@) ==> (
        Json::Object(entries)@ matches JsonView::Object(m) && m.contains_pair(
            entries@[i].0@,
            entries@[i].1@,
        )),
{
    lemma_items_view(items@);
    if 0 <= i < entries@.len() && (forall|j: int|
        i < j < entries@.len() ==> (#[trigger] entries@[j]).0@ != entries@[i].0@) {
        lemma_last_entry_counts(entries@, entries@[i].0@, i);
    }
}

/// What is written can be read, and without real numbers it is read as exactly the same document.
pub proof fn law_written_documents_are_read(
    j: Json,
    short: String,
    long: String,
    short_text: &str,
    long_text: &str,
    from_short: Option<Json>,
    from_long: Option<Json>,
)
    requires
        built_within(j, max_depth()),
        call_ensures(compact, (j,), short),
        call_ensures(pretty, (j,), long),
        short_text@ == short@,
        long_text@ == long@,
        call_ensures(parse, (short_text,), from_short),
        call_ensures(parse, (long_text,), from_long),
    ensures
        from_short is Some && from_long is Some,
        without_reals(j@) ==> from_short->0@ == j@ && from_long->0@ == j@,
{
}

/// Reading gives what a text or bytes say, wherever they are a document, and nothing elsewhere.
pub proof fn law_documents_are_read(
    text: &str,
    bytes: &[u8],
    from_text: Option<Json>,
    from_bytes: Option<Json>,
)
    requires
        call_ensures(parse, (text,), from_text),
        call_ensures(parse_bytes, (bytes,), from_bytes),
    ensures
        from_text is Some <==> json_of_text(text@) is Some,
        from_text matches Some(j) ==> json_of_text(text@) == Some(j@),
        from_bytes is Some <==> json_of_bytes(bytes@) is Some,
        from_bytes matches Some(j) ==> json_of_bytes(bytes@) == Some(j@),
{
}

/// A text becomes a JSON text as it is.
pub proof fn law_text_is_kept(s: &str, j: Json)
    requires
        call_ensures(text, (s,), j),
    ensures
        j matches Json::Text(t) && t@ == s@,
{
}

} // verus!
