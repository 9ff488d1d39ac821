//! A JSON value model: what the library reads from the CLI's output and what
//! it builds for its own answers.
use vstd::prelude::*;

verus! {

/// A JSON value. Object members keep the order in which they were built.
#[derive(Debug)]
pub enum Json {
    Null,
    Bool(bool),
    /// An integer that fits in `i64`.
    Int(i64),
    /// Any other number, in its JSON text.
    Number(String),
    Str(String),
    Array(Vec<Json>),
    Object(Vec<(String, Json)>),
}

/// The mathematical value of a [`Json`].
pub enum JsonV {
    Null,
    Bool(bool),
    Int(int),
    Number(Seq<char>),
    Str(Seq<char>),
    Array(Seq<JsonV>),
    Object(Seq<(Seq<char>, JsonV)>),
}

impl View for Json {
    type V = JsonV;

    open spec fn view(&self) -> JsonV {
        json_view(*self)
    }
}

/// The mathematical value of a JSON value.
pub open spec fn json_view(j: Json) -> JsonV
    decreases j,
{
    match j {
        Json::Null => JsonV::Null,
        Json::Bool(b) => JsonV::Bool(b),
        Json::Int(i) => JsonV::Int(i as int),
        Json::Number(t) => JsonV::Number(t@),
        Json::Str(s) => JsonV::Str(s@),
        Json::Array(items) => JsonV::Array(items_view(items@)),
        Json::Object(members) => JsonV::Object(members_view(members@)),
    }
}

/// The values of a sequence of array items.
pub open spec fn items_view(items: Seq<Json>) -> Seq<JsonV>
    decreases items,
{
    if items.len() == 0 {
        Seq::empty()
    } else {
        seq![json_view(items[0])] + items_view(items.subrange(1, items.len() as int))
    }
}

/// The names and values of a sequence of object members.
pub open spec fn members_view(members: Seq<(String, Json)>) -> Seq<(Seq<char>, JsonV)>
    decreases members,
{
    if members.len() == 0 {
        Seq::empty()
    } else {
        seq![(members[0].0@, json_view(members[0].1))] + members_view(
            members.subrange(1, members.len() as int),
        )
    }
}

/// The value of the first member named `key`, when `v` is an object that has one.
pub open spec fn json_get(v: JsonV, key: Seq<char>) -> Option<JsonV> {
    match v {
        JsonV::Object(members) => member_lookup(members, key),
        _ => None,
    }
}

/// The value of the first of `members` named `key`.
pub open spec fn member_lookup(members: Seq<(Seq<char>, JsonV)>, key: Seq<char>) -> Option<JsonV>
    decreases members.len(),
{
    if members.len() == 0 {
        None
    } else if members[0].0 == key {
        Some(members[0].1)
    } else {
        member_lookup(members.drop_first(), key)
    }
}

/// The boolean `v` holds, if it is one.
pub open spec fn json_bool(v: JsonV) -> Option<bool> {
    match v {
        JsonV::Bool(b) => Some(b),
        _ => None,
    }
}

/// The string `v` holds, if it is one.
pub open spec fn json_str(v: JsonV) -> Option<Seq<char>> {
    match v {
        JsonV::Str(s) => Some(s),
        _ => None,
    }
}

/// Member `i` of a members view is the view of member `i`.
pub proof fn lemma_members_view_index(members: Seq<(String, Json)>)
    ensures
        members_view(members).len() == members.len(),
        forall|i: int|
            0 <= i < members.len() ==> #[trigger] members_view(members)[i] == (
                members[i].0@,
                json_view(members[i].1),
            ),
    decreases members.len(),
{
    if members.len() > 0 {
        let rest = members.subrange(1, members.len() as int);
        lemma_members_view_index(rest);
        assert forall|i: int| 0 <= i < members.len() implies #[trigger] members_view(members)[i]
            == (members[i].0@, json_view(members[i].1)) by {
            if i > 0 {
                assert(rest[i - 1] == members[i]);
            }
        }
    }
}

/// Looks up the member `key` of an object (like `serde_json::Value::get`).
pub fn get<'a>(v: &'a Json, key: &str) -> (res: Option<&'a Json>)
    ensures
        res matches Some(r) ==> json_get(v@, key@) == Some(r@),
        res is None ==> json_get(v@, key@) is None,
{
    match v {
        Json::Object(members) => {
            let ghost ms = members_view(members@);
            proof {
                lemma_members_view_index(members@);
                assert(v@ == JsonV::Object(ms));
                assert(ms.subrange(0, ms.len() as int) =~= ms);
            }
            let k = String::from_str(key);
            let mut i: usize = 0;
            while i < members.len()
                invariant
                    i <= members@.len(),
                    ms == members_view(members@),
                    ms.len() == members@.len(),
                    forall|j: int|
                        0 <= j < members@.len() ==> #[trigger] ms[j] == (
                            members@[j].0@,
                            json_view(members@[j].1),
                        ),
                    json_get(v@, key@) == member_lookup(ms.subrange(i as int, ms.len() as int), key@),
                    k@ == key@,
                decreases members.len() - i,
            {
                let ghost rest = ms.subrange(i as int, ms.len() as int);
                assert(rest[0] == ms[i as int]);
                if members[i].0 == k {
                    return Some(&members[i].1);
                }
                assert(rest.drop_first() =~= ms.subrange(i + 1, ms.len() as int));
                i = i + 1;
            }
            None
        },
        _ => None,
    }
}

/// The boolean a value holds, if it is one (like `serde_json::Value::as_bool`).
pub fn as_bool(v: &Json) -> (res: Option<bool>)
    ensures
        res == json_bool(v@),
{
    match v {
        Json::Bool(b) => Some(*b),
        _ => None,
    }
}

/// The string a value holds, if it is one (like `serde_json::Value::as_str`).
pub fn as_str(v: &Json) -> (res: Option<&String>)
    ensures
        res matches Some(s) ==> json_str(v@) == Some(s@),
        res is None ==> json_str(v@) is None,
{
    match v {
        Json::Str(s) => Some(s),
        _ => None,
    }
}

/// A JSON string holding the text of a literal.
pub fn json_text(s: &str) -> (res: Json)
    ensures
        res@ == JsonV::Str(s@),
{
    Json::Str(String::from_str(s))
}

} // verus!
