//! JSON values, and what the rules read from a JSON text by way of `serde_json`.
use vstd::prelude::*;

use crate::text::{opt_text, same_text};

verus! {

/// Whether `serde_json` reads the text as one JSON value.
pub uninterp spec fn json_valid(text: Seq<char>) -> bool;

/// The string that the top-level object of a JSON text holds under a key.
pub uninterp spec fn json_string_member(text: Seq<char>, key: Seq<char>) -> Option<Seq<char>>;

/// `serde_json::from_str::<serde_json::Value>`: whether it accepts the text, which
/// depends on the text alone.
#[verifier::external_body]
pub(crate) fn is_json(text: &str) -> (r: bool)
    ensures
        r == json_valid(text@),
{
    serde_json::from_str::<serde_json::Value>(text).is_ok()
}

/// `serde_json::Value::get` with a key, then `serde_json::Value::as_str`, on the
/// value of a JSON text: a string only where the text is an object with a string
/// under that key, and then always the same one.
#[verifier::external_body]
pub(crate) fn string_member(text: &str, key: &str) -> (r: Option<String>)
    ensures
        opt_text(r) == json_string_member(text@, key@),
        r is Some ==> json_valid(text@),
{
    let value: serde_json::Value = serde_json::from_str(text).ok()?;
    value.get(key)?.as_str().map(|found| found.to_string())
}

/// A JSON value.
#[derive(Debug)]
pub enum Json {
    Null,
    Bool(bool),
    /// An integer that is not negative.
    Uint(u64),
    /// A negative integer.
    Int(i64),
    /// Any other number, in its written form.
    Float(String),
    Str(String),
    Array(Vec<Json>),
    /// The members of an object, each key once.
    Object(Vec<(String, Json)>),
}

/// The contents of a [`Json`] value.
pub enum JsonValue {
    Null,
    Bool(bool),
    Uint(u64),
    Int(i64),
    Float(Seq<char>),
    Str(Seq<char>),
    Array(Seq<JsonValue>),
    Object(Seq<(Seq<char>, JsonValue)>),
}

impl View for Json {
    type V = JsonValue;

    open spec fn view(&self) -> JsonValue {
        json_value(*self)
    }
}

/// The contents of a JSON value.
pub open spec fn json_value(j: Json) -> JsonValue
    decreases j,
{
    match j {
        Json::Null => JsonValue::Null,
        Json::Bool(b) => JsonValue::Bool(b),
        Json::Uint(n) => JsonValue::Uint(n),
        Json::Int(n) => JsonValue::Int(n),
        Json::Float(text) => JsonValue::Float(text@),
        Json::Str(text) => JsonValue::Str(text@),
        Json::Array(items) => JsonValue::Array(
            Seq::new(
                items@.len(),
                |i: int|
                    if 0 <= i < items@.len() {
                        json_value(items[i])
                    } else {
                        JsonValue::Null
                    },
            ),
        ),
        Json::Object(members) => JsonValue::Object(
            Seq::new(
                members@.len(),
                |i: int|
                    if 0 <= i < members@.len() {
                        (members[i].0@, json_value(members[i].1))
                    } else {
                        (Seq::empty(), JsonValue::Null)
                    },
            ),
        ),
    }
}

/// The contents of the members of an object.
pub open spec fn member_values(members: Seq<(String, Json)>) -> Seq<(Seq<char>, JsonValue)> {
    Seq::new(members.len(), |i: int| (members[i].0@, members[i].1@))
}

/// The contents of the items of an array.
pub open spec fn item_values(items: Seq<Json>) -> Seq<JsonValue> {
    Seq::new(items.len(), |i: int| items[i]@)
}

pub proof fn lemma_object_view(members: Vec<(String, Json)>)
    ensures
        Json::Object(members)@ == JsonValue::Object(member_values(members@)),
{
    assert(Json::Object(members)@->Object_0 == member_values(members@));
}

pub proof fn lemma_array_view(items: Vec<Json>)
    ensures
        Json::Array(items)@ == JsonValue::Array(item_values(items@)),
{
    assert(Json::Array(items)@->Array_0 == item_values(items@));
}

/// The value under a key among the members of an object: that of the first member
/// with the key.
pub open spec fn lookup(members: Seq<(Seq<char>, JsonValue)>, key: Seq<char>) -> Option<JsonValue>
    decreases members.len(),
{
    if members.len() == 0 {
        None
    } else if members[0].0 == key {
        Some(members[0].1)
    } else {
        lookup(members.drop_first(), key)
    }
}

/// The value under a key of an object; nothing for any other value.
pub open spec fn member(value: JsonValue, key: Seq<char>) -> Option<JsonValue> {
    match value {
        JsonValue::Object(members) => lookup(members, key),
        _ => None,
    }
}

/// The value under a key of an object under a key.
pub open spec fn inner_member(value: JsonValue, outer: Seq<char>, key: Seq<char>) -> Option<JsonValue> {
    match member(value, outer) {
        Some(found) => member(found, key),
        None => None,
    }
}

/// The text of a string value.
pub open spec fn string_of(value: Option<JsonValue>) -> Option<Seq<char>> {
    match value {
        Some(JsonValue::Str(text)) => Some(text),
        _ => None,
    }
}

/// A string value.
pub open spec fn jstr(text: Seq<char>) -> JsonValue {
    JsonValue::Str(text)
}

/// A string value, or null.
pub open spec fn jstr_or_null(text: Option<Seq<char>>) -> JsonValue {
    match text {
        Some(t) => JsonValue::Str(t),
        None => JsonValue::Null,
    }
}

impl Json {
    /// A string value.
    pub fn text(s: &str) -> (r: Json)
        ensures
            r@ == jstr(s@),
    {
        Json::Str(s.to_string())
    }

    /// A string value, or null.
    pub fn text_or_null(s: &Option<String>) -> (r: Json)
        ensures
            r@ == jstr_or_null(opt_text(*s)),
    {
        match s {
            Some(t) => Json::text(t.as_str()),
            None => Json::Null,
        }
    }

    /// An object with the given members.
    pub fn object(members: Vec<(String, Json)>) -> (r: Json)
        ensures
            r@ == JsonValue::Object(member_values(members@)),
    {
        proof {
            lemma_object_view(members);
        }
        Json::Object(members)
    }

    /// An array of the given items.
    pub fn array(items: Vec<Json>) -> (r: Json)
        ensures
            r@ == JsonValue::Array(item_values(items@)),
    {
        proof {
            lemma_array_view(items);
        }
        Json::Array(items)
    }

    /// The value under a key, if this is an object that holds the key.
    pub fn get(&self, key: &str) -> (r: Option<&Json>)
        ensures
            match r {
                Some(found) => member(self@, key@) == Some(found@),
                None => member(self@, key@) is None,
            },
    {
        match self {
            Json::Object(members) => {
                let ghost all = member_values(members@);
                proof {
                    lemma_object_view(*members);
                    assert(all.skip(0) == all);
                }
                let mut i: usize = 0;
                while i < members.len()
                    invariant
                        i <= members.len(),
                        all == member_values(members@),
                        self@ == JsonValue::Object(all),
                        lookup(all, key@) == lookup(all.skip(i as int), key@),
                    decreases members.len() - i,
                {
                    let entry = &members[i];
                    proof {
                        assert(all.skip(i as int)[0] == (entry.0@, entry.1@));
                        assert(all.skip(i as int).drop_first() == all.skip(i + 1));
                    }
                    if same_text(entry.0.as_str(), key) {
                        return Some(&entry.1);
                    }
                    i += 1;
                }
                None
            },
            _ => None,
        }
    }

    /// The text of a string value.
    pub fn as_str(&self) -> (r: Option<&str>)
        ensures
            match r {
                Some(text) => self@ == jstr(text@),
                None => !(self@ is Str),
            },
    {
        match self {
            Json::Str(text) => Some(text.as_str()),
            _ => None,
        }
    }

    /// The value of a boolean.
    pub fn as_bool(&self) -> (r: Option<bool>)
        ensures
            r == (match self@ {
                JsonValue::Bool(b) => Some(b),
                _ => None,
            }),
    {
        match self {
            Json::Bool(b) => Some(*b),
            _ => None,
        }
    }

    /// The value of an integer that is not negative.
    pub fn as_u64(&self) -> (r: Option<u64>)
        ensures
            r == (match self@ {
                JsonValue::Uint(n) => Some(n),
                _ => None,
            }),
    {
        match self {
            Json::Uint(n) => Some(*n),
            _ => None,
        }
    }

    /// The text under a key, if this is an object with a string there.
    pub fn get_str(&self, key: &str) -> (r: Option<String>)
        ensures
            opt_text(r) == string_of(member(self@, key@)),
    {
        match self.get(key) {
            Some(found) => match found.as_str() {
                Some(text) => Some(text.to_string()),
                None => None,
            },
            None => None,
        }
    }

    /// The same value again.
    pub fn copy(&self) -> (r: Json)
        ensures
            r@ == self@,
        decreases self,
    {
        match self {
            Json::Null => Json::Null,
            Json::Bool(b) => Json::Bool(*b),
            Json::Uint(n) => Json::Uint(*n),
            Json::Int(n) => Json::Int(*n),
            Json::Float(text) => Json::Float(text.clone()),
            Json::Str(text) => Json::Str(text.clone()),
            Json::Array(items) => {
                let mut out: Vec<Json> = Vec::new();
                let mut i: usize = 0;
                while i < items.len()
                    invariant
                        i <= items.len(),
                        *self == Json::Array(*items),
                        item_values(out@) == item_values(items@).take(i as int),
                    decreases items.len() - i,
                {
                    let ghost before = item_values(out@);
                    proof {
                        assert(decreases_to!(*self => self->Array_0));
                        assert(decreases_to!(*items => items[i as int]));
                        assert(decreases_to!(*self => items[i as int]));
                    }
                    let item = items[i].copy();
                    proof {
                        assert(item@ == items@[i as int]@);
                    }
                    let ghost added = item@;
                    out.push(item);
                    proof {
                        assert(item_values(out@) == before.push(added));
                        assert(item_values(items@).take(i + 1) == item_values(items@).take(
                            i as int,
                        ).push(added));
                    }
                    i += 1;
                }
                proof {
                    assert(item_values(items@).take(items@.len() as int) == item_values(items@));
                    lemma_array_view(*items);
                }
                Json::array(out)
            },
            Json::Object(members) => {
                let mut out: Vec<(String, Json)> = Vec::new();
                let mut i: usize = 0;
                while i < members.len()
                    invariant
                        i <= members.len(),
                        *self == Json::Object(*members),
                        member_values(out@) == member_values(members@).take(i as int),
                    decreases members.len() - i,
                {
                    let ghost before = member_values(out@);
                    let entry = &members[i];
                    proof {
                        assert(decreases_to!(*self => self->Object_0));
                        assert(decreases_to!(*members => members[i as int]));
                        assert(decreases_to!(members[i as int] => members[i as int].1));
                        assert(decreases_to!(*self => entry.1));
                    }
                    let key = entry.0.clone();
                    let value = entry.1.copy();
                    let ghost added = (key@, value@);
                    out.push((key, value));
                    proof {
                        assert(member_values(out@) == before.push(added));
                        assert(member_values(members@).take(i + 1) == member_values(members@).take(
                            i as int,
                        ).push(added));
                    }
                    i += 1;
                }
                proof {
                    assert(member_values(members@).take(members@.len() as int) == member_values(
                        members@,
                    ));
                    lemma_object_view(*members);
                }
                Json::object(out)
            },
        }
    }
}

/// Adds a member to those of an object that is being built.
pub fn put(members: &mut Vec<(String, Json)>, key: &str, value: Json)
    ensures
        member_values(final(members)@) == member_values(old(members)@).push((key@, value@)),
{
    let ghost before = member_values(members@);
    members.push((key.to_string(), value));
    proof {
        assert(member_values(members@) == before.push((key@, value@)));
    }
}

/// The members of an object with `value` under `key`, in the place of the value
/// that stood there, or at the end.
pub open spec fn inserted(
    members: Seq<(Seq<char>, JsonValue)>,
    key: Seq<char>,
    value: JsonValue,
) -> Seq<(Seq<char>, JsonValue)>
    decreases members.len(),
{
    if members.len() == 0 {
        seq![(key, value)]
    } else if members[0].0 == key {
        seq![(key, value)] + members.drop_first()
    } else {
        seq![members[0]] + inserted(members.drop_first(), key, value)
    }
}

/// A value that was put under a key is the one that is read from it, and what stands
/// under any other key stays.
pub proof fn inserted_member_reads_back(
    members: Seq<(Seq<char>, JsonValue)>,
    key: Seq<char>,
    value: JsonValue,
    other: Seq<char>,
)
    ensures
        lookup(inserted(members, key, value), other) == (if other == key {
            Some(value)
        } else {
            lookup(members, other)
        }),
    decreases members.len(),
{
    let now = inserted(members, key, value);
    let none = Seq::<(Seq<char>, JsonValue)>::empty();
    if members.len() == 0 {
        assert(now[0] == (key, value));
        assert(now.drop_first() == none);
        assert(lookup(none, other) is None);
    } else if members[0].0 == key {
        assert(now[0] == (key, value));
        assert(now.drop_first() == members.drop_first());
    } else {
        assert(now[0] == members[0]);
        inserted_member_reads_back(members.drop_first(), key, value, other);
        assert(now.drop_first() == inserted(members.drop_first(), key, value));
    }
}

/// An object to be filled.
pub fn members() -> (r: Vec<(String, Json)>)
    ensures
        member_values(r@) == Seq::<(Seq<char>, JsonValue)>::empty(),
{
    let r: Vec<(String, Json)> = Vec::new();
    proof {
        assert(member_values(r@) == Seq::<(Seq<char>, JsonValue)>::empty());
    }
    r
}

/// Puts a value under a key of an object.
pub fn insert(members: &mut Vec<(String, Json)>, key: &str, value: Json)
    ensures
        member_values(final(members)@) == inserted(member_values(old(members)@), key@, value@),
{
    let ghost all = member_values(members@);
    let mut i: usize = 0;
    proof {
        assert(all.take(0) + inserted(all.skip(0), key@, value@) == inserted(all, key@, value@)) by {
            assert(all.skip(0) == all);
        }
    }
    while i < members.len()
        invariant
            i <= members.len(),
            all == member_values(members@),
            all == member_values(old(members)@),
            inserted(all, key@, value@) == all.take(i as int) + inserted(
                all.skip(i as int),
                key@,
                value@,
            ),
        decreases members.len() - i,
    {
        proof {
            assert(all.skip(i as int)[0] == (members@[i as int].0@, members@[i as int].1@));
            assert(all.skip(i as int).drop_first() == all.skip(i + 1));
        }
        if same_text(members[i].0.as_str(), key) {
            let ghost added = (key@, value@);
            proof {
                assert(inserted(all.skip(i as int), key@, value@) == seq![added] + all.skip(i + 1));
            }
            members.set(i, (key.to_string(), value));
            proof {
                assert(member_values(members@) == all.update(i as int, added));
                assert(all.update(i as int, added) == all.take(i as int) + (seq![added] + all.skip(
                    i + 1,
                )));
            }
            return ;
        }
        proof {
            let rest = inserted(all.skip(i + 1), key@, value@);
            assert(all.take(i as int) + (seq![all[i as int]] + rest) == all.take(i + 1) + rest);
        }
        i += 1;
    }
    proof {
        assert(all.skip(i as int) == Seq::<(Seq<char>, JsonValue)>::empty());
        assert(all.take(i as int) == all);
    }
    put(members, key, value);
}

/// What is read under a key is the value of the first member with it, and nothing where no
/// member has it.
pub proof fn the_first_member_is_read(
    members: Seq<(Seq<char>, JsonValue)>,
    key: Seq<char>,
    i: int,
)
    requires
        0 <= i <= members.len(),
        forall|k: int| 0 <= k < i ==> (#[trigger] members[k]).0 != key,
        i < members.len() ==> members[i].0 == key,
    ensures
        i < members.len() ==> lookup(members, key) == Some(members[i].1),
        i == members.len() ==> lookup(members, key) is None,
        member(JsonValue::Object(members), key) == lookup(members, key),
    decreases members.len(),
{
    if i > 0 {
        let rest = members.drop_first();
        assert forall|k: int| 0 <= k < i - 1 implies (#[trigger] rest[k]).0 != key by {
            assert(rest[k] == members[k + 1]);
        }
        assert(members[0].0 != key);
        if i < members.len() {
            assert(rest[i - 1] == members[i]);
        }
        the_first_member_is_read(rest, key, i - 1);
    }
}

/// Only objects have members, and only string values have a text.
pub proof fn values_are_told_apart(value: JsonValue, outer: Seq<char>, key: Seq<char>, text: Seq<char>)
    ensures
        !(value is Object) ==> member(value, key) is None,
        member(value, outer) is None ==> inner_member(value, outer, key) is None,
        member(value, outer) matches Some(found) ==> inner_member(value, outer, key) == member(
            found,
            key,
        ),
        string_of(Some(value)) == Some(text) <==> value == JsonValue::Str(text),
        string_of(None) is None,
        jstr(text) == JsonValue::Str(text),
        jstr_or_null(Some(text)) == JsonValue::Str(text),
        jstr_or_null(None) is Null,
{
}

/// Putting a value under a key keeps the order of the members: it takes the place of what stood
/// there, and stands at the end where the key is new.
pub proof fn inserted_members_keep_their_places(
    members: Seq<(Seq<char>, JsonValue)>,
    key: Seq<char>,
    value: JsonValue,
    i: int,
)
    requires
        0 <= i <= members.len(),
        forall|k: int| 0 <= k < i ==> (#[trigger] members[k]).0 != key,
        i < members.len() ==> members[i].0 == key,
    ensures
        i < members.len() ==> inserted(members, key, value) == members.update(i, (key, value)),
        i == members.len() ==> inserted(members, key, value) == members.push((key, value)),
    decreases members.len(),
{
    if i > 0 {
        let rest = members.drop_first();
        assert forall|k: int| 0 <= k < i - 1 implies (#[trigger] rest[k]).0 != key by {
            assert(rest[k] == members[k + 1]);
        }
        assert(members[0].0 != key);
        if i < members.len() {
            assert(rest[i - 1] == members[i]);
        }
        inserted_members_keep_their_places(rest, key, value, i - 1);
    }
}

/// A text, a truth value or a number is read from a value of its own kind only.
pub proof fn contents_are_read_by_kind(
    j: &Json,
    text: Option<&str>,
    truth: Option<bool>,
    number: Option<u64>,
)
    requires
        call_ensures(Json::as_str, (j,), text),
        call_ensures(Json::as_bool, (j,), truth),
        call_ensures(Json::as_u64, (j,), number),
    ensures
        text is Some <==> j@ is Str,
        text matches Some(t) ==> j@->Str_0 == t@,
        truth is Some <==> j@ is Bool,
        truth matches Some(b) ==> j@->Bool_0 == b,
        number is Some <==> j@ is Uint,
        number matches Some(n) ==> j@->Uint_0 == n,
{
}

/// The text under a key is read where there is one.
pub proof fn texts_are_read_under_their_key(j: &Json, key: &str, r: Option<String>)
    requires
        call_ensures(Json::get_str, (j, key), r),
    ensures
        r matches Some(text) ==> member(j@, key@) == Some(JsonValue::Str(text@)),
        r is None ==> !(member(j@, key@) matches Some(JsonValue::Str(_))),
{
}

/// A member that is put to others stands behind them.
pub proof fn put_members_stand_last(
    members: &mut Vec<(String, Json)>,
    key: &str,
    value: Json,
    r: (),
)
    requires
        call_ensures(put, (members, key, value), r),
    ensures
        member_values(final(members)@) == member_values(old(members)@).push((key@, value@)),
{
}

/// A copy holds what the value holds.
pub proof fn copies_hold_the_same(j: &Json, r: Json)
    requires
        call_ensures(Json::copy, (j,), r),
    ensures
        r@ == j@,
{
}

} // verus!
