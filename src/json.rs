use vstd::prelude::*;

verus! {

/// A JSON value as the library reads it. Numbers keep the form in which they were written:
/// a non-negative integer, a negative one, or the text of any other number.
#[derive(Debug)]
pub enum Json {
    Null,
    Bool(bool),
    UInt(u64),
    NegInt(i64),
    Decimal(String),
    Str(String),
    Array(Vec<Json>),
    Object(Vec<(String, Json)>),
}

/// The mathematical value of a [`Json`].
pub enum JsonValue {
    Null,
    Bool(bool),
    UInt(u64),
    NegInt(i64),
    Decimal(Seq<char>),
    Str(Seq<char>),
    Array(Seq<JsonValue>),
    Object(Seq<(Seq<char>, JsonValue)>),
}

/// The value of a [`Json`], member by member.
pub open spec fn json_view(j: Json) -> JsonValue
    decreases j,
{
    match j {
        Json::Null => JsonValue::Null,
        Json::Bool(b) => JsonValue::Bool(b),
        Json::UInt(n) => JsonValue::UInt(n),
        Json::NegInt(n) => JsonValue::NegInt(n),
        Json::Decimal(t) => JsonValue::Decimal(t@),
        Json::Str(t) => JsonValue::Str(t@),
        Json::Array(v) => JsonValue::Array(
            Seq::new(
                v.len() as nat,
                |i: int|
                    if 0 <= i < v.len() {
                        json_view(v[i])
                    } else {
                        JsonValue::Null
                    },
            ),
        ),
        Json::Object(v) => JsonValue::Object(
            Seq::new(
                v.len() as nat,
                |i: int|
                    if 0 <= i < v.len() {
                        (v[i].0@, json_view(v[i].1))
                    } else {
                        (Seq::empty(), JsonValue::Null)
                    },
            ),
        ),
    }
}

impl View for Json {
    type V = JsonValue;

    open spec fn view(&self) -> JsonValue {
        json_view(*self)
    }
}

} // verus!

verus! {

/// The values of an object's members, in order.
pub open spec fn members_view(v: Seq<(String, Json)>) -> Seq<(Seq<char>, JsonValue)> {
    Seq::new(v.len(), |i: int| (v[i].0@, json_view(v[i].1)))
}

/// The value of the first member named `key`, if any.
pub open spec fn member(ms: Seq<(Seq<char>, JsonValue)>, key: Seq<char>) -> Option<JsonValue>
    decreases ms.len(),
{
    if ms.len() == 0 {
        None
    } else if ms[0].0 == key {
        Some(ms[0].1)
    } else {
        member(ms.drop_first(), key)
    }
}

/// The value of the member `key` of `v`, where `v` is an object that has one.
pub open spec fn field(v: JsonValue, key: Seq<char>) -> Option<JsonValue> {
    match v {
        JsonValue::Object(ms) => member(ms, key),
        _ => None,
    }
}

pub proof fn lemma_object_view(v: Vec<(String, Json)>)
    ensures
        json_view(Json::Object(v)) == JsonValue::Object(members_view(v@)),
{
    let j = json_view(Json::Object(v));
    assert(j is Object);
    let s = j->Object_0;
    assert(s =~= members_view(v@));
}

/// The first member of `members` named `key`.
pub fn find_member<'a>(members: &'a Vec<(String, Json)>, key: &str) -> (r: Option<&'a Json>)
    ensures
        r matches Some(j) ==> member(members_view(members@), key@) == Some(json_view(*j)),
        r is None ==> member(members_view(members@), key@) is None,
{
    let ghost ms = members_view(members@);
    assert(ms.subrange(0, ms.len() as int) =~= ms);
    let mut i: usize = 0;
    while i < members.len()
        invariant
            i <= members.len(),
            ms == members_view(members@),
            member(ms, key@) == member(ms.subrange(i as int, ms.len() as int), key@),
        decreases members.len() - i,
    {
        let ghost rest = ms.subrange(i as int, ms.len() as int);
        assert(rest[0] == ms[i as int]);
        if crate::text::same_text(members[i].0.as_str(), key) {
            return Some(&members[i].1);
        }
        assert(rest.drop_first() =~= ms.subrange(i + 1, ms.len() as int));
        i += 1;
    }
    None
}

/// The member `key` of `j`, where `j` is an object that has one.
pub fn get_field<'a>(j: &'a Json, key: &str) -> (r: Option<&'a Json>)
    ensures
        r matches Some(x) ==> field(json_view(*j), key@) == Some(json_view(*x)),
        r is None ==> field(json_view(*j), key@) is None,
{
    match j {
        Json::Object(members) => {
            proof { lemma_object_view(*members); }
            find_member(members, key)
        },
        _ => None,
    }
}

} // verus!
