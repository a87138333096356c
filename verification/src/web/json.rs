//! The data handed to the template engine.
//!
//! The engine takes its data as a `serde_json::Value`. Such a value is
//! built here from plain values by four small calls, each believed to
//! build what its contract says; how the journal's own types are laid out
//! in it is proved.

use vstd::prelude::*;
use vstd::map::*;
use vstd::string::StringExecFns;
use crate::config::EchoConfig;
use crate::post::EchoPost;

verus! {

/// What a JSON value holds.
pub enum Json {
    /// A whole number.
    Integer(int),
    /// A string.
    Text(Seq<char>),
    /// A list of values.
    Array(Seq<Json>),
    /// Values by their keys.
    Object(Map<Seq<char>, Json>),
}

#[verifier::external_type_specification]
#[verifier::external_body]
pub struct ExValue(serde_json::Value);

/// What the value `v` of the outside crate holds.
pub uninterp spec fn json_of(v: serde_json::Value) -> Json;

/// What each of `items` holds, in order.
pub open spec fn jsons_of(items: Seq<serde_json::Value>) -> Seq<Json> {
    Seq::new(items.len(), |i: int| json_of(items[i]))
}

/// The object that holds each of `fields` under its key. Where two fields
/// had one key the later one would stay; the objects built here have no
/// such fields.
pub open spec fn object_of(fields: Seq<(String, serde_json::Value)>) -> Map<Seq<char>, Json>
    decreases fields.len(),
{
    if fields.len() == 0 {
        Map::empty()
    } else {
        object_of(fields.drop_last()).insert(fields.last().0@, json_of(fields.last().1))
    }
}

/// Calls `Value::from` of `serde_json` on an `i64`, which gives the JSON
/// number of that value.
#[verifier::external_body]
pub(crate) fn json_integer(n: i64) -> (v: serde_json::Value)
    ensures
        json_of(v) == Json::Integer(n as int),
{
    serde_json::Value::from(n)
}

/// Calls `Value::from` of `serde_json` on a string slice, which gives the
/// JSON string of the same characters.
#[verifier::external_body]
pub(crate) fn json_text(s: &str) -> (v: serde_json::Value)
    ensures
        json_of(v) == Json::Text(s@),
{
    serde_json::Value::from(s)
}

/// Wraps a vector of values in `Value::Array` of `serde_json`: the JSON
/// list of the same values in the same order.
#[verifier::external_body]
pub(crate) fn json_array(items: Vec<serde_json::Value>) -> (v: serde_json::Value)
    ensures
        json_of(v) == Json::Array(jsons_of(items@)),
{
    serde_json::Value::Array(items)
}

/// Whether no two of `fields` have the same key.
pub open spec fn distinct_keys(fields: Seq<(String, serde_json::Value)>) -> bool {
    forall|i: int, j: int|
        0 <= i < j < fields.len() ==> (#[trigger] fields[i]).0@ != (#[trigger] fields[j]).0@
}

/// Collects keys and values into a `Map` of `serde_json` and wraps it in
/// `Value::Object`. The keys are all different, so that every pair is in
/// the map: which of two pairs with one key would stay is not asked.
#[verifier::external_body]
pub(crate) fn json_object(fields: Vec<(String, serde_json::Value)>) -> (v: serde_json::Value)
    requires
        distinct_keys(fields@),
    ensures
        json_of(v) == Json::Object(object_of(fields@)),
{
    serde_json::Value::Object(fields.into_iter().collect())
}

/// How an entry is laid out for the templates.
pub open spec fn post_json(post: EchoPost) -> Json {
    Json::Object(
        Map::<Seq<char>, Json>::empty().insert("id"@, Json::Integer(post.id as int)).insert(
            "created"@,
            Json::Integer(post.created as int),
        ).insert("edited"@, Json::Integer(post.edited as int)).insert(
            "text"@,
            Json::Text(post.text@),
        ),
    )
}

/// How the settings are laid out for the templates.
pub open spec fn config_json(config: EchoConfig) -> Json {
    Json::Object(
        Map::<Seq<char>, Json>::empty().insert("title"@, Json::Text(config.title@)).insert(
            "author"@,
            Json::Text(config.author@),
        ).insert("description"@, Json::Text(config.description@)),
    )
}

/// How the entries of one day are laid out: a list of entries.
pub open spec fn day_json(day: Seq<EchoPost>) -> Json {
    Json::Array(Seq::new(day.len(), |i: int| post_json(day[i])))
}

/// How the days are laid out: a list of days.
pub open spec fn days_json(days: Seq<Vec<EchoPost>>) -> Json {
    Json::Array(Seq::new(days.len(), |i: int| day_json(days[i]@)))
}

/// Lays an entry out for the templates.
pub fn post_value(post: &EchoPost) -> (v: serde_json::Value)
    ensures
        json_of(v) == post_json(*post),
{
    let mut fields: Vec<(String, serde_json::Value)> = Vec::new();
    fields.push((String::from_str("id"), json_integer(post.id)));
    fields.push((String::from_str("created"), json_integer(post.created)));
    fields.push((String::from_str("edited"), json_integer(post.edited)));
    fields.push((String::from_str("text"), json_text(post.text.as_str())));
    proof {
        lemma_object_of_four(fields@);
        reveal_strlit("id");
        reveal_strlit("created");
        reveal_strlit("edited");
        reveal_strlit("text");
        assert("id"@.len() == 2 && "created"@.len() == 7 && "edited"@.len() == 6 && "text"@.len()
            == 4);
    }
    json_object(fields)
}

/// Lays the settings out for the templates.
pub fn config_value(config: &EchoConfig) -> (v: serde_json::Value)
    ensures
        json_of(v) == config_json(*config),
{
    let mut fields: Vec<(String, serde_json::Value)> = Vec::new();
    fields.push((String::from_str("title"), json_text(config.title.as_str())));
    fields.push((String::from_str("author"), json_text(config.author.as_str())));
    fields.push((String::from_str("description"), json_text(config.description.as_str())));
    proof {
        lemma_object_of_three(fields@);
        reveal_strlit("title");
        reveal_strlit("author");
        reveal_strlit("description");
        assert("title"@.len() == 5 && "author"@.len() == 6 && "description"@.len() == 11);
    }
    json_object(fields)
}

/// Lays the entries of one day out for the templates.
pub fn day_value(day: &Vec<EchoPost>) -> (v: serde_json::Value)
    ensures
        json_of(v) == day_json(day@),
{
    let mut items: Vec<serde_json::Value> = Vec::new();
    let mut i: usize = 0;
    while i < day.len()
        invariant
            i <= day.len(),
            items@.len() == i,
            forall|j: int| 0 <= j < i ==> json_of(#[trigger] items@[j]) == post_json(day@[j]),
        decreases day.len() - i,
    {
        items.push(post_value(&day[i]));
        i += 1;
    }
    proof {
        assert(jsons_of(items@) =~= Seq::new(day@.len(), |i: int| post_json(day@[i])));
    }
    json_array(items)
}

/// Lays the days out for the templates.
pub fn days_value(days: &Vec<Vec<EchoPost>>) -> (v: serde_json::Value)
    ensures
        json_of(v) == days_json(days@),
{
    let mut items: Vec<serde_json::Value> = Vec::new();
    let mut i: usize = 0;
    while i < days.len()
        invariant
            i <= days.len(),
            items@.len() == i,
            forall|j: int| 0 <= j < i ==> json_of(#[trigger] items@[j]) == day_json(days@[j]@),
        decreases days.len() - i,
    {
        items.push(day_value(&days[i]));
        i += 1;
    }
    proof {
        assert(jsons_of(items@) =~= Seq::new(days@.len(), |i: int| day_json(days@[i]@)));
    }
    json_array(items)
}

/// The object of three fields, written out.
pub proof fn lemma_object_of_three(fields: Seq<(String, serde_json::Value)>)
    requires
        fields.len() == 3,
    ensures
        object_of(fields) == Map::<Seq<char>, Json>::empty().insert(
            fields[0].0@,
            json_of(fields[0].1),
        ).insert(fields[1].0@, json_of(fields[1].1)).insert(fields[2].0@, json_of(fields[2].1)),
{
    let two = fields.drop_last();
    let one = two.drop_last();
    let none = one.drop_last();
    assert(none.len() == 0);
    assert(object_of(none) == Map::<Seq<char>, Json>::empty());
    assert(one.last() == fields[0]);
    assert(object_of(one) == object_of(none).insert(fields[0].0@, json_of(fields[0].1)));
    assert(two.last() == fields[1]);
    assert(object_of(two) == object_of(one).insert(fields[1].0@, json_of(fields[1].1)));
    assert(fields.last() == fields[2]);
}

/// The object of four fields, written out.
pub proof fn lemma_object_of_four(fields: Seq<(String, serde_json::Value)>)
    requires
        fields.len() == 4,
    ensures
        object_of(fields) == Map::<Seq<char>, Json>::empty().insert(
            fields[0].0@,
            json_of(fields[0].1),
        ).insert(fields[1].0@, json_of(fields[1].1)).insert(
            fields[2].0@,
            json_of(fields[2].1),
        ).insert(fields[3].0@, json_of(fields[3].1)),
{
    let three = fields.drop_last();
    lemma_object_of_three(three);
    assert(fields.last() == fields[3]);
}

} // verus!
