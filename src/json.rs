use vstd::prelude::*;
use vstd::string::StringExecFns;

verus! {

/// A JSON document, held as plain values.
///
/// An object keeps its members in the order the parser hands them out, each key
/// at most once.
#[derive(Debug)]
pub enum Json {
    Null,
    Bool(bool),
    /// A number, as its decimal text.
    Number(String),
    Str(String),
    Array(Vec<Json>),
    Object(Vec<(String, Json)>),
}

#[verifier::external_type_specification]
#[verifier::external_body]
pub struct ExValue(serde_json::Value);

/// No key occurs twice among an object's members.
pub open spec fn keys_distinct(members: Seq<(String, Json)>) -> bool {
    forall|i: int, j: int|
        0 <= i < j < members.len() ==> (#[trigger] members[i]).0@ != (#[trigger] members[j]).0@
}

/// Every object in the document, at any depth, has distinct keys.
pub open spec fn well_formed(doc: Json) -> bool
    decreases doc,
{
    match doc {
        Json::Array(items) => forall|i: int|
            0 <= i < items.len() ==> well_formed(#[trigger] items@[i]),
        Json::Object(members) => keys_distinct(members@) && forall|i: int|
            0 <= i < members.len() ==> well_formed(#[trigger] members@[i].1),
        _ => true,
    }
}

/// What `serde_json::from_str` makes of a text: the document, or the parser's
/// description of the first fault.
pub uninterp spec fn json_parse(text: Seq<char>) -> Result<Json, Seq<char>>;

/// Relies on `serde_json::from_str` to parse a whole text into a
/// `serde_json::Value`, or to report why it is not one JSON document. An
/// object of a `Value` is a `serde_json::Map`, which holds each key once.
#[verifier::external_body]
fn parse_value(text: &str) -> (r: Result<Json, String>)
    ensures
        match r {
            Ok(doc) => json_parse(text@) == Ok::<Json, Seq<char>>(doc) && well_formed(doc),
            Err(e) => json_parse(text@) == Err::<Json, Seq<char>>(e@),
        },
{
    match serde_json::from_str::<serde_json::Value>(text) {
        Ok(v) => Ok(json_of_value(&v)),
        Err(e) => Err(e.to_string()),
    }
}

/// Copies a `serde_json::Value` into a `Json`, variant for variant; it reads
/// and decides nothing.
#[verifier::external_body]
fn json_of_value(v: &serde_json::Value) -> (r: Json) {
    match v {
        serde_json::Value::Null => Json::Null,
        serde_json::Value::Bool(b) => Json::Bool(*b),
        serde_json::Value::Number(n) => Json::Number(n.to_string()),
        serde_json::Value::String(s) => Json::Str(s.clone()),
        serde_json::Value::Array(a) => Json::Array(a.iter().map(json_of_value).collect()),
        serde_json::Value::Object(o) => Json::Object(
            o.iter().map(|(k, x)| (k.clone(), json_of_value(x))).collect(),
        ),
    }
}

/// Parses `text` as one JSON document.
pub fn parse(text: &str) -> (r: Result<Json, String>)
    ensures
        match r {
            Ok(doc) => json_parse(text@) == Ok::<Json, Seq<char>>(doc) && well_formed(doc),
            Err(e) => json_parse(text@) == Err::<Json, Seq<char>>(e@),
        },
{
    parse_value(text)
}

/// The value under `key` among an object's members; where a key came twice,
/// the later one.
pub open spec fn lookup(members: Seq<(String, Json)>, key: Seq<char>) -> Option<Json>
    decreases members.len(),
{
    if members.len() == 0 {
        None
    } else if members.last().0@ == key {
        Some(members.last().1)
    } else {
        lookup(members.drop_last(), key)
    }
}

/// The member `key` of a document, if it is an object that has one.
pub open spec fn field(doc: Json, key: Seq<char>) -> Option<Json> {
    match doc {
        Json::Object(members) => lookup(members@, key),
        _ => None,
    }
}

/// The strings among `items`, in order; every other item is left out.
pub open spec fn strings_of(items: Seq<Json>) -> Seq<Seq<char>>
    decreases items.len(),
{
    if items.len() == 0 {
        Seq::empty()
    } else {
        let rest = strings_of(items.drop_last());
        match items.last() {
            Json::Str(s) => rest.push(s@),
            _ => rest,
        }
    }
}

/// The member `key` of `doc`, if `doc` is an object that has one.
pub fn get_field<'a>(doc: &'a Json, key: &str) -> (r: Option<&'a Json>)
    ensures
        match r {
            Some(v) => field(*doc, key@) == Some(*v),
            None => field(*doc, key@) is None,
        },
{
    match doc {
        Json::Object(members) => {
            let mut i: usize = members.len();
            assert(members@.subrange(0, i as int) =~= members@);
            while i > 0
                invariant
                    i <= members.len(),
                    field(*doc, key@) == lookup(members@, key@),
                    lookup(members@, key@) == lookup(members@.subrange(0, i as int), key@),
                decreases i,
            {
                assert(members@.subrange(0, i as int).drop_last() =~= members@.subrange(
                    0,
                    i - 1,
                ));
                let k = String::from_str(key);
                if members[i - 1].0 == k {
                    assert(members@.subrange(0, i as int).last() == members@[i - 1]);
                    return Some(&members[i - 1].1);
                }
                i = i - 1;
            }
            None
        },
        _ => None,
    }
}

/// The strings among `items`, in order, as owned values.
pub fn collect_strings(items: &Vec<Json>) -> (r: Vec<String>)
    ensures
        r.deep_view() == strings_of(items@),
{
    let mut out: Vec<String> = Vec::new();
    let mut i: usize = 0;
    while i < items.len()
        invariant
            i <= items.len(),
            out.deep_view() == strings_of(items@.subrange(0, i as int)),
        decreases items.len() - i,
    {
        assert(items@.subrange(0, i + 1).drop_last() =~= items@.subrange(0, i as int));
        if let Json::Str(s) = &items[i] {
            out.push(s.clone());
        }
        assert(out.deep_view() =~= strings_of(items@.subrange(0, i + 1)));
        i = i + 1;
    }
    assert(items@.subrange(0, items.len() as int) =~= items@);
    out
}

} // verus!
