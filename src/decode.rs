use vstd::prelude::*;
use vstd::string::StringExecFns;
use crate::error::{DogAPIError, ErrorKind};
use crate::laws::catalog_breeds_are_distinct;
use crate::json::{Json, json_parse, field, strings_of, parse, get_field, collect_strings};

verus! {

/// The text given when a body does not have the expected shape, and when a
/// failed envelope carries no readable message.
pub open spec fn fallback_text() -> Seq<char> {
    "Something went wrong while reading json"@
}

/// An outcome of decoding, over views: a value, or an error's kind and message.
pub type Outcome<T> = Result<T, (ErrorKind, Seq<char>)>;

/// The view of a breed catalog: each breed with its sub-breeds, if it has any.
pub type CatalogView = Seq<(Seq<char>, Option<Seq<Seq<char>>>)>;

/// A result of this library has the given outcome.
pub open spec fn has_outcome<T: DeepView>(r: Result<T, DogAPIError>, o: Outcome<T::V>) -> bool {
    match r {
        Ok(v) => o == Ok::<T::V, (ErrorKind, Seq<char>)>(v.deep_view()),
        Err(e) => o == Err::<T::V, (ErrorKind, Seq<char>)>(e@),
    }
}

/// A text whose `status` says success.
pub open spec fn is_success(s: Seq<char>) -> bool {
    s == "success"@
}

/// The error message of a failed envelope: its `message` if that is a string.
pub open spec fn failure_text(message: Json) -> Seq<char> {
    match message {
        Json::Str(t) => t@,
        _ => fallback_text(),
    }
}

/// The decision on an envelope of varying shape: its `message` on success;
/// an API error where `status` is another string; else a decode error.
pub open spec fn envelope(doc: Json) -> Outcome<Json> {
    match (field(doc, "status"@), field(doc, "message"@)) {
        (Some(Json::Str(s)), Some(m)) => if is_success(s@) {
            Ok(m)
        } else {
            Err((ErrorKind::Api, failure_text(m)))
        },
        _ => Err((ErrorKind::Decode, fallback_text())),
    }
}

/// The outcome of a fixed envelope that was decoded into its two strings:
/// `message` on success, else an API error with `message` as its text.
pub open spec fn fixed_outcome(status: Seq<char>, message: Seq<char>) -> Outcome<Seq<char>> {
    if is_success(status) {
        Ok(message)
    } else {
        Err((ErrorKind::Api, message))
    }
}

/// The outcome where a successful `message` must be an array: its strings.
pub open spec fn strings_outcome(doc: Json) -> Outcome<Seq<Seq<char>>> {
    match envelope(doc) {
        Ok(Json::Array(items)) => Ok(strings_of(items@)),
        Ok(_) => Err((ErrorKind::Decode, fallback_text())),
        Err(e) => Err(e),
    }
}

/// A list of sub-breeds: absent where the array is empty, else its strings.
pub open spec fn sub_breeds_of(items: Seq<Json>) -> Option<Seq<Seq<char>>> {
    if items.len() == 0 {
        None
    } else {
        Some(strings_of(items))
    }
}

/// The outcome where a successful `message` is one breed's array of sub-breeds.
pub open spec fn sub_breeds_outcome(doc: Json) -> Outcome<Option<Seq<Seq<char>>>> {
    match envelope(doc) {
        Ok(Json::Array(items)) => Ok(sub_breeds_of(items@)),
        Ok(_) => Err((ErrorKind::Decode, fallback_text())),
        Err(e) => Err(e),
    }
}

/// The breed catalog of an object's members, in their order: one entry for each
/// member whose value is an array; the other members are left out.
pub open spec fn catalog_of(members: Seq<(String, Json)>) -> CatalogView
    decreases members.len(),
{
    if members.len() == 0 {
        Seq::empty()
    } else {
        let rest = catalog_of(members.drop_last());
        match members.last().1 {
            Json::Array(items) => rest.push((members.last().0@, sub_breeds_of(items@))),
            _ => rest,
        }
    }
}

/// No breed comes twice in a catalog.
pub open spec fn breeds_distinct(c: CatalogView) -> bool {
    forall|i: int, j: int| 0 <= i < j < c.len() ==> (#[trigger] c[i]).0 != (#[trigger] c[j]).0
}

/// The outcome where a successful `message` is the object of all breeds.
pub open spec fn catalog_outcome(doc: Json) -> Outcome<CatalogView> {
    match envelope(doc) {
        Ok(Json::Object(members)) => Ok(catalog_of(members@)),
        Ok(_) => Err((ErrorKind::Decode, fallback_text())),
        Err(e) => Err(e),
    }
}

/// The outcome of a body that does not parse: a decode error that quotes the
/// parser.
pub open spec fn unparsed(reason: Seq<char>) -> (ErrorKind, Seq<char>) {
    (ErrorKind::Decode, fallback_text() + ": "@ + reason)
}

fn fallback_error() -> (r: DogAPIError)
    ensures
        r@ == (ErrorKind::Decode, fallback_text()),
{
    DogAPIError::new(ErrorKind::Decode, String::from_str("Something went wrong while reading json"))
}

fn string_is(s: &String, text: &str) -> (r: bool)
    ensures
        r == (s@ == text@),
{
    let t = String::from_str(text);
    *s == t
}

/// Decides on an envelope of varying shape: its `message` on success.
pub fn open_envelope(doc: &Json) -> (r: Result<&Json, DogAPIError>)
    ensures
        match r {
            Ok(m) => envelope(*doc) == Ok::<Json, (ErrorKind, Seq<char>)>(*m),
            Err(e) => envelope(*doc) == Err::<Json, (ErrorKind, Seq<char>)>(e@),
        },
{
    let status = get_field(doc, "status");
    let message = get_field(doc, "message");
    match (status, message) {
        (Some(Json::Str(s)), Some(m)) => {
            if string_is(s, "success") {
                Ok(m)
            } else {
                match m {
                    Json::Str(t) => Err(DogAPIError::new(ErrorKind::Api, t.clone())),
                    _ => Err(DogAPIError::new(
                        ErrorKind::Api,
                        String::from_str("Something went wrong while reading json"),
                    )),
                }
            }
        },
        _ => Err(fallback_error()),
    }
}

/// Reads an envelope whose `message` is an array: the strings in it.
pub fn read_strings(doc: &Json) -> (r: Result<Vec<String>, DogAPIError>)
    ensures
        has_outcome(r, strings_outcome(*doc)),
{
    match open_envelope(doc) {
        Ok(Json::Array(items)) => Ok(collect_strings(items)),
        Ok(_) => Err(fallback_error()),
        Err(e) => Err(e),
    }
}

/// Reads an envelope whose `message` is one breed's array of sub-breeds.
pub fn read_sub_breeds(doc: &Json) -> (r: Result<Option<Vec<String>>, DogAPIError>)
    ensures
        has_outcome(r, sub_breeds_outcome(*doc)),
{
    match open_envelope(doc) {
        Ok(Json::Array(items)) => {
            if items.len() == 0 {
                Ok(None)
            } else {
                Ok(Some(collect_strings(items)))
            }
        },
        Ok(_) => Err(fallback_error()),
        Err(e) => Err(e),
    }
}

/// Reads an envelope whose `message` is the object of all breeds: for each
/// member whose value is an array, the breed and its sub-breeds.
pub fn read_catalog(doc: &Json) -> (r: Result<Vec<(String, Option<Vec<String>>)>, DogAPIError>)
    ensures
        has_outcome(r, catalog_outcome(*doc)),
{
    match open_envelope(doc) {
        Ok(Json::Object(members)) => {
            let mut out: Vec<(String, Option<Vec<String>>)> = Vec::new();
            let mut i: usize = 0;
            while i < members.len()
                invariant
                    i <= members.len(),
                    out.deep_view() == catalog_of(members@.subrange(0, i as int)),
                decreases members.len() - i,
            {
                assert(members@.subrange(0, i + 1).drop_last() =~= members@.subrange(
                    0,
                    i as int,
                ));
                let (breed, value) = &members[i];
                if let Json::Array(items) = value {
                    let subs = if items.len() == 0 {
                        None
                    } else {
                        Some(collect_strings(items))
                    };
                    out.push((breed.clone(), subs));
                }
                assert(out.deep_view() =~= catalog_of(members@.subrange(0, i + 1)));
                i = i + 1;
            }
            assert(members@.subrange(0, members.len() as int) =~= members@);
            Ok(out)
        },
        Ok(_) => Err(fallback_error()),
        Err(e) => Err(e),
    }
}

fn parse_failure(reason: String) -> (r: DogAPIError)
    ensures
        r@ == unparsed(reason@),
{
    let mut text = String::from_str("Something went wrong while reading json");
    text.append(": ");
    text.append(reason.as_str());
    DogAPIError::new(ErrorKind::Decode, text)
}

/// Decides on a fixed envelope `{"status": .., "message": ..}` in which both
/// members must be strings. `decoded` is what a typed decode of the body gave:
/// the two strings, or the parser's description of why the body is not such an
/// envelope (not JSON, a member missing, or a member that is not a string).
pub fn read_fixed(decoded: Result<(String, String), String>) -> (r: Result<String, DogAPIError>)
    ensures
        match decoded {
            Ok((status, message)) => has_outcome(r, fixed_outcome(status@, message@)),
            Err(reason) => has_outcome(r, Err(unparsed(reason@))),
        },
{
    match decoded {
        Ok((status, message)) => {
            if string_is(&status, "success") {
                Ok(message)
            } else {
                Err(DogAPIError::new(ErrorKind::Api, message))
            }
        },
        Err(reason) => Err(parse_failure(reason)),
    }
}

/// Decodes the body of an operation that answers a list of image addresses.
pub fn decode_strings(body: &str) -> (r: Result<Vec<String>, DogAPIError>)
    ensures
        match json_parse(body@) {
            Ok(doc) => has_outcome(r, strings_outcome(doc)),
            Err(reason) => has_outcome(r, Err(unparsed(reason))),
        },
{
    match parse(body) {
        Ok(doc) => read_strings(&doc),
        Err(reason) => Err(parse_failure(reason)),
    }
}

/// Decodes the body of the operation that lists one breed's sub-breeds.
pub fn decode_sub_breeds(body: &str) -> (r: Result<Option<Vec<String>>, DogAPIError>)
    ensures
        match json_parse(body@) {
            Ok(doc) => has_outcome(r, sub_breeds_outcome(doc)),
            Err(reason) => has_outcome(r, Err(unparsed(reason))),
        },
{
    match parse(body) {
        Ok(doc) => read_sub_breeds(&doc),
        Err(reason) => Err(parse_failure(reason)),
    }
}

/// Decodes the body of the operation that lists every breed.
pub fn decode_catalog(body: &str) -> (r: Result<Vec<(String, Option<Vec<String>>)>, DogAPIError>)
    ensures
        match json_parse(body@) {
            Ok(doc) => has_outcome(r, catalog_outcome(doc)),
            Err(reason) => has_outcome(r, Err(unparsed(reason))),
        },
        r matches Ok(c) ==> breeds_distinct(c.deep_view()),
{
    match parse(body) {
        Ok(doc) => {
            proof {
                catalog_breeds_are_distinct(doc);
            }
            read_catalog(&doc)
        },
        Err(reason) => Err(parse_failure(reason)),
    }
}

} // verus!
