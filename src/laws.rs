//! Properties of decoding that hold for every response.
use vstd::prelude::*;
use crate::error::ErrorKind;
use crate::json::{Json, field, strings_of, lookup, keys_distinct, well_formed};
use crate::decode::{
    envelope,
    is_success,
    fallback_text,
    unparsed,
    strings_outcome,
    sub_breeds_outcome,
    catalog_outcome,
    CatalogView,
    breeds_distinct,
    catalog_of,
    sub_breeds_of,
};

verus! {

/// An item is the string `t`.
pub open spec fn holds_text(x: Json, t: Seq<char>) -> bool {
    match x {
        Json::Str(s) => s@ == t,
        _ => false,
    }
}

/// Every text that `strings_of` keeps is a string item of the array, and it
/// keeps no more texts than there are items.
pub proof fn strings_come_from_items(items: Seq<Json>)
    ensures
        strings_of(items).len() <= items.len(),
        forall|i: int|
            #![trigger strings_of(items)[i]]
            0 <= i < strings_of(items).len() ==> exists|j: int|
                0 <= j < items.len() && holds_text(#[trigger] items[j], strings_of(items)[i]),
    decreases items.len(),
{
    if items.len() > 0 {
        let rest = items.drop_last();
        strings_come_from_items(rest);
        assert forall|i: int|
            #![trigger strings_of(items)[i]]
            0 <= i < strings_of(items).len() implies exists|j: int|
            0 <= j < items.len() && holds_text(#[trigger] items[j], strings_of(items)[i]) by {
            if i < strings_of(rest).len() {
                let j = choose|j: int|
                    0 <= j < rest.len() && holds_text(#[trigger] rest[j], strings_of(rest)[i]);
                assert(items[j] == rest[j]);
            } else {
                assert(items[items.len() - 1] == items.last());
            }
        }
    }
}

/// Where every item is a string, `strings_of` keeps them all, in order.
pub proof fn all_strings_kept(items: Seq<Json>)
    requires
        forall|j: int| 0 <= j < items.len() ==> #[trigger] items[j] is Str,
    ensures
        strings_of(items).len() == items.len(),
        forall|j: int|
            0 <= j < items.len() ==> #[trigger] strings_of(items)[j] == items[j]->Str_0@,
    decreases items.len(),
{
    if items.len() > 0 {
        let rest = items.drop_last();
        assert forall|j: int| 0 <= j < rest.len() implies #[trigger] rest[j] is Str by {
            assert(rest[j] == items[j]);
        }
        all_strings_kept(rest);
        assert(items.last() == items[items.len() - 1]);
        assert forall|j: int| 0 <= j < items.len() implies #[trigger] strings_of(items)[j]
            == items[j]->Str_0@ by {
            if j < rest.len() {
                assert(rest[j] == items[j]);
            }
        }
    }
}

/// A breed whose successful answer is an empty array has its sub-breeds
/// reported absent, not as an empty list.
pub proof fn empty_array_means_no_sub_breeds(doc: Json)
    requires
        envelope(doc) matches Ok(Json::Array(items)) && items@.len() == 0,
    ensures
        sub_breeds_outcome(doc) == Ok::<Option<Seq<Seq<char>>>, (ErrorKind, Seq<char>)>(None),
{
}

/// A successful array of images decodes without failure to the string items
/// alone, in their order; every other item is dropped.
pub proof fn image_lists_keep_only_strings(doc: Json)
    requires
        envelope(doc) is Ok,
        envelope(doc)->Ok_0 is Array,
    ensures
        strings_outcome(doc) == Ok::<Seq<Seq<char>>, (ErrorKind, Seq<char>)>(
            strings_of(envelope(doc)->Ok_0->Array_0@),
        ),
        forall|i: int|
            #![trigger strings_outcome(doc)->Ok_0[i]]
            0 <= i < strings_outcome(doc)->Ok_0.len() ==> exists|j: int|
                0 <= j < envelope(doc)->Ok_0->Array_0@.len() && holds_text(
                    #[trigger] envelope(doc)->Ok_0->Array_0@[j],
                    strings_outcome(doc)->Ok_0[i],
                ),
{
    strings_come_from_items(envelope(doc)->Ok_0->Array_0@);
}

/// A successful catalog object whose members are all arrays gives one entry
/// per member, in order: the breed, absent sub-breeds for an empty array, and
/// otherwise the sub-breeds as listed when they are all strings.
pub proof fn catalog_has_one_entry_per_breed(doc: Json)
    requires
        envelope(doc) is Ok,
        envelope(doc)->Ok_0 is Object,
        forall|i: int|
            0 <= i < envelope(doc)->Ok_0->Object_0@.len() ==> (
            #[trigger] envelope(doc)->Ok_0->Object_0@[i]).1 is Array,
    ensures
        catalog_outcome(doc) is Ok,
        catalog_outcome(doc)->Ok_0.len() == envelope(doc)->Ok_0->Object_0@.len(),
        forall|i: int|
            0 <= i < envelope(doc)->Ok_0->Object_0@.len() ==> {
                let member = #[trigger] envelope(doc)->Ok_0->Object_0@[i];
                let items = member.1->Array_0@;
                &&& catalog_outcome(doc)->Ok_0[i].0 == member.0@
                &&& (items.len() == 0 ==> catalog_outcome(doc)->Ok_0[i].1 is None)
                &&& ((items.len() > 0 && forall|j: int|
                    0 <= j < items.len() ==> #[trigger] items[j] is Str) ==> catalog_outcome(
                    doc,
                )->Ok_0[i].1 == Some(items.map_values(|x: Json| x->Str_0@)))
            },
{
    let members = envelope(doc)->Ok_0->Object_0@;
    catalog_entries(members);
    assert forall|i: int| 0 <= i < members.len() implies {
        let member = #[trigger] members[i];
        let items = member.1->Array_0@;
        (items.len() > 0 && forall|j: int| 0 <= j < items.len() ==> #[trigger] items[j] is Str)
            ==> catalog_outcome(doc)->Ok_0[i].1 == Some(items.map_values(|x: Json| x->Str_0@))
    } by {
        let items = members[i].1->Array_0@;
        if items.len() > 0 && forall|j: int| 0 <= j < items.len() ==> #[trigger] items[j] is Str {
            all_strings_kept(items);
            assert(strings_of(items) =~= items.map_values(|x: Json| x->Str_0@));
        }
    }
}

/// The catalog of members that are all arrays has one entry per member.
proof fn catalog_entries(members: Seq<(String, Json)>)
    requires
        forall|i: int| 0 <= i < members.len() ==> (#[trigger] members[i]).1 is Array,
    ensures
        catalog_of(members).len() == members.len(),
        forall|i: int|
            0 <= i < members.len() ==> #[trigger] catalog_of(members)[i] == (
                members[i].0@,
                sub_breeds_of(members[i].1->Array_0@),
            ),
    decreases members.len(),
{
    if members.len() > 0 {
        let rest = members.drop_last();
        assert forall|i: int| 0 <= i < rest.len() implies (#[trigger] rest[i]).1 is Array by {
            assert(rest[i] == members[i]);
        }
        catalog_entries(rest);
        assert(members.last() == members[members.len() - 1]);
        assert forall|i: int| 0 <= i < members.len() implies #[trigger] catalog_of(members)[i]
            == (members[i].0@, sub_breeds_of(members[i].1->Array_0@)) by {
            if i < rest.len() {
                assert(rest[i] == members[i]);
            }
        }
    }
}

/// A failed envelope with a string message gives an API error with exactly
/// that message, whatever shape of `message` the operation expects on success.
pub proof fn failure_message_is_passed_on(doc: Json)
    requires
        field(doc, "status"@) matches Some(Json::Str(s)) && !is_success(s@),
        field(doc, "message"@) is Some,
        field(doc, "message"@)->Some_0 is Str,
    ensures
        ({
            let e = (ErrorKind::Api, field(doc, "message"@)->Some_0->Str_0@);
            &&& strings_outcome(doc) == Err::<Seq<Seq<char>>, (ErrorKind, Seq<char>)>(e)
            &&& sub_breeds_outcome(doc) == Err::<Option<Seq<Seq<char>>>, (ErrorKind, Seq<char>)>(e)
            &&& catalog_outcome(doc) == Err::<CatalogView, (ErrorKind, Seq<char>)>(e)
        }),
{
}

/// An envelope of varying shape without a message is a decode error with the
/// fallback text, whatever shape of `message` the operation expects on success.
pub proof fn missing_message_is_decode_error(doc: Json)
    requires
        field(doc, "message"@) is None,
    ensures
        ({
            let e = (ErrorKind::Decode, fallback_text());
            &&& strings_outcome(doc) == Err::<Seq<Seq<char>>, (ErrorKind, Seq<char>)>(e)
            &&& sub_breeds_outcome(doc) == Err::<Option<Seq<Seq<char>>>, (ErrorKind, Seq<char>)>(e)
            &&& catalog_outcome(doc) == Err::<CatalogView, (ErrorKind, Seq<char>)>(e)
        }),
{
}

/// Where the typed decode of a fixed envelope fails, a missing `message`
/// among other reasons, the decode error quotes the parser after the fallback
/// text: it is never the fallback text alone.
pub proof fn fixed_failures_quote_the_parser(reason: Seq<char>)
    ensures
        unparsed(reason).0 == ErrorKind::Decode,
        unparsed(reason).1 == fallback_text() + ": "@ + reason,
        unparsed(reason).1 != fallback_text(),
{
    reveal_strlit(": ");
    assert(unparsed(reason).1.len() == fallback_text().len() + 2 + reason.len());
}

/// A value found by `lookup` is the value of one of the members.
proof fn lookup_finds_a_member(members: Seq<(String, Json)>, key: Seq<char>)
    ensures
        lookup(members, key) is Some ==> exists|i: int|
            0 <= i < members.len() && (#[trigger] members[i]).1 == lookup(members, key)->Some_0,
    decreases members.len(),
{
    if members.len() > 0 {
        let rest = members.drop_last();
        lookup_finds_a_member(rest, key);
        if members.last().0@ != key && lookup(rest, key) is Some {
            let i = choose|i: int|
                0 <= i < rest.len() && (#[trigger] rest[i]).1 == lookup(rest, key)->Some_0;
            assert(members[i] == rest[i]);
        } else if members.last().0@ == key {
            assert(members[members.len() - 1] == members.last());
        }
    }
}

/// Each breed of the catalog of an object's members is the key of a member
/// at or before the entry's own position, and no breed comes twice when no
/// key does.
proof fn catalog_keys(members: Seq<(String, Json)>)
    requires
        keys_distinct(members),
    ensures
        breeds_distinct(catalog_of(members)),
        forall|k: int|
            0 <= k < catalog_of(members).len() ==> exists|i: int|
                0 <= i < members.len() && (#[trigger] members[i]).0@ == (
                #[trigger] catalog_of(members)[k]).0,
    decreases members.len(),
{
    if members.len() > 0 {
        let rest = members.drop_last();
        assert forall|i: int, j: int| 0 <= i < j < rest.len() implies (#[trigger] rest[i]).0@
            != (#[trigger] rest[j]).0@ by {
            assert(rest[i] == members[i] && rest[j] == members[j]);
        }
        catalog_keys(rest);
        let c = catalog_of(members);
        let last = members.last();
        assert(last == members[members.len() - 1]);
        assert forall|k: int| 0 <= k < c.len() implies exists|i: int|
            0 <= i < members.len() && (#[trigger] members[i]).0@ == (#[trigger] c[k]).0 by {
            if k < catalog_of(rest).len() {
                let i = choose|i: int|
                    0 <= i < rest.len() && (#[trigger] rest[i]).0@ == (
                    #[trigger] catalog_of(rest)[k]).0;
                assert(members[i] == rest[i]);
            }
        }
        if last.1 is Array {
            assert forall|i: int, j: int| 0 <= i < j < c.len() implies (#[trigger] c[i]).0
                != (#[trigger] c[j]).0 by {
                if j == c.len() - 1 {
                    let m = choose|m: int|
                        0 <= m < rest.len() && (#[trigger] rest[m]).0@ == (
                        #[trigger] catalog_of(rest)[i]).0;
                    assert(members[m] == rest[m]);
                }
            }
        }
    }
}

/// A catalog decoded from a well-formed document names each breed once.
pub proof fn catalog_breeds_are_distinct(doc: Json)
    requires
        well_formed(doc),
    ensures
        catalog_outcome(doc) is Ok ==> breeds_distinct(catalog_outcome(doc)->Ok_0),
{
    if catalog_outcome(doc) is Ok {
        let members = doc->Object_0@;
        lookup_finds_a_member(members, "message"@);
        let i = choose|i: int|
            0 <= i < members.len() && (#[trigger] members[i]).1 == lookup(
                members,
                "message"@,
            )->Some_0;
        assert(well_formed(members[i].1));
        catalog_keys(envelope(doc)->Ok_0->Object_0@);
    }
}

} // verus!
