//! Decoding a JSON tree into the records of a reply.

use crate::conformance::{is_listing_response, lemma_listing_response_decodes, listing_objects};
use crate::error::ShapeError;
use crate::json::{
    items_view, lemma_items_view, lemma_members_view, members_view, JsonNumber, JsonValue,
};
use crate::listing::{
    optional_text_view, Attachment, Characteristics, ExtendedListing, ListingResponse,
    Localization, LocalizationEntry, LocalizationEntryText, OuterListing, OuterListingView,
};
use crate::schema::Field;
use crate::shape::{
    attachments_of, bool_of, characteristics_of, entry_of, entry_text_of, holds_key, items_of,
    lemma_listings_fail, lemma_listings_step, listing_of, listing_response_of, listings_of,
    localization_of, lookup, members_of, optional, optional_bool, optional_text, optional_u32,
    outer_listing_of, required, required_text, text_of, u32_of, Lookup,
};
use vstd::prelude::*;
use vstd::string::*;

verus! {

/// Looks `field` up among the members of an object.
pub fn find<'a>(members: &'a Vec<(String, JsonValue)>, field: Field) -> (found: Lookup<
    &'a JsonValue,
>)
    ensures
        match lookup(members_view(*members), field.key()) {
            Lookup::Absent => found is Absent,
            Lookup::Repeated => found is Repeated,
            Lookup::Once(value) => found matches Lookup::Once(held) && held@ == value,
        },
{
    let key = String::from_str(field.wire_name());
    let ghost all = members_view(*members);
    proof {
        lemma_members_view(*members);
    }
    let mut at: Option<usize> = None;
    let mut i: usize = 0;
    while i < members.len()
        invariant
            i <= members.len(),
            key@ == field.key(),
            all == members_view(*members),
            all.len() == members.len(),
            forall|k: int| 0 <= k < members.len() ==> (#[trigger] all[k]) == (members[k].0@, members[k].1@),
            match at {
                None => forall|k: int| 0 <= k < i ==> !holds_key(all, key@, k),
                Some(first) => first < i && holds_key(all, key@, first as int) && forall|k: int|
                    0 <= k < i && k != first ==> !holds_key(all, key@, k),
            },
        decreases members.len() - i,
    {
        if members[i].0 == key {
            match at {
                Some(first) => {
                    assert(holds_key(all, key@, first as int) && holds_key(all, key@, i as int));
                    return Lookup::Repeated;
                },
                None => {
                    at = Some(i);
                },
            }
        }
        i += 1;
    }
    match at {
        None => Lookup::Absent,
        Some(first) => {
            assert(holds_key(all, key@, first as int));
            Lookup::Once(&members[first].1)
        },
    }
}

/// The value of a mandatory member.
pub fn required_member<'a>(members: &'a Vec<(String, JsonValue)>, field: Field) -> (out: Result<
    &'a JsonValue,
    ShapeError,
>)
    ensures
        match required(members_view(*members), field) {
            Ok(value) => out matches Ok(held) && held@ == value,
            Err(e) => out == Err::<&JsonValue, ShapeError>(e),
        },
{
    match find(members, field) {
        Lookup::Absent => Err(ShapeError::Missing(field)),
        Lookup::Repeated => Err(ShapeError::Repeated(field)),
        Lookup::Once(value) => Ok(value),
    }
}

/// The value of an optional member: `None` where it is absent or `null`.
pub fn optional_member<'a>(members: &'a Vec<(String, JsonValue)>, field: Field) -> (out: Result<
    Option<&'a JsonValue>,
    ShapeError,
>)
    ensures
        match optional(members_view(*members), field) {
            Ok(Some(value)) => out matches Ok(Some(held)) && held@ == value,
            Ok(None) => out == Ok::<Option<&JsonValue>, ShapeError>(None),
            Err(e) => out == Err::<Option<&JsonValue>, ShapeError>(e),
        },
{
    match find(members, field) {
        Lookup::Absent => Ok(None),
        Lookup::Repeated => Err(ShapeError::Repeated(field)),
        Lookup::Once(JsonValue::Null) => Ok(None),
        Lookup::Once(value) => Ok(Some(value)),
    }
}

/// The members of a value that must be an object.
pub fn members_in<'a>(value: &'a JsonValue, field: Field) -> (out: Result<
    &'a Vec<(String, JsonValue)>,
    ShapeError,
>)
    ensures
        match members_of(value@, field) {
            Ok(members) => out matches Ok(held) && members_view(*held) == members,
            Err(e) => out == Err::<&Vec<(String, JsonValue)>, ShapeError>(e),
        },
{
    match value {
        JsonValue::Object(members) => {
            proof {
                lemma_members_view(*members);
            }
            Ok(members)
        },
        _ => Err(ShapeError::Mismatch(field)),
    }
}

/// The items of a value that must be an array.
pub fn items_in<'a>(value: &'a JsonValue, field: Field) -> (out: Result<
    &'a Vec<JsonValue>,
    ShapeError,
>)
    ensures
        match items_of(value@, field) {
            Ok(items) => out matches Ok(held) && items_view(*held) == items,
            Err(e) => out == Err::<&Vec<JsonValue>, ShapeError>(e),
        },
{
    match value {
        JsonValue::Array(items) => {
            proof {
                lemma_items_view(*items);
            }
            Ok(items)
        },
        _ => Err(ShapeError::Mismatch(field)),
    }
}

/// The characters of a value that must be a string.
pub fn text_in(value: &JsonValue, field: Field) -> (out: Result<String, ShapeError>)
    ensures
        match text_of(value@, field) {
            Ok(text) => out matches Ok(held) && held@ == text,
            Err(e) => out == Err::<String, ShapeError>(e),
        },
{
    match value {
        JsonValue::Text(text) => Ok(text.clone()),
        _ => Err(ShapeError::Mismatch(field)),
    }
}

/// The truth value of a value that must be a boolean.
pub fn bool_in(value: &JsonValue, field: Field) -> (out: Result<bool, ShapeError>)
    ensures
        out == bool_of(value@, field),
{
    match value {
        JsonValue::Bool(b) => Ok(*b),
        _ => Err(ShapeError::Mismatch(field)),
    }
}

/// The number of a value that must be an integer from 0 to 4294967295.
pub fn u32_in(value: &JsonValue, field: Field) -> (out: Result<u32, ShapeError>)
    ensures
        out == u32_of(value@, field),
{
    match value {
        JsonValue::Number(JsonNumber::Unsigned(n)) => {
            if *n <= 0xffff_ffffu64 {
                Ok(*n as u32)
            } else {
                Err(ShapeError::Mismatch(field))
            }
        },
        _ => Err(ShapeError::Mismatch(field)),
    }
}

/// A mandatory string member.
pub fn required_text_member(members: &Vec<(String, JsonValue)>, field: Field) -> (out: Result<
    String,
    ShapeError,
>)
    ensures
        match required_text(members_view(*members), field) {
            Ok(text) => out matches Ok(held) && held@ == text,
            Err(e) => out == Err::<String, ShapeError>(e),
        },
{
    match required_member(members, field) {
        Ok(value) => text_in(value, field),
        Err(e) => Err(e),
    }
}

/// An optional string member.
pub fn optional_text_member(members: &Vec<(String, JsonValue)>, field: Field) -> (out: Result<
    Option<String>,
    ShapeError,
>)
    ensures
        match optional_text(members_view(*members), field) {
            Ok(text) => out matches Ok(held) && optional_text_view(held) == text,
            Err(e) => out == Err::<Option<String>, ShapeError>(e),
        },
{
    match optional_member(members, field) {
        Ok(Some(value)) => match text_in(value, field) {
            Ok(text) => Ok(Some(text)),
            Err(e) => Err(e),
        },
        Ok(None) => Ok(None),
        Err(e) => Err(e),
    }
}

/// An optional boolean member.
pub fn optional_bool_member(members: &Vec<(String, JsonValue)>, field: Field) -> (out: Result<
    Option<bool>,
    ShapeError,
>)
    ensures
        out == optional_bool(members_view(*members), field),
{
    match optional_member(members, field) {
        Ok(Some(value)) => match bool_in(value, field) {
            Ok(b) => Ok(Some(b)),
            Err(e) => Err(e),
        },
        Ok(None) => Ok(None),
        Err(e) => Err(e),
    }
}

/// An optional member that is an integer from 0 to 4294967295.
pub fn optional_u32_member(members: &Vec<(String, JsonValue)>, field: Field) -> (out: Result<
    Option<u32>,
    ShapeError,
>)
    ensures
        out == optional_u32(members_view(*members), field),
{
    match optional_member(members, field) {
        Ok(Some(value)) => match u32_in(value, field) {
            Ok(n) => Ok(Some(n)),
            Err(e) => Err(e),
        },
        Ok(None) => Ok(None),
        Err(e) => Err(e),
    }
}

/// Decodes the text of a localization entry.
pub fn decode_entry_text(value: &JsonValue) -> (out: Result<LocalizationEntryText, ShapeError>)
    ensures
        match entry_text_of(value@) {
            Ok(text) => out matches Ok(held) && held@ == text,
            Err(e) => out == Err::<LocalizationEntryText, ShapeError>(e),
        },
{
    let members = match members_in(value, Field::Text) {
        Ok(members) => members,
        Err(e) => return Err(e),
    };
    let title = match required_text_member(members, Field::Title) {
        Ok(title) => title,
        Err(e) => return Err(e),
    };
    let description = match required_text_member(members, Field::TextDescription) {
        Ok(description) => description,
        Err(e) => return Err(e),
    };
    Ok(LocalizationEntryText { title, description })
}

/// Decodes the characteristics of a listing.
pub fn decode_characteristics(value: &JsonValue) -> (out: Result<Characteristics, ShapeError>)
    ensures
        out == characteristics_of(value@),
{
    let members = match members_in(value, Field::Characteristics) {
        Ok(members) => members,
        Err(e) => return Err(e),
    };
    let is_old_building = match optional_bool_member(members, Field::IsOldBuilding) {
        Ok(known) => known,
        Err(e) => return Err(e),
    };
    let floor = match optional_u32_member(members, Field::Floor) {
        Ok(known) => known,
        Err(e) => return Err(e),
    };
    let is_quiet = match optional_bool_member(members, Field::IsQuiet) {
        Ok(known) => known,
        Err(e) => return Err(e),
    };
    Ok(Characteristics { is_old_building, floor, is_quiet })
}

/// Reads the attachments of a localization entry: each item is kept as it is.
pub fn attachments_member(members: &Vec<(String, JsonValue)>) -> (out: Result<
    Vec<Attachment>,
    ShapeError,
>)
    ensures
        match attachments_of(members_view(*members)) {
            Ok(items) => out matches Ok(held) && held@.map_values(|a: Attachment| a@) == items,
            Err(e) => out == Err::<Vec<Attachment>, ShapeError>(e),
        },
{
    let value = match required_member(members, Field::Attachments) {
        Ok(value) => value,
        Err(e) => return Err(e),
    };
    let items = match items_in(value, Field::Attachments) {
        Ok(items) => items,
        Err(e) => return Err(e),
    };
    let mut attachments: Vec<Attachment> = Vec::new();
    let mut i: usize = 0;
    proof {
        lemma_items_view(*items);
    }
    while i < items.len()
        invariant
            i <= items.len(),
            attachments.len() == i,
            forall|k: int| 0 <= k < i ==> (#[trigger] attachments[k])@ == items[k]@,
        decreases items.len() - i,
    {
        attachments.push(Attachment { value: items[i].clone() });
        i += 1;
    }
    assert(attachments@.map_values(|a: Attachment| a@) =~= items_view(*items));
    Ok(attachments)
}

/// Decodes a localization entry.
pub fn decode_entry(value: &JsonValue) -> (out: Result<LocalizationEntry, ShapeError>)
    ensures
        match entry_of(value@) {
            Ok(entry) => out matches Ok(held) && held@ == entry,
            Err(e) => out == Err::<LocalizationEntry, ShapeError>(e),
        },
{
    let members = match members_in(value, Field::De) {
        Ok(members) => members,
        Err(e) => return Err(e),
    };
    let attachments = match attachments_member(members) {
        Ok(attachments) => attachments,
        Err(e) => return Err(e),
    };
    let inner = match required_member(members, Field::Text) {
        Ok(inner) => inner,
        Err(e) => return Err(e),
    };
    let text = match decode_entry_text(inner) {
        Ok(text) => text,
        Err(e) => return Err(e),
    };
    Ok(LocalizationEntry { attachments, text })
}

/// Decodes the localization of a listing.
pub fn decode_localization(value: &JsonValue) -> (out: Result<Localization, ShapeError>)
    ensures
        match localization_of(value@) {
            Ok(localization) => out matches Ok(held) && held@ == localization,
            Err(e) => out == Err::<Localization, ShapeError>(e),
        },
{
    let members = match members_in(value, Field::Localization) {
        Ok(members) => members,
        Err(e) => return Err(e),
    };
    let de = match optional_member(members, Field::De) {
        Ok(Some(inner)) => match decode_entry(inner) {
            Ok(entry) => Some(entry),
            Err(e) => return Err(e),
        },
        Ok(None) => None,
        Err(e) => return Err(e),
    };
    let primary = match required_text_member(members, Field::Primary) {
        Ok(primary) => primary,
        Err(e) => return Err(e),
    };
    Ok(Localization { de, primary })
}

/// Decodes what is known of one listing.
pub fn decode_listing(value: &JsonValue) -> (out: Result<ExtendedListing, ShapeError>)
    ensures
        match listing_of(value@) {
            Ok(listing) => out matches Ok(held) && held@ == listing,
            Err(e) => out == Err::<ExtendedListing, ShapeError>(e),
        },
{
    let members = match members_in(value, Field::Listing) {
        Ok(members) => members,
        Err(e) => return Err(e),
    };
    let localization = match required_member(members, Field::Localization) {
        Ok(inner) => match decode_localization(inner) {
            Ok(localization) => localization,
            Err(e) => return Err(e),
        },
        Err(e) => return Err(e),
    };
    let characteristics = match required_member(members, Field::Characteristics) {
        Ok(inner) => match decode_characteristics(inner) {
            Ok(characteristics) => characteristics,
            Err(e) => return Err(e),
        },
        Err(e) => return Err(e),
    };
    let available_from = match optional_text_member(members, Field::AvailableFrom) {
        Ok(text) => text,
        Err(e) => return Err(e),
    };
    let description = match optional_text_member(members, Field::Description) {
        Ok(text) => text,
        Err(e) => return Err(e),
    };
    Ok(ExtendedListing { localization, characteristics, available_from, description })
}

/// Decodes one item of `listings`: a listing with its identifier.
pub fn decode_outer_listing(value: &JsonValue) -> (out: Result<OuterListing, ShapeError>)
    ensures
        match outer_listing_of(value@) {
            Ok(outer) => out matches Ok(held) && held@ == outer,
            Err(e) => out == Err::<OuterListing, ShapeError>(e),
        },
{
    let members = match members_in(value, Field::Listings) {
        Ok(members) => members,
        Err(e) => return Err(e),
    };
    let inner = match required_member(members, Field::Listing) {
        Ok(inner) => inner,
        Err(e) => return Err(e),
    };
    let listing = match decode_listing(inner) {
        Ok(listing) => listing,
        Err(e) => return Err(e),
    };
    let id = match required_text_member(members, Field::Id) {
        Ok(id) => id,
        Err(e) => return Err(e),
    };
    Ok(OuterListing { listing, id })
}

/// Decodes the items of `listings` in order, and stops at the first that
/// stands for no listing.
pub fn decode_listings(items: &Vec<JsonValue>) -> (out: Result<Vec<OuterListing>, ShapeError>)
    ensures
        match listings_of(items_view(*items)) {
            Ok(listings) => out matches Ok(held) && held@.map_values(|l: OuterListing| l@)
                == listings,
            Err(e) => out == Err::<Vec<OuterListing>, ShapeError>(e),
        },
{
    let ghost all = items_view(*items);
    proof {
        lemma_items_view(*items);
    }
    let mut listings: Vec<OuterListing> = Vec::new();
    let mut i: usize = 0;
    proof {
        assert(all.take(0).len() == 0);
        assert(listings@.map_values(|l: OuterListing| l@) =~= Seq::empty());
    }
    while i < items.len()
        invariant
            i <= items.len(),
            all == items_view(*items),
            all.len() == items.len(),
            forall|k: int| 0 <= k < items.len() ==> (#[trigger] all[k]) == items[k]@,
            listings_of(all.take(i as int)) == Ok::<Seq<OuterListingView>, ShapeError>(
                listings@.map_values(|l: OuterListing| l@),
            ),
        decreases items.len() - i,
    {
        proof {
            lemma_listings_step(all, i as int);
        }
        match decode_outer_listing(&items[i]) {
            Ok(outer) => {
                let ghost before = listings@.map_values(|l: OuterListing| l@);
                listings.push(outer);
                assert(listings@.map_values(|l: OuterListing| l@) =~= before.push(outer@));
            },
            Err(e) => {
                proof {
                    lemma_listings_fail(all, i as int + 1);
                }
                return Err(e);
            },
        }
        i += 1;
    }
    assert(all.take(i as int) =~= all);
    Ok(listings)
}

/// Decodes a document into the reply that it stands for.
///
/// The call succeeds exactly on the documents that have the shape of a
/// reply, with one listing for each listing object and in the same order.
pub fn decode_listing_response(value: &JsonValue) -> (out: Result<ListingResponse, ShapeError>)
    ensures
        match listing_response_of(value@) {
            Ok(response) => out matches Ok(held) && held@ == response,
            Err(e) => out == Err::<ListingResponse, ShapeError>(e),
        },
        out is Ok <==> is_listing_response(value@),
        out matches Ok(held) ==> listing_objects(value@) matches Some(items) && held.listings.len()
            == items.len(),
{
    proof {
        lemma_listing_response_decodes(value@);
    }
    let members = match value {
        JsonValue::Object(members) => members,
        _ => return Err(ShapeError::Document),
    };
    proof {
        lemma_members_view(*members);
    }
    let inner = match required_member(members, Field::Listings) {
        Ok(inner) => inner,
        Err(e) => return Err(e),
    };
    let items = match items_in(inner, Field::Listings) {
        Ok(items) => items,
        Err(e) => return Err(e),
    };
    let listings = match decode_listings(items) {
        Ok(listings) => listings,
        Err(e) => return Err(e),
    };
    Ok(ListingResponse { listings })
}

} // verus!
