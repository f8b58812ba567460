//! Writing the records of a reply as a JSON tree: the inverse of decoding.
//!
//! Every member is written, under its wire name and in the order in which
//! its record declares it; an unknown optional member is written as `null`.

use crate::json::{
    items_view, lemma_items_view, lemma_members_view, members_view, JsonNumber, JsonValue,
    JsonView, NumberView,
};
use crate::listing::{
    optional_text_view, Attachment, Characteristics, ExtendedListing, ExtendedListingView, ListingResponse,
    ListingResponseView, Localization, LocalizationEntry, LocalizationEntryText,
    LocalizationEntryTextView, LocalizationEntryView, LocalizationView, OuterListing,
    OuterListingView,
};
use crate::schema::Field;
use vstd::prelude::*;
use vstd::string::*;

verus! {

/// An optional text as a document: the string, or `null`.
pub open spec fn optional_text_json(text: Option<Seq<char>>) -> JsonView {
    match text {
        Some(t) => JsonView::Text(t),
        None => JsonView::Null,
    }
}

/// An optional truth value as a document: the boolean, or `null`.
pub open spec fn optional_bool_json(known: Option<bool>) -> JsonView {
    match known {
        Some(b) => JsonView::Bool(b),
        None => JsonView::Null,
    }
}

/// An optional count as a document: the number, or `null`.
pub open spec fn optional_u32_json(known: Option<u32>) -> JsonView {
    match known {
        Some(n) => JsonView::Number(NumberView::Unsigned(n as u64)),
        None => JsonView::Null,
    }
}

/// The document of an entry's text.
pub open spec fn entry_text_json(text: LocalizationEntryTextView) -> JsonView {
    JsonView::Object(
        seq![
            (Field::Title.key(), JsonView::Text(text.title)),
            (Field::TextDescription.key(), JsonView::Text(text.description)),
        ],
    )
}

/// The document of a localization entry.
pub open spec fn entry_json(entry: LocalizationEntryView) -> JsonView {
    JsonView::Object(
        seq![
            (Field::Attachments.key(), JsonView::Array(entry.attachments)),
            (Field::Text.key(), entry_text_json(entry.text)),
        ],
    )
}

/// The document of an optional localization entry: the entry, or `null`.
pub open spec fn optional_entry_json(entry: Option<LocalizationEntryView>) -> JsonView {
    match entry {
        Some(e) => entry_json(e),
        None => JsonView::Null,
    }
}

/// The document of a localization.
pub open spec fn localization_json(localization: LocalizationView) -> JsonView {
    JsonView::Object(
        seq![
            (Field::De.key(), optional_entry_json(localization.de)),
            (Field::Primary.key(), JsonView::Text(localization.primary)),
        ],
    )
}

/// The document of the characteristics.
pub open spec fn characteristics_json(characteristics: Characteristics) -> JsonView {
    JsonView::Object(
        seq![
            (Field::IsOldBuilding.key(), optional_bool_json(characteristics.is_old_building)),
            (Field::Floor.key(), optional_u32_json(characteristics.floor)),
            (Field::IsQuiet.key(), optional_bool_json(characteristics.is_quiet)),
        ],
    )
}

/// The document of a listing.
pub open spec fn listing_json(listing: ExtendedListingView) -> JsonView {
    JsonView::Object(
        seq![
            (Field::Localization.key(), localization_json(listing.localization)),
            (Field::Characteristics.key(), characteristics_json(listing.characteristics)),
            (Field::AvailableFrom.key(), optional_text_json(listing.available_from)),
            (Field::Description.key(), optional_text_json(listing.description)),
        ],
    )
}

/// The document of a listing with its identifier.
pub open spec fn outer_listing_json(outer: OuterListingView) -> JsonView {
    JsonView::Object(
        seq![
            (Field::Listing.key(), listing_json(outer.listing)),
            (Field::Id.key(), JsonView::Text(outer.id)),
        ],
    )
}

/// The documents of the listings, one for one and in order.
pub open spec fn listings_json(listings: Seq<OuterListingView>) -> Seq<JsonView> {
    listings.map_values(|outer: OuterListingView| outer_listing_json(outer))
}

/// The document of a reply.
pub open spec fn listing_response_json(response: ListingResponseView) -> JsonView {
    JsonView::Object(
        seq![(Field::Listings.key(), JsonView::Array(listings_json(response.listings)))],
    )
}

/// A member: the wire name of `field` with `value`.
fn member(field: Field, value: JsonValue) -> (out: (String, JsonValue))
    ensures
        out.0@ == field.key(),
        out.1@ == value@,
{
    (String::from_str(field.wire_name()), value)
}

/// Writes an optional text: the string, or `null`.
pub fn encode_optional_text(text: &Option<String>) -> (out: JsonValue)
    ensures
        out@ == optional_text_json(optional_text_view(*text)),
{
    match text {
        Some(t) => JsonValue::Text(t.clone()),
        None => JsonValue::Null,
    }
}

/// Writes an optional truth value: the boolean, or `null`.
pub fn encode_optional_bool(known: Option<bool>) -> (out: JsonValue)
    ensures
        out@ == optional_bool_json(known),
{
    match known {
        Some(b) => JsonValue::Bool(b),
        None => JsonValue::Null,
    }
}

/// Writes an optional count: the number, or `null`.
pub fn encode_optional_u32(known: Option<u32>) -> (out: JsonValue)
    ensures
        out@ == optional_u32_json(known),
{
    match known {
        Some(n) => JsonValue::Number(JsonNumber::Unsigned(n as u64)),
        None => JsonValue::Null,
    }
}

/// Writes the text of a localization entry.
pub fn encode_entry_text(text: &LocalizationEntryText) -> (out: JsonValue)
    ensures
        out@ == entry_text_json(text@),
{
    let mut members: Vec<(String, JsonValue)> = Vec::new();
    members.push(member(Field::Title, JsonValue::Text(text.title.clone())));
    members.push(member(Field::TextDescription, JsonValue::Text(text.description.clone())));
    proof {
        lemma_members_view(members);
        assert(members_view(members) =~= entry_text_json(text@)->Object_0);
    }
    JsonValue::Object(members)
}

/// Writes the attachments of an entry: each as the document that it keeps.
pub fn encode_attachments(attachments: &Vec<Attachment>) -> (out: JsonValue)
    ensures
        out@ == JsonView::Array(attachments@.map_values(|a: Attachment| a@)),
{
    let mut items: Vec<JsonValue> = Vec::new();
    let mut i: usize = 0;
    while i < attachments.len()
        invariant
            i <= attachments.len(),
            items.len() == i,
            forall|k: int| 0 <= k < i ==> (#[trigger] items[k])@ == attachments[k]@,
        decreases attachments.len() - i,
    {
        items.push(attachments[i].value.clone());
        i += 1;
    }
    proof {
        lemma_items_view(items);
        assert(items_view(items) =~= attachments@.map_values(|a: Attachment| a@));
    }
    JsonValue::Array(items)
}

/// Writes a localization entry.
pub fn encode_entry(entry: &LocalizationEntry) -> (out: JsonValue)
    ensures
        out@ == entry_json(entry@),
{
    let mut members: Vec<(String, JsonValue)> = Vec::new();
    members.push(member(Field::Attachments, encode_attachments(&entry.attachments)));
    members.push(member(Field::Text, encode_entry_text(&entry.text)));
    proof {
        lemma_members_view(members);
        assert(members_view(members) =~= entry_json(entry@)->Object_0);
    }
    JsonValue::Object(members)
}

/// Writes a localization.
pub fn encode_localization(localization: &Localization) -> (out: JsonValue)
    ensures
        out@ == localization_json(localization@),
{
    let de = match &localization.de {
        Some(entry) => encode_entry(entry),
        None => JsonValue::Null,
    };
    let mut members: Vec<(String, JsonValue)> = Vec::new();
    members.push(member(Field::De, de));
    members.push(member(Field::Primary, JsonValue::Text(localization.primary.clone())));
    proof {
        lemma_members_view(members);
        assert(members_view(members) =~= localization_json(localization@)->Object_0);
    }
    JsonValue::Object(members)
}

/// Writes the characteristics.
pub fn encode_characteristics(characteristics: &Characteristics) -> (out: JsonValue)
    ensures
        out@ == characteristics_json(*characteristics),
{
    let mut members: Vec<(String, JsonValue)> = Vec::new();
    members.push(
        member(Field::IsOldBuilding, encode_optional_bool(characteristics.is_old_building)),
    );
    members.push(member(Field::Floor, encode_optional_u32(characteristics.floor)));
    members.push(member(Field::IsQuiet, encode_optional_bool(characteristics.is_quiet)));
    proof {
        lemma_members_view(members);
        assert(members_view(members) =~= characteristics_json(*characteristics)->Object_0);
    }
    JsonValue::Object(members)
}

/// Writes what is known of one listing.
pub fn encode_listing(listing: &ExtendedListing) -> (out: JsonValue)
    ensures
        out@ == listing_json(listing@),
{
    let mut members: Vec<(String, JsonValue)> = Vec::new();
    members.push(member(Field::Localization, encode_localization(&listing.localization)));
    members.push(
        member(Field::Characteristics, encode_characteristics(&listing.characteristics)),
    );
    members.push(member(Field::AvailableFrom, encode_optional_text(&listing.available_from)));
    members.push(member(Field::Description, encode_optional_text(&listing.description)));
    proof {
        lemma_members_view(members);
        assert(members_view(members) =~= listing_json(listing@)->Object_0);
    }
    JsonValue::Object(members)
}

/// Writes a listing with its identifier.
pub fn encode_outer_listing(outer: &OuterListing) -> (out: JsonValue)
    ensures
        out@ == outer_listing_json(outer@),
{
    let mut members: Vec<(String, JsonValue)> = Vec::new();
    members.push(member(Field::Listing, encode_listing(&outer.listing)));
    members.push(member(Field::Id, JsonValue::Text(outer.id.clone())));
    proof {
        lemma_members_view(members);
        assert(members_view(members) =~= outer_listing_json(outer@)->Object_0);
    }
    JsonValue::Object(members)
}

/// Writes a reply as a document: the inverse of
/// [`decode_listing_response`](crate::decode::decode_listing_response).
pub fn encode_listing_response(response: &ListingResponse) -> (out: JsonValue)
    ensures
        out@ == listing_response_json(response@),
{
    let mut items: Vec<JsonValue> = Vec::new();
    let mut i: usize = 0;
    while i < response.listings.len()
        invariant
            i <= response.listings.len(),
            items.len() == i,
            forall|k: int|
                0 <= k < i ==> (#[trigger] items[k])@ == outer_listing_json(
                    response.listings[k]@,
                ),
        decreases response.listings.len() - i,
    {
        items.push(encode_outer_listing(&response.listings[i]));
        i += 1;
    }
    let mut members: Vec<(String, JsonValue)> = Vec::new();
    members.push(member(Field::Listings, JsonValue::Array(items)));
    proof {
        lemma_items_view(items);
        assert(items_view(items) =~= listings_json(response@.listings));
        lemma_members_view(members);
        assert(members_view(members) =~= listing_response_json(response@)->Object_0);
    }
    JsonValue::Object(members)
}

} // verus!
