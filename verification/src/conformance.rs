//! Which documents have the shape of a reply, said member by member, and what
//! decoding owes to those that have it and to those that do not.

use crate::error::ShapeError;
use crate::json::{JsonView, NumberView};
use crate::listing::{
    ExtendedListingView, ListingResponseView, LocalizationEntryTextView, LocalizationEntryView,
    OuterListingView,
};
use crate::schema::Field;
use crate::shape::{
    characteristics_of, entry_of, entry_text_of, lemma_listings_fail, lemma_listings_step,
    listing_of, listing_response_of, listings_of, localization_of, lookup, outer_listing_of,
    Lookup, Members,
};
use vstd::prelude::*;

verus! {

/// `field` occurs once and holds a string.
pub open spec fn has_text(members: Members, field: Field) -> bool {
    lookup(members, field.key()) matches Lookup::Once(JsonView::Text(_))
}

/// `field` is absent or `null`: its value is unknown.
pub open spec fn is_unknown(members: Members, field: Field) -> bool {
    match lookup(members, field.key()) {
        Lookup::Absent => true,
        Lookup::Once(JsonView::Null) => true,
        _ => false,
    }
}

/// `field` is unknown, or occurs once and holds a string.
pub open spec fn may_have_text(members: Members, field: Field) -> bool {
    is_unknown(members, field) || has_text(members, field)
}

/// `field` is unknown, or occurs once and holds a boolean.
pub open spec fn may_have_bool(members: Members, field: Field) -> bool {
    is_unknown(members, field) || lookup(members, field.key()) matches Lookup::Once(
        JsonView::Bool(_),
    )
}

/// `field` is unknown, or occurs once and holds an integer from 0 to
/// 4294967295.
pub open spec fn may_have_u32(members: Members, field: Field) -> bool {
    is_unknown(members, field) || (lookup(members, field.key()) matches Lookup::Once(
        JsonView::Number(NumberView::Unsigned(n)),
    ) && n <= u32::MAX)
}

/// The document has the shape of an entry's text.
pub open spec fn is_entry_text(value: JsonView) -> bool {
    value matches JsonView::Object(members) && has_text(members, Field::Title) && has_text(
        members,
        Field::TextDescription,
    )
}

/// The document has the shape of a localization entry.
pub open spec fn is_entry(value: JsonView) -> bool {
    value matches JsonView::Object(members) && (lookup(members, Field::Attachments.key())
        matches Lookup::Once(JsonView::Array(_))) && (lookup(members, Field::Text.key())
        matches Lookup::Once(text) && is_entry_text(text))
}

/// The document has the shape of a localization.
pub open spec fn is_localization(value: JsonView) -> bool {
    value matches JsonView::Object(members) && (is_unknown(members, Field::De) || (lookup(
        members,
        Field::De.key(),
    ) matches Lookup::Once(entry) && is_entry(entry))) && has_text(members, Field::Primary)
}

/// The document has the shape of the characteristics.
pub open spec fn is_characteristics(value: JsonView) -> bool {
    value matches JsonView::Object(members) && may_have_bool(members, Field::IsOldBuilding)
        && may_have_u32(members, Field::Floor) && may_have_bool(members, Field::IsQuiet)
}

/// The document has the shape of a listing.
pub open spec fn is_listing(value: JsonView) -> bool {
    value matches JsonView::Object(members) && (lookup(members, Field::Localization.key())
        matches Lookup::Once(localization) && is_localization(localization)) && (lookup(
        members,
        Field::Characteristics.key(),
    ) matches Lookup::Once(characteristics) && is_characteristics(characteristics))
        && may_have_text(members, Field::AvailableFrom) && may_have_text(
        members,
        Field::Description,
    )
}

/// The document has the shape of a listing with its identifier.
pub open spec fn is_outer_listing(value: JsonView) -> bool {
    value matches JsonView::Object(members) && (lookup(members, Field::Listing.key())
        matches Lookup::Once(listing) && is_listing(listing)) && has_text(members, Field::Id)
}

/// The listing objects of a document: the items of its `listings`, where it
/// has that member once and as an array.
pub open spec fn listing_objects(value: JsonView) -> Option<Seq<JsonView>> {
    match value {
        JsonView::Object(members) => match lookup(members, Field::Listings.key()) {
            Lookup::Once(JsonView::Array(items)) => Some(items),
            _ => None,
        },
        _ => None,
    }
}

/// The document has the shape of a reply.
pub open spec fn is_listing_response(value: JsonView) -> bool {
    listing_objects(value) matches Some(items) && forall|i: int|
        0 <= i < items.len() ==> is_outer_listing(#[trigger] items[i])
}

/// An entry's text is decoded exactly where the document has its shape.
pub proof fn lemma_entry_text_decodes(value: JsonView)
    ensures
        entry_text_of(value) is Ok <==> is_entry_text(value),
{
}

/// A localization entry is decoded exactly where the document has its shape.
pub proof fn lemma_entry_decodes(value: JsonView)
    ensures
        entry_of(value) is Ok <==> is_entry(value),
{
    if let JsonView::Object(members) = value {
        if let Lookup::Once(text) = lookup(members, Field::Text.key()) {
            lemma_entry_text_decodes(text);
        }
    }
}

/// A localization is decoded exactly where the document has its shape.
pub proof fn lemma_localization_decodes(value: JsonView)
    ensures
        localization_of(value) is Ok <==> is_localization(value),
{
    if let JsonView::Object(members) = value {
        if let Lookup::Once(entry) = lookup(members, Field::De.key()) {
            lemma_entry_decodes(entry);
        }
    }
}

/// Characteristics are decoded exactly where the document has their shape.
pub proof fn lemma_characteristics_decodes(value: JsonView)
    ensures
        characteristics_of(value) is Ok <==> is_characteristics(value),
{
}

/// A listing is decoded exactly where the document has its shape.
pub proof fn lemma_listing_decodes(value: JsonView)
    ensures
        listing_of(value) is Ok <==> is_listing(value),
{
    if let JsonView::Object(members) = value {
        if let Lookup::Once(localization) = lookup(members, Field::Localization.key()) {
            lemma_localization_decodes(localization);
        }
        if let Lookup::Once(characteristics) = lookup(members, Field::Characteristics.key()) {
            lemma_characteristics_decodes(characteristics);
        }
    }
}

/// A listing with its identifier is decoded exactly where the document has
/// its shape.
pub proof fn lemma_outer_listing_decodes(value: JsonView)
    ensures
        outer_listing_of(value) is Ok <==> is_outer_listing(value),
{
    if let JsonView::Object(members) = value {
        if let Lookup::Once(listing) = lookup(members, Field::Listing.key()) {
            lemma_listing_decodes(listing);
        }
    }
}

/// The items are decoded exactly where each has the shape of a listing, and
/// then to as many listings as there are items.
pub proof fn lemma_listings_decode(items: Seq<JsonView>)
    ensures
        listings_of(items) is Ok <==> forall|i: int|
            0 <= i < items.len() ==> is_outer_listing(#[trigger] items[i]),
        listings_of(items) matches Ok(listings) ==> listings.len() == items.len(),
    decreases items.len(),
{
    if items.len() > 0 {
        let front = items.drop_last();
        lemma_listings_decode(front);
        lemma_outer_listing_decodes(items.last());
        if listings_of(items) is Ok {
            assert forall|i: int| 0 <= i < items.len() implies is_outer_listing(
                #[trigger] items[i],
            ) by {
                if i < items.len() - 1 {
                    assert(front[i] == items[i]);
                }
            }
        }
        if forall|i: int| 0 <= i < items.len() ==> is_outer_listing(#[trigger] items[i]) {
            assert forall|i: int| 0 <= i < front.len() implies is_outer_listing(
                #[trigger] front[i],
            ) by {
                assert(front[i] == items[i]);
            }
        }
    }
}

/// A document is decoded exactly where it has the shape of a reply, and then
/// to as many listings as the document has listing objects.
pub proof fn lemma_listing_response_decodes(value: JsonView)
    ensures
        listing_response_of(value) is Ok <==> is_listing_response(value),
        listing_response_of(value) matches Ok(response) ==> listing_objects(value) matches Some(
            items,
        ) && response.listings.len() == items.len(),
{
    if let Some(items) = listing_objects(value) {
        lemma_listings_decode(items);
    }
}

/// `value` is an object without the member `field`.
pub open spec fn lacks(value: JsonView, field: Field) -> bool {
    value matches JsonView::Object(members) && lookup(members, field.key()) is Absent
}

/// A record without one of its mandatory members is refused: nothing stands
/// in for the member. Where the member is the first that the record declares,
/// the departure reported is that it is missing.
pub proof fn lemma_missing_member_is_refused(value: JsonView)
    ensures
        lacks(value, Field::Listings) ==> listing_response_of(value) == Err::<
            ListingResponseView,
            ShapeError,
        >(ShapeError::Missing(Field::Listings)),
        lacks(value, Field::Listing) ==> outer_listing_of(value) == Err::<
            OuterListingView,
            ShapeError,
        >(ShapeError::Missing(Field::Listing)),
        lacks(value, Field::Id) ==> outer_listing_of(value) is Err,
        lacks(value, Field::Localization) ==> listing_of(value) == Err::<
            ExtendedListingView,
            ShapeError,
        >(ShapeError::Missing(Field::Localization)),
        lacks(value, Field::Characteristics) ==> listing_of(value) is Err,
        lacks(value, Field::Primary) ==> localization_of(value) is Err,
        lacks(value, Field::Attachments) ==> entry_of(value) == Err::<
            LocalizationEntryView,
            ShapeError,
        >(ShapeError::Missing(Field::Attachments)),
        lacks(value, Field::Text) ==> entry_of(value) is Err,
        lacks(value, Field::Title) ==> entry_text_of(value) == Err::<
            LocalizationEntryTextView,
            ShapeError,
        >(ShapeError::Missing(Field::Title)),
        lacks(value, Field::TextDescription) ==> entry_text_of(value) is Err,
{
}

/// An optional member is decoded to `None` exactly where the document leaves
/// it out or holds `null` for it: never to `false`, zero or an empty text.
pub proof fn lemma_unknown_stays_unknown(value: JsonView)
    ensures
        characteristics_of(value) matches Ok(known) ==> value matches JsonView::Object(members)
            && (known.is_old_building is None <==> is_unknown(members, Field::IsOldBuilding))
            && (known.floor is None <==> is_unknown(members, Field::Floor)) && (known.is_quiet
            is None <==> is_unknown(members, Field::IsQuiet)),
        listing_of(value) matches Ok(listing) ==> value matches JsonView::Object(members) && (
        listing.available_from is None <==> is_unknown(members, Field::AvailableFrom)) && (
        listing.description is None <==> is_unknown(members, Field::Description)),
        localization_of(value) matches Ok(localization) ==> value matches JsonView::Object(
            members,
        ) && (localization.de is None <==> is_unknown(members, Field::De)),
{
}

/// No partial reply: one item that stands for no listing fails the whole
/// sequence.
pub proof fn lemma_one_bad_listing_fails_all(items: Seq<JsonView>, i: int)
    requires
        0 <= i < items.len(),
        outer_listing_of(items[i]) is Err,
    ensures
        listings_of(items) is Err,
{
    lemma_listings_step(items, i);
    lemma_listings_fail(items, i + 1);
}

} // verus!
