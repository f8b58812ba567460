//! Decoding undoes encoding, record by record.

use crate::encode::{
    characteristics_json, entry_json, entry_text_json, listing_json, listing_response_json,
    listings_json, localization_json, outer_listing_json,
};
use crate::error::ShapeError;
use crate::listing::{
    Characteristics, ExtendedListingView, ListingResponseView, LocalizationEntryTextView,
    LocalizationEntryView, LocalizationView, OuterListingView,
};
use crate::schema::Field;
use crate::shape::{
    characteristics_of, entry_of, entry_text_of, lemma_lookup_once, listing_of,
    listing_response_of, listings_of, localization_of, outer_listing_of,
};
use vstd::prelude::*;

verus! {

/// The text of an entry, written as a document and decoded, is itself.
pub proof fn lemma_entry_text_roundtrip(text: LocalizationEntryTextView)
    ensures
        entry_text_of(entry_text_json(text)) == Ok::<LocalizationEntryTextView, ShapeError>(text),
{
    let members = entry_text_json(text)->Object_0;
    Field::Title.lemma_key_len();
    Field::TextDescription.lemma_key_len();
    lemma_lookup_once(members, 0);
    lemma_lookup_once(members, 1);
}

/// A localization entry, written as a document and decoded, is itself.
pub proof fn lemma_entry_roundtrip(entry: LocalizationEntryView)
    ensures
        entry_of(entry_json(entry)) == Ok::<LocalizationEntryView, ShapeError>(entry),
{
    let members = entry_json(entry)->Object_0;
    Field::Attachments.lemma_key_len();
    Field::Text.lemma_key_len();
    lemma_lookup_once(members, 0);
    lemma_lookup_once(members, 1);
    lemma_entry_text_roundtrip(entry.text);
}

/// A localization, written as a document and decoded, is itself.
pub proof fn lemma_localization_roundtrip(localization: LocalizationView)
    ensures
        localization_of(localization_json(localization)) == Ok::<LocalizationView, ShapeError>(
            localization,
        ),
{
    let members = localization_json(localization)->Object_0;
    Field::De.lemma_key_len();
    Field::Primary.lemma_key_len();
    lemma_lookup_once(members, 0);
    lemma_lookup_once(members, 1);
    if let Some(entry) = localization.de {
        lemma_entry_roundtrip(entry);
    }
}

/// Characteristics, written as a document and decoded, are themselves.
pub proof fn lemma_characteristics_roundtrip(characteristics: Characteristics)
    ensures
        characteristics_of(characteristics_json(characteristics)) == Ok::<
            Characteristics,
            ShapeError,
        >(characteristics),
{
    let members = characteristics_json(characteristics)->Object_0;
    Field::IsOldBuilding.lemma_key_len();
    Field::Floor.lemma_key_len();
    Field::IsQuiet.lemma_key_len();
    lemma_lookup_once(members, 0);
    lemma_lookup_once(members, 1);
    lemma_lookup_once(members, 2);
}

/// A listing, written as a document and decoded, is itself.
pub proof fn lemma_listing_roundtrip(listing: ExtendedListingView)
    ensures
        listing_of(listing_json(listing)) == Ok::<ExtendedListingView, ShapeError>(listing),
{
    let members = listing_json(listing)->Object_0;
    Field::Localization.lemma_key_len();
    Field::Characteristics.lemma_key_len();
    Field::AvailableFrom.lemma_key_len();
    Field::Description.lemma_key_len();
    lemma_lookup_once(members, 0);
    lemma_lookup_once(members, 1);
    lemma_lookup_once(members, 2);
    lemma_lookup_once(members, 3);
    lemma_localization_roundtrip(listing.localization);
    lemma_characteristics_roundtrip(listing.characteristics);
}

/// A listing with its identifier, written as a document and decoded, is
/// itself.
pub proof fn lemma_outer_listing_roundtrip(outer: OuterListingView)
    ensures
        outer_listing_of(outer_listing_json(outer)) == Ok::<OuterListingView, ShapeError>(outer),
{
    let members = outer_listing_json(outer)->Object_0;
    Field::Listing.lemma_key_len();
    Field::Id.lemma_key_len();
    lemma_lookup_once(members, 0);
    lemma_lookup_once(members, 1);
    lemma_listing_roundtrip(outer.listing);
}

/// Listings, written as documents and decoded, are themselves, in the same
/// order.
pub proof fn lemma_listings_roundtrip(listings: Seq<OuterListingView>)
    ensures
        listings_of(listings_json(listings)) == Ok::<Seq<OuterListingView>, ShapeError>(listings),
    decreases listings.len(),
{
    if listings.len() > 0 {
        let front = listings.drop_last();
        lemma_listings_roundtrip(front);
        lemma_outer_listing_roundtrip(listings.last());
        assert(listings_json(listings).drop_last() =~= listings_json(front));
        assert(front.push(listings.last()) =~= listings);
    } else {
        assert(listings =~= Seq::empty());
    }
}

/// Encoding a reply and decoding the document again gives the same reply,
/// member for member.
pub proof fn lemma_listing_response_roundtrip(response: ListingResponseView)
    ensures
        listing_response_of(listing_response_json(response)) == Ok::<
            ListingResponseView,
            ShapeError,
        >(response),
{
    let members = listing_response_json(response)->Object_0;
    lemma_lookup_once(members, 0);
    lemma_listings_roundtrip(response.listings);
}

} // verus!
