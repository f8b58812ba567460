//! The shape of a reply, stated on models: which documents stand for a
//! [`ListingResponse`](crate::listing::ListingResponse), and for which one.
//!
//! A record is an object. Members that the record does not name are passed
//! over; a member that it names may occur once. An optional member may be
//! absent or `null`, and both mean "unknown". The members of a record are
//! looked at in the order in which the record declares them, the items of an
//! array in their own order, and the first departure is the one reported.

use crate::error::ShapeError;
use crate::json::{JsonView, NumberView};
use crate::listing::{
    Characteristics, ExtendedListingView, ListingResponseView, LocalizationEntryTextView,
    LocalizationEntryView, LocalizationView, OuterListingView,
};
use crate::schema::Field;
use vstd::prelude::*;

verus! {

/// The members of an object: key and value, in order.
pub type Members = Seq<(Seq<char>, JsonView)>;

/// How often an object holds a key, and what under it.
pub enum Lookup<T> {
    Absent,
    Once(T),
    Repeated,
}

/// Member `i` of `members` exists and has the key `key`.
pub open spec fn holds_key(members: Members, key: Seq<char>, i: int) -> bool {
    0 <= i < members.len() && members[i].0 == key
}

/// What `members` holds under `key`.
pub open spec fn lookup(members: Members, key: Seq<char>) -> Lookup<JsonView> {
    if !exists|i: int| holds_key(members, key, i) {
        Lookup::Absent
    } else if exists|i: int, j: int|
        i != j && holds_key(members, key, i) && holds_key(members, key, j) {
        Lookup::Repeated
    } else {
        Lookup::Once(members[choose|i: int| holds_key(members, key, i)].1)
    }
}

/// A key that no member has is absent.
pub proof fn lemma_lookup_absent(members: Members, key: Seq<char>)
    requires
        forall|j: int| 0 <= j < members.len() ==> (#[trigger] members[j]).0 != key,
    ensures
        lookup(members, key) is Absent,
{
}

/// A key that member `i` has, and no other member, is found once, with the
/// value of member `i`.
pub proof fn lemma_lookup_once(members: Members, i: int)
    requires
        0 <= i < members.len(),
        forall|j: int|
            0 <= j < members.len() && j != i ==> (#[trigger] members[j]).0 != members[i].0,
    ensures
        lookup(members, members[i].0) == Lookup::Once(members[i].1),
{
    let key = members[i].0;
    assert(holds_key(members, key, i));
    let found = choose|k: int| holds_key(members, key, k);
    assert(found == i);
}

/// A key that two members have is repeated.
pub proof fn lemma_lookup_repeated(members: Members, i: int, j: int)
    requires
        0 <= i < j < members.len(),
        members[i].0 == members[j].0,
    ensures
        lookup(members, members[i].0) is Repeated,
{
    let key = members[i].0;
    assert(holds_key(members, key, i) && holds_key(members, key, j));
}

/// The value of a mandatory member.
pub open spec fn required(members: Members, field: Field) -> Result<JsonView, ShapeError> {
    match lookup(members, field.key()) {
        Lookup::Absent => Err(ShapeError::Missing(field)),
        Lookup::Repeated => Err(ShapeError::Repeated(field)),
        Lookup::Once(value) => Ok(value),
    }
}

/// The value of an optional member: `None` where it is absent or `null`.
pub open spec fn optional(members: Members, field: Field) -> Result<Option<JsonView>, ShapeError> {
    match lookup(members, field.key()) {
        Lookup::Absent => Ok(None),
        Lookup::Repeated => Err(ShapeError::Repeated(field)),
        Lookup::Once(JsonView::Null) => Ok(None),
        Lookup::Once(value) => Ok(Some(value)),
    }
}

/// The members of a value that must be an object.
pub open spec fn members_of(value: JsonView, field: Field) -> Result<Members, ShapeError> {
    match value {
        JsonView::Object(members) => Ok(members),
        _ => Err(ShapeError::Mismatch(field)),
    }
}

/// The items of a value that must be an array.
pub open spec fn items_of(value: JsonView, field: Field) -> Result<Seq<JsonView>, ShapeError> {
    match value {
        JsonView::Array(items) => Ok(items),
        _ => Err(ShapeError::Mismatch(field)),
    }
}

/// The characters of a value that must be a string.
pub open spec fn text_of(value: JsonView, field: Field) -> Result<Seq<char>, ShapeError> {
    match value {
        JsonView::Text(text) => Ok(text),
        _ => Err(ShapeError::Mismatch(field)),
    }
}

/// The truth value of a value that must be a boolean.
pub open spec fn bool_of(value: JsonView, field: Field) -> Result<bool, ShapeError> {
    match value {
        JsonView::Bool(b) => Ok(b),
        _ => Err(ShapeError::Mismatch(field)),
    }
}

/// The number of a value that must be an integer from 0 to 4294967295.
pub open spec fn u32_of(value: JsonView, field: Field) -> Result<u32, ShapeError> {
    match value {
        JsonView::Number(NumberView::Unsigned(n)) if n <= u32::MAX => Ok(n as u32),
        _ => Err(ShapeError::Mismatch(field)),
    }
}

/// A mandatory string member.
pub open spec fn required_text(members: Members, field: Field) -> Result<Seq<char>, ShapeError> {
    match required(members, field) {
        Ok(value) => text_of(value, field),
        Err(e) => Err(e),
    }
}

/// An optional string member.
pub open spec fn optional_text(members: Members, field: Field) -> Result<
    Option<Seq<char>>,
    ShapeError,
> {
    match optional(members, field) {
        Ok(Some(value)) => match text_of(value, field) {
            Ok(text) => Ok(Some(text)),
            Err(e) => Err(e),
        },
        Ok(None) => Ok(None),
        Err(e) => Err(e),
    }
}

/// An optional boolean member.
pub open spec fn optional_bool(members: Members, field: Field) -> Result<Option<bool>, ShapeError> {
    match optional(members, field) {
        Ok(Some(value)) => match bool_of(value, field) {
            Ok(b) => Ok(Some(b)),
            Err(e) => Err(e),
        },
        Ok(None) => Ok(None),
        Err(e) => Err(e),
    }
}

/// An optional member that is an integer from 0 to 4294967295.
pub open spec fn optional_u32(members: Members, field: Field) -> Result<Option<u32>, ShapeError> {
    match optional(members, field) {
        Ok(Some(value)) => match u32_of(value, field) {
            Ok(n) => Ok(Some(n)),
            Err(e) => Err(e),
        },
        Ok(None) => Ok(None),
        Err(e) => Err(e),
    }
}

/// The text of a localization entry that `value` stands for.
pub open spec fn entry_text_of(value: JsonView) -> Result<LocalizationEntryTextView, ShapeError> {
    match members_of(value, Field::Text) {
        Err(e) => Err(e),
        Ok(members) => match required_text(members, Field::Title) {
            Err(e) => Err(e),
            Ok(title) => match required_text(members, Field::TextDescription) {
                Err(e) => Err(e),
                Ok(description) => Ok(LocalizationEntryTextView { title, description }),
            },
        },
    }
}

/// The attachments of an entry: the items of the member, each as it is.
pub open spec fn attachments_of(members: Members) -> Result<Seq<JsonView>, ShapeError> {
    match required(members, Field::Attachments) {
        Err(e) => Err(e),
        Ok(value) => items_of(value, Field::Attachments),
    }
}

/// The localization entry that `value` stands for.
pub open spec fn entry_of(value: JsonView) -> Result<LocalizationEntryView, ShapeError> {
    match members_of(value, Field::De) {
        Err(e) => Err(e),
        Ok(members) => match attachments_of(members) {
            Err(e) => Err(e),
            Ok(attachments) => match required(members, Field::Text) {
                Err(e) => Err(e),
                Ok(inner) => match entry_text_of(inner) {
                    Err(e) => Err(e),
                    Ok(text) => Ok(LocalizationEntryView { attachments, text }),
                },
            },
        },
    }
}

/// The optional German entry of a localization.
pub open spec fn optional_entry(members: Members) -> Result<
    Option<LocalizationEntryView>,
    ShapeError,
> {
    match optional(members, Field::De) {
        Err(e) => Err(e),
        Ok(None) => Ok(None),
        Ok(Some(value)) => match entry_of(value) {
            Err(e) => Err(e),
            Ok(entry) => Ok(Some(entry)),
        },
    }
}

/// The localization that `value` stands for.
pub open spec fn localization_of(value: JsonView) -> Result<LocalizationView, ShapeError> {
    match members_of(value, Field::Localization) {
        Err(e) => Err(e),
        Ok(members) => match optional_entry(members) {
            Err(e) => Err(e),
            Ok(de) => match required_text(members, Field::Primary) {
                Err(e) => Err(e),
                Ok(primary) => Ok(LocalizationView { de, primary }),
            },
        },
    }
}

/// The characteristics that `value` stands for.
pub open spec fn characteristics_of(value: JsonView) -> Result<Characteristics, ShapeError> {
    match members_of(value, Field::Characteristics) {
        Err(e) => Err(e),
        Ok(members) => match optional_bool(members, Field::IsOldBuilding) {
            Err(e) => Err(e),
            Ok(is_old_building) => match optional_u32(members, Field::Floor) {
                Err(e) => Err(e),
                Ok(floor) => match optional_bool(members, Field::IsQuiet) {
                    Err(e) => Err(e),
                    Ok(is_quiet) => Ok(Characteristics { is_old_building, floor, is_quiet }),
                },
            },
        },
    }
}

/// The localization member of a listing.
pub open spec fn required_localization(members: Members) -> Result<LocalizationView, ShapeError> {
    match required(members, Field::Localization) {
        Err(e) => Err(e),
        Ok(value) => localization_of(value),
    }
}

/// The characteristics member of a listing.
pub open spec fn required_characteristics(members: Members) -> Result<
    Characteristics,
    ShapeError,
> {
    match required(members, Field::Characteristics) {
        Err(e) => Err(e),
        Ok(value) => characteristics_of(value),
    }
}

/// The listing that `value` stands for.
pub open spec fn listing_of(value: JsonView) -> Result<ExtendedListingView, ShapeError> {
    match members_of(value, Field::Listing) {
        Err(e) => Err(e),
        Ok(members) => match required_localization(members) {
            Err(e) => Err(e),
            Ok(localization) => match required_characteristics(members) {
                Err(e) => Err(e),
                Ok(characteristics) => match optional_text(members, Field::AvailableFrom) {
                    Err(e) => Err(e),
                    Ok(available_from) => match optional_text(members, Field::Description) {
                        Err(e) => Err(e),
                        Ok(description) => Ok(
                            ExtendedListingView {
                                localization,
                                characteristics,
                                available_from,
                                description,
                            },
                        ),
                    },
                },
            },
        },
    }
}

/// The outer listing that an item of `listings` stands for.
pub open spec fn outer_listing_of(value: JsonView) -> Result<OuterListingView, ShapeError> {
    match members_of(value, Field::Listings) {
        Err(e) => Err(e),
        Ok(members) => match required(members, Field::Listing) {
            Err(e) => Err(e),
            Ok(inner) => match listing_of(inner) {
                Err(e) => Err(e),
                Ok(listing) => match required_text(members, Field::Id) {
                    Err(e) => Err(e),
                    Ok(id) => Ok(OuterListingView { listing, id }),
                },
            },
        },
    }
}

/// The listings that `items` stand for, one for one and in order; where an
/// item stands for none, the departure of the first such item.
pub open spec fn listings_of(items: Seq<JsonView>) -> Result<Seq<OuterListingView>, ShapeError>
    decreases items.len(),
{
    if items.len() == 0 {
        Ok(Seq::empty())
    } else {
        match listings_of(items.drop_last()) {
            Err(e) => Err(e),
            Ok(front) => match outer_listing_of(items.last()) {
                Err(e) => Err(e),
                Ok(last) => Ok(front.push(last)),
            },
        }
    }
}

/// One more item: the listings of the first `n + 1` items are those of the
/// first `n`, then what item `n` stands for.
pub proof fn lemma_listings_step(items: Seq<JsonView>, n: int)
    requires
        0 <= n < items.len(),
    ensures
        listings_of(items.take(n + 1)) == match listings_of(items.take(n)) {
            Err(e) => Err::<Seq<OuterListingView>, ShapeError>(e),
            Ok(front) => match outer_listing_of(items[n]) {
                Err(e) => Err(e),
                Ok(last) => Ok(front.push(last)),
            },
        },
{
    assert(items.take(n + 1).drop_last() =~= items.take(n));
}

/// No partial reply: once the first `n` items fail, all of them fail, and
/// with the same departure.
pub proof fn lemma_listings_fail(items: Seq<JsonView>, n: int)
    requires
        0 <= n <= items.len(),
        listings_of(items.take(n)) is Err,
    ensures
        listings_of(items) == listings_of(items.take(n)),
    decreases items.len() - n,
{
    if n < items.len() {
        lemma_listings_step(items, n);
        lemma_listings_fail(items, n + 1);
    } else {
        assert(items.take(n) =~= items);
    }
}

/// The reply that the document `value` stands for.
pub open spec fn listing_response_of(value: JsonView) -> Result<ListingResponseView, ShapeError> {
    match value {
        JsonView::Object(members) => match required(members, Field::Listings) {
            Err(e) => Err(e),
            Ok(inner) => match items_of(inner, Field::Listings) {
                Err(e) => Err(e),
                Ok(items) => match listings_of(items) {
                    Err(e) => Err(e),
                    Ok(listings) => Ok(ListingResponseView { listings }),
                },
            },
        },
        _ => Err(ShapeError::Document),
    }
}

} // verus!
