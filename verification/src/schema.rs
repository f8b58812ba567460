//! The table of wire names: every member of the reply's records, and the key
//! under which a document holds it.

use vstd::prelude::*;

verus! {

/// A member of one of the reply's records.
#[derive(Debug, Clone, Copy, PartialEq, Eq, Structural)]
pub enum Field {
    /// `listings` of the envelope.
    Listings,
    /// `listing` of an outer listing.
    Listing,
    /// `id` of an outer listing.
    Id,
    /// `localization` of a listing.
    Localization,
    /// `characteristics` of a listing.
    Characteristics,
    /// `available_from` of a listing.
    AvailableFrom,
    /// `description` of a listing.
    Description,
    /// `is_old_building` of the characteristics.
    IsOldBuilding,
    /// `floor` of the characteristics.
    Floor,
    /// `is_quiet` of the characteristics.
    IsQuiet,
    /// `de` of a localization.
    De,
    /// `primary` of a localization.
    Primary,
    /// `attachments` of a localization entry.
    Attachments,
    /// `text` of a localization entry.
    Text,
    /// `title` of an entry's text.
    Title,
    /// `description` of an entry's text.
    TextDescription,
}

impl Field {
    /// The key of the member in a document: its name in lower camel case.
    pub open spec fn key(self) -> Seq<char> {
        match self {
            Field::Listings => "listings"@,
            Field::Listing => "listing"@,
            Field::Id => "id"@,
            Field::Localization => "localization"@,
            Field::Characteristics => "characteristics"@,
            Field::AvailableFrom => "availableFrom"@,
            Field::Description => "description"@,
            Field::IsOldBuilding => "isOldBuilding"@,
            Field::Floor => "floor"@,
            Field::IsQuiet => "isQuiet"@,
            Field::De => "de"@,
            Field::Primary => "primary"@,
            Field::Attachments => "attachments"@,
            Field::Text => "text"@,
            Field::Title => "title"@,
            Field::TextDescription => "description"@,
        }
    }

    /// The key of the member as text.
    pub fn wire_name(self) -> (name: &'static str)
        ensures
            name@ == self.key(),
    {
        match self {
            Field::Listings => "listings",
            Field::Listing => "listing",
            Field::Id => "id",
            Field::Localization => "localization",
            Field::Characteristics => "characteristics",
            Field::AvailableFrom => "availableFrom",
            Field::Description => "description",
            Field::IsOldBuilding => "isOldBuilding",
            Field::Floor => "floor",
            Field::IsQuiet => "isQuiet",
            Field::De => "de",
            Field::Primary => "primary",
            Field::Attachments => "attachments",
            Field::Text => "text",
            Field::Title => "title",
            Field::TextDescription => "description",
        }
    }

    /// The number of characters of each key.
    pub proof fn lemma_key_len(self)
        ensures
            self.key().len() == match self {
                Field::Listings => 8nat,
                Field::Listing => 7,
                Field::Id => 2,
                Field::Localization => 12,
                Field::Characteristics => 15,
                Field::AvailableFrom => 13,
                Field::Description => 11,
                Field::IsOldBuilding => 13,
                Field::Floor => 5,
                Field::IsQuiet => 7,
                Field::De => 2,
                Field::Primary => 7,
                Field::Attachments => 11,
                Field::Text => 4,
                Field::Title => 5,
                Field::TextDescription => 11,
            },
    {
        reveal_strlit("listings");
        reveal_strlit("listing");
        reveal_strlit("id");
        reveal_strlit("localization");
        reveal_strlit("characteristics");
        reveal_strlit("availableFrom");
        reveal_strlit("description");
        reveal_strlit("isOldBuilding");
        reveal_strlit("floor");
        reveal_strlit("isQuiet");
        reveal_strlit("de");
        reveal_strlit("primary");
        reveal_strlit("attachments");
        reveal_strlit("text");
        reveal_strlit("title");
    }
}

} // verus!
