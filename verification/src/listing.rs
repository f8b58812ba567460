//! The records of a listing reply, and the mathematical model of each.

use crate::json::{JsonValue, JsonView};
use vstd::prelude::*;

verus! {

/// The envelope of a reply: the listings in the order of the document.
#[derive(Debug, Clone, PartialEq)]
pub struct ListingResponse {
    pub listings: Vec<OuterListing>,
}

/// A listing together with its identifier.
#[derive(Debug, Clone, PartialEq)]
pub struct OuterListing {
    pub listing: ExtendedListing,
    pub id: String,
}

/// What is known of one listing.
#[derive(Debug, Clone, PartialEq)]
pub struct ExtendedListing {
    pub localization: Localization,
    pub characteristics: Characteristics,
    pub available_from: Option<String>,
    pub description: Option<String>,
}

/// Physical traits of a listing. `None` means unknown, never `false` or zero.
#[derive(Debug, Clone, Copy, PartialEq, Eq, Structural)]
pub struct Characteristics {
    pub is_old_building: Option<bool>,
    pub floor: Option<u32>,
    pub is_quiet: Option<bool>,
}

/// The texts and media of a listing by locale.
#[derive(Debug, Clone, PartialEq)]
pub struct Localization {
    pub de: Option<LocalizationEntry>,
    pub primary: String,
}

/// The bundle of one locale.
#[derive(Debug, Clone, PartialEq)]
pub struct LocalizationEntry {
    pub attachments: Vec<Attachment>,
    pub text: LocalizationEntryText,
}

/// Title and description in one locale.
#[derive(Debug, Clone, PartialEq, Eq)]
pub struct LocalizationEntryText {
    pub title: String,
    pub description: String,
}

/// A media reference. Its form belongs to the media side, so the document's
/// value is kept as it came.
#[derive(Debug, Clone, PartialEq)]
pub struct Attachment {
    pub value: JsonValue,
}

/// Model of [`ListingResponse`].
pub struct ListingResponseView {
    pub listings: Seq<OuterListingView>,
}

/// Model of [`OuterListing`].
pub struct OuterListingView {
    pub listing: ExtendedListingView,
    pub id: Seq<char>,
}

/// Model of [`ExtendedListing`].
pub struct ExtendedListingView {
    pub localization: LocalizationView,
    pub characteristics: Characteristics,
    pub available_from: Option<Seq<char>>,
    pub description: Option<Seq<char>>,
}

/// Model of [`Localization`].
pub struct LocalizationView {
    pub de: Option<LocalizationEntryView>,
    pub primary: Seq<char>,
}

/// Model of [`LocalizationEntry`]: each attachment stands for its document.
pub struct LocalizationEntryView {
    pub attachments: Seq<JsonView>,
    pub text: LocalizationEntryTextView,
}

/// Model of [`LocalizationEntryText`].
pub struct LocalizationEntryTextView {
    pub title: Seq<char>,
    pub description: Seq<char>,
}

/// The characters of an optional text.
pub open spec fn optional_text_view(text: Option<String>) -> Option<Seq<char>> {
    match text {
        Some(t) => Some(t@),
        None => None,
    }
}

impl View for Attachment {
    type V = JsonView;

    open spec fn view(&self) -> JsonView {
        self.value@
    }
}

impl View for LocalizationEntryText {
    type V = LocalizationEntryTextView;

    open spec fn view(&self) -> LocalizationEntryTextView {
        LocalizationEntryTextView { title: self.title@, description: self.description@ }
    }
}

impl View for LocalizationEntry {
    type V = LocalizationEntryView;

    open spec fn view(&self) -> LocalizationEntryView {
        LocalizationEntryView {
            attachments: self.attachments@.map_values(|a: Attachment| a@),
            text: self.text@,
        }
    }
}

impl View for Localization {
    type V = LocalizationView;

    open spec fn view(&self) -> LocalizationView {
        LocalizationView {
            de: match self.de {
                Some(entry) => Some(entry@),
                None => None,
            },
            primary: self.primary@,
        }
    }
}

impl View for ExtendedListing {
    type V = ExtendedListingView;

    open spec fn view(&self) -> ExtendedListingView {
        ExtendedListingView {
            localization: self.localization@,
            characteristics: self.characteristics,
            available_from: optional_text_view(self.available_from),
            description: optional_text_view(self.description),
        }
    }
}

impl View for OuterListing {
    type V = OuterListingView;

    open spec fn view(&self) -> OuterListingView {
        OuterListingView { listing: self.listing@, id: self.id@ }
    }
}

impl View for ListingResponse {
    type V = ListingResponseView;

    open spec fn view(&self) -> ListingResponseView {
        ListingResponseView { listings: self.listings@.map_values(|l: OuterListing| l@) }
    }
}

} // verus!
