//! A small client-side library for a real-estate listing backend: it builds
//! the request address for a set of listing identifiers and decodes the JSON
//! reply into typed records.
//!
//! A call has three steps, of which this library holds the first and the
//! last; the one in between, the GET itself, is the caller's:
//!
//! 1. [`request::listings_url`] gives the address for the identifiers;
//! 2. the caller sends the request and reads the body;
//! 3. [`listings_from_reply`] turns the body, or the transport's failure,
//!    into a [`ListingResponse`] or a [`ClientError`].
//!
//! [`parse_listing_result`] is step 3 for a body already at hand. What a
//! document must look like is said in [`shape`] and [`conformance`];
//! [`decode`] reads a document by it and [`encode`] writes one, and
//! [`roundtrip`] shows that reading undoes writing.

pub mod client;
pub mod conformance;
pub mod decode;
pub mod encode;
pub mod error;
pub mod json;
pub mod json_text;
pub mod listing;
pub mod request;
pub mod roundtrip;
pub mod schema;
pub mod shape;

pub use client::{listings_from_reply, parse_listing_result};
pub use error::{ClientError, DecodeCause, ShapeError};
pub use json::{JsonNumber, JsonValue};
pub use listing::{
    Attachment, Characteristics, ExtendedListing, ListingResponse, Localization,
    LocalizationEntry, LocalizationEntryText, OuterListing,
};
pub use schema::Field;
