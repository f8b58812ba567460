//! The two ends of a call: from the text of a reply to its records.

use crate::conformance::{is_listing_response, listing_objects};
use crate::decode::decode_listing_response;
use crate::error::{ClientError, DecodeCause};
use crate::json_text::{json_document, read_json};
use crate::listing::ListingResponse;
use crate::shape::listing_response_of;
use vstd::prelude::*;
use vstd::string::*;

verus! {

/// Decodes the text of a reply.
///
/// The text must be one JSON document that stands for a reply; a text that
/// is no JSON and a document of another shape both end in
/// [`ClientError::Decode`], which keeps the text as received.
pub fn parse_listing_result(text: &str) -> (out: Result<ListingResponse, ClientError>)
    ensures
        match json_document(text@) {
            None => out matches Err(ClientError::Decode { cause: DecodeCause::Syntax(_), text: kept })
                && kept@ == text@,
            Some(document) => match listing_response_of(document) {
                Ok(response) => out matches Ok(held) && held@ == response,
                Err(e) => out matches Err(
                    ClientError::Decode { cause: DecodeCause::Shape(why), text: kept },
                ) && why == e && kept@ == text@,
            },
        },
        out is Ok <==> (json_document(text@) matches Some(document) && is_listing_response(
            document,
        )),
        out matches Ok(held) ==> json_document(text@) matches Some(document) && listing_objects(
            document,
        ) matches Some(items) && held.listings.len() == items.len(),
{
    match read_json(text) {
        Err(message) => Err(
            ClientError::Decode { cause: DecodeCause::Syntax(message), text: String::from_str(text) },
        ),
        Ok(document) => match decode_listing_response(&document) {
            Ok(response) => Ok(response),
            Err(e) => Err(
                ClientError::Decode { cause: DecodeCause::Shape(e), text: String::from_str(text) },
            ),
        },
    }
}

/// Turns the outcome of the transport into the outcome of the call: a
/// transport failure becomes [`ClientError::Network`] with its report, a body
/// is decoded by [`parse_listing_result`].
pub fn listings_from_reply(reply: Result<String, String>) -> (out: Result<
    ListingResponse,
    ClientError,
>)
    ensures
        match reply {
            Err(report) => out matches Err(ClientError::Network(cause)) && cause@ == report@,
            Ok(body) => match json_document(body@) {
                None => out matches Err(
                    ClientError::Decode { cause: DecodeCause::Syntax(_), text: kept },
                ) && kept@ == body@,
                Some(document) => match listing_response_of(document) {
                    Ok(response) => out matches Ok(held) && held@ == response,
                    Err(e) => out matches Err(
                        ClientError::Decode { cause: DecodeCause::Shape(why), text: kept },
                    ) && why == e && kept@ == body@,
                },
            },
        },
{
    match reply {
        Err(report) => Err(ClientError::Network(report)),
        Ok(body) => parse_listing_result(body.as_str()),
    }
}

} // verus!
