//! Why a reply could not be had or read.

use crate::schema::Field;
use vstd::prelude::*;

verus! {

/// Where a well-formed JSON document departs from the shape of a reply.
#[derive(Debug, Clone, Copy, PartialEq, Eq, Structural)]
pub enum ShapeError {
    /// The document itself is not an object.
    Document,
    /// A mandatory member is absent.
    Missing(Field),
    /// A member of a record occurs more than once.
    Repeated(Field),
    /// A member holds a value of the wrong kind. For `listings` this is also
    /// said of an item that is no object.
    Mismatch(Field),
}

/// Why a text could not be decoded.
#[derive(Debug, Clone, PartialEq, Eq)]
pub enum DecodeCause {
    /// The text is not JSON; the parser's message says where and why.
    Syntax(String),
    /// The text is JSON of another shape.
    Shape(ShapeError),
}

/// The failure of a call. Either kind ends the call: nothing is retried and
/// no part of a reply is returned.
#[derive(Debug, Clone, PartialEq, Eq)]
pub enum ClientError {
    /// The transport failed; the text is its report of the cause.
    Network(String),
    /// The body could not be decoded; `text` is the body as received.
    Decode { cause: DecodeCause, text: String },
}

} // verus!
