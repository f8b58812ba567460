use listing_client::decode::{
    decode_characteristics, decode_entry, decode_entry_text, decode_listing,
    decode_listing_response, decode_localization, decode_outer_listing, find,
};
use listing_client::encode::{
    encode_characteristics, encode_listing, encode_listing_response, encode_outer_listing,
};
use listing_client::shape::Lookup;
use listing_client::{
    parse_listing_result, Attachment, Characteristics, ExtendedListing, Field, JsonNumber,
    JsonValue, ListingResponse, Localization, LocalizationEntry, LocalizationEntryText,
    OuterListing, ShapeError,
};

fn text(s: &str) -> JsonValue {
    JsonValue::Text(String::from(s))
}

fn object(members: Vec<(&str, JsonValue)>) -> JsonValue {
    JsonValue::Object(members.into_iter().map(|(k, v)| (String::from(k), v)).collect())
}

fn number(n: u64) -> JsonValue {
    JsonValue::Number(JsonNumber::Unsigned(n))
}

fn full_listing() -> OuterListing {
    OuterListing {
        listing: ExtendedListing {
            localization: Localization {
                de: Some(LocalizationEntry {
                    attachments: vec![
                        Attachment { value: object(vec![("url", text("https://m.example/1"))]) },
                        Attachment { value: JsonValue::Number(JsonNumber::Real(String::from("2.5"))) },
                    ],
                    text: LocalizationEntryText {
                        title: String::from("Titel"),
                        description: String::from("Beschreibung"),
                    },
                }),
                primary: String::from("de"),
            },
            characteristics: Characteristics {
                is_old_building: Some(false),
                floor: Some(12),
                is_quiet: None,
            },
            available_from: Some(String::from("2025-01-01")),
            description: None,
        },
        id: String::from("A1"),
    }
}

fn bare_listing(id: &str) -> OuterListing {
    OuterListing {
        listing: ExtendedListing {
            localization: Localization { de: None, primary: String::from("en") },
            characteristics: Characteristics { is_old_building: None, floor: None, is_quiet: None },
            available_from: None,
            description: None,
        },
        id: String::from(id),
    }
}

fn to_outside(value: &JsonValue) -> serde_json::Value {
    match value {
        JsonValue::Null => serde_json::Value::Null,
        JsonValue::Bool(b) => serde_json::Value::Bool(*b),
        JsonValue::Number(JsonNumber::Unsigned(n)) => serde_json::Value::Number((*n).into()),
        JsonValue::Number(JsonNumber::Signed(n)) => serde_json::Value::Number((*n).into()),
        JsonValue::Number(JsonNumber::Real(t)) => {
            serde_json::Value::Number(serde_json::from_str(t).unwrap())
        }
        JsonValue::Text(t) => serde_json::Value::String(t.clone()),
        JsonValue::Array(items) => serde_json::Value::Array(items.iter().map(to_outside).collect()),
        JsonValue::Object(members) => serde_json::Value::Object(
            members.iter().map(|(k, v)| (k.clone(), to_outside(v))).collect(),
        ),
    }
}

#[test]
fn find_tells_absent_once_and_repeated_apart() {
    let members = vec![
        (String::from("id"), text("a")),
        (String::from("listing"), JsonValue::Null),
        (String::from("id"), text("b")),
    ];
    assert!(matches!(find(&members, Field::Id), Lookup::Repeated));
    assert!(matches!(find(&members, Field::Listing), Lookup::Once(JsonValue::Null)));
    assert!(matches!(find(&members, Field::Listings), Lookup::Absent));
    assert!(matches!(find(&vec![], Field::Id), Lookup::Absent));
}

#[test]
fn find_goes_by_the_whole_key() {
    let members = vec![
        (String::from("listings"), JsonValue::Null),
        (String::from("Listing"), JsonValue::Null),
        (String::from("listin"), JsonValue::Null),
        (String::from("listing"), JsonValue::Bool(true)),
    ];
    assert!(matches!(find(&members, Field::Listing), Lookup::Once(JsonValue::Bool(true))));
}

#[test]
fn a_member_given_twice_is_refused() {
    let doc = object(vec![("title", text("a")), ("description", text("d")), ("title", text("b"))]);
    assert_eq!(decode_entry_text(&doc), Err(ShapeError::Repeated(Field::Title)));
    let doc = object(vec![("floor", number(1)), ("floor", JsonValue::Null)]);
    assert_eq!(decode_characteristics(&doc), Err(ShapeError::Repeated(Field::Floor)));
    let doc = object(vec![("listings", JsonValue::Array(vec![])), ("listings", JsonValue::Array(vec![]))]);
    assert_eq!(decode_listing_response(&doc), Err(ShapeError::Repeated(Field::Listings)));
}

#[test]
fn a_member_that_no_record_names_may_be_given_twice() {
    let doc = object(vec![("x", text("a")), ("title", text("t")), ("x", text("b")), ("description", text("d"))]);
    assert_eq!(
        decode_entry_text(&doc),
        Ok(LocalizationEntryText { title: String::from("t"), description: String::from("d") })
    );
}

#[test]
fn records_are_decoded_from_objects_only() {
    assert_eq!(decode_entry_text(&JsonValue::Null), Err(ShapeError::Mismatch(Field::Text)));
    assert_eq!(decode_entry(&JsonValue::Array(vec![])), Err(ShapeError::Mismatch(Field::De)));
    assert_eq!(decode_localization(&text("de")), Err(ShapeError::Mismatch(Field::Localization)));
    assert_eq!(
        decode_characteristics(&JsonValue::Bool(true)),
        Err(ShapeError::Mismatch(Field::Characteristics))
    );
    assert_eq!(decode_listing(&number(1)), Err(ShapeError::Mismatch(Field::Listing)));
    assert_eq!(decode_outer_listing(&JsonValue::Null), Err(ShapeError::Mismatch(Field::Listings)));
    assert_eq!(decode_listing_response(&JsonValue::Array(vec![])), Err(ShapeError::Document));
}

#[test]
fn a_number_below_zero_or_with_a_fraction_is_no_floor() {
    let with_floor = |n: JsonNumber| object(vec![("floor", JsonValue::Number(n))]);
    assert_eq!(
        decode_characteristics(&with_floor(JsonNumber::Unsigned(4294967295))),
        Ok(Characteristics { is_old_building: None, floor: Some(4294967295), is_quiet: None })
    );
    assert_eq!(
        decode_characteristics(&with_floor(JsonNumber::Unsigned(4294967296))),
        Err(ShapeError::Mismatch(Field::Floor))
    );
    assert_eq!(
        decode_characteristics(&with_floor(JsonNumber::Signed(-1))),
        Err(ShapeError::Mismatch(Field::Floor))
    );
    assert_eq!(
        decode_characteristics(&with_floor(JsonNumber::Real(String::from("1.0")))),
        Err(ShapeError::Mismatch(Field::Floor))
    );
}

#[test]
fn characteristics_are_written_member_by_member() {
    let known = Characteristics { is_old_building: Some(true), floor: Some(4), is_quiet: None };
    assert_eq!(
        encode_characteristics(&known),
        object(vec![
            ("isOldBuilding", JsonValue::Bool(true)),
            ("floor", number(4)),
            ("isQuiet", JsonValue::Null),
        ])
    );
}

#[test]
fn a_listing_is_written_in_the_order_of_its_members() {
    let outer = bare_listing("9");
    assert_eq!(
        encode_outer_listing(&outer),
        object(vec![
            (
                "listing",
                object(vec![
                    ("localization", object(vec![("de", JsonValue::Null), ("primary", text("en"))])),
                    (
                        "characteristics",
                        object(vec![
                            ("isOldBuilding", JsonValue::Null),
                            ("floor", JsonValue::Null),
                            ("isQuiet", JsonValue::Null),
                        ])
                    ),
                    ("availableFrom", JsonValue::Null),
                    ("description", JsonValue::Null),
                ])
            ),
            ("id", text("9")),
        ])
    );
}

#[test]
fn an_entry_is_written_with_its_attachments_as_they_are() {
    let listing = full_listing().listing;
    let written = encode_listing(&listing);
    let expected_entry = object(vec![
        (
            "attachments",
            JsonValue::Array(vec![
                object(vec![("url", text("https://m.example/1"))]),
                JsonValue::Number(JsonNumber::Real(String::from("2.5"))),
            ]),
        ),
        ("text", object(vec![("title", text("Titel")), ("description", text("Beschreibung"))])),
    ]);
    match written {
        JsonValue::Object(members) => match &members[0].1 {
            JsonValue::Object(localization) => {
                assert_eq!(localization[0], (String::from("de"), expected_entry))
            }
            other => panic!("expected an object, got {:?}", other),
        },
        other => panic!("expected an object, got {:?}", other),
    }
}

#[test]
fn decoding_undoes_encoding() {
    let response = ListingResponse {
        listings: vec![full_listing(), bare_listing("B2"), full_listing()],
    };
    let document = encode_listing_response(&response);
    assert_eq!(decode_listing_response(&document), Ok(response));
}

#[test]
fn decoding_undoes_encoding_of_an_empty_reply() {
    let response = ListingResponse { listings: vec![] };
    let document = encode_listing_response(&response);
    assert_eq!(document, object(vec![("listings", JsonValue::Array(vec![]))]));
    assert_eq!(decode_listing_response(&document), Ok(response));
}

#[test]
fn a_reply_survives_the_way_through_text() {
    let response = ListingResponse { listings: vec![full_listing(), bare_listing("B2")] };
    let written = serde_json::to_string(&to_outside(&encode_listing_response(&response))).unwrap();
    assert_eq!(parse_listing_result(&written), Ok(response));
}

#[test]
fn a_decoded_reply_is_written_back_to_an_equal_reply() {
    let text = r#"{"listings":[{"id":"1","extra":true,"listing":{"description":"d","characteristics":{"floor":2},"localization":{"primary":"de","de":{"text":{"description":"d","title":"t"},"attachments":[{"a":[1,2.5,-7]}]}}}}]}"#;
    let first = parse_listing_result(text).unwrap();
    let written = serde_json::to_string(&to_outside(&encode_listing_response(&first))).unwrap();
    assert_eq!(
        written,
        r#"{"listings":[{"listing":{"localization":{"de":{"attachments":[{"a":[1,2.5,-7]}],"text":{"title":"t","description":"d"}},"primary":"de"},"characteristics":{"isOldBuilding":null,"floor":2,"isQuiet":null},"availableFrom":null,"description":"d"},"id":"1"}]}"#
    );
    assert_eq!(parse_listing_result(&written).unwrap(), first);
}

#[test]
fn a_copy_of_a_document_is_equal_to_it() {
    let document = encode_listing_response(&ListingResponse { listings: vec![full_listing()] });
    assert_eq!(document.clone(), document);
    let n = JsonNumber::Real(String::from("1e9"));
    assert_eq!(n.clone(), n);
}

#[test]
fn each_member_has_its_wire_name() {
    let names = [
        (Field::Listings, "listings"),
        (Field::Listing, "listing"),
        (Field::Id, "id"),
        (Field::Localization, "localization"),
        (Field::Characteristics, "characteristics"),
        (Field::AvailableFrom, "availableFrom"),
        (Field::Description, "description"),
        (Field::IsOldBuilding, "isOldBuilding"),
        (Field::Floor, "floor"),
        (Field::IsQuiet, "isQuiet"),
        (Field::De, "de"),
        (Field::Primary, "primary"),
        (Field::Attachments, "attachments"),
        (Field::Text, "text"),
        (Field::Title, "title"),
        (Field::TextDescription, "description"),
    ];
    for (field, name) in names {
        assert_eq!(field.wire_name(), name);
    }
}
