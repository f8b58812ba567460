use listing_client::{
    listings_from_reply, parse_listing_result, Attachment, Characteristics, ClientError,
    DecodeCause, Field, JsonNumber, JsonValue, ListingResponse, LocalizationEntryText,
    ShapeError,
};

const TWO_LISTINGS: &str = r#"{
  "listings": [
    {
      "id": "3002335392",
      "listing": {
        "localization": {
          "primary": "de",
          "de": {
            "attachments": [
              {"type": "IMAGE", "url": "https://media.example/1.jpg"},
              {"type": "DOCUMENT", "url": "https://media.example/plan.pdf"}
            ],
            "text": {"title": "Helle Altbauwohnung", "description": "Drei Zimmer, ruhig gelegen."}
          }
        },
        "characteristics": {"isOldBuilding": true, "floor": 3, "isQuiet": false},
        "availableFrom": "2024-03-01",
        "description": "Bright flat"
      }
    },
    {
      "id": "3002335393",
      "listing": {
        "localization": {"primary": "fr"},
        "characteristics": {}
      }
    }
  ]
}"#;

fn one_listing(localization: &str, characteristics: &str, rest: &str) -> String {
    format!(
        r#"{{"listings":[{{"id":"7","listing":{{"localization":{},"characteristics":{}{}}}}}]}}"#,
        localization, characteristics, rest
    )
}

fn shape_failure(text: &str) -> ShapeError {
    match parse_listing_result(text) {
        Err(ClientError::Decode { cause: DecodeCause::Shape(why), text: kept }) => {
            assert_eq!(kept, text);
            why
        }
        other => panic!("expected a shape failure, got {:?}", other),
    }
}

fn syntax_failure(text: &str) -> String {
    match parse_listing_result(text) {
        Err(ClientError::Decode { cause: DecodeCause::Syntax(message), text: kept }) => {
            assert_eq!(kept, text);
            message
        }
        other => panic!("expected a syntax failure, got {:?}", other),
    }
}

fn parsed(text: &str) -> ListingResponse {
    match parse_listing_result(text) {
        Ok(response) => response,
        Err(e) => panic!("expected a reply, got {:?}", e),
    }
}

#[test]
fn parse_json() {
    let listing_response = parse_listing_result(TWO_LISTINGS).unwrap();

    assert!(listing_response.listings.len() == 2);
}

#[test]
fn listings_keep_the_order_of_the_document() {
    let response = parsed(TWO_LISTINGS);
    assert_eq!(response.listings[0].id, "3002335392");
    assert_eq!(response.listings[1].id, "3002335393");
}

#[test]
fn every_member_of_a_full_listing_is_read() {
    let response = parsed(TWO_LISTINGS);
    let listing = &response.listings[0].listing;
    assert_eq!(listing.localization.primary, "de");
    assert_eq!(
        listing.characteristics,
        Characteristics { is_old_building: Some(true), floor: Some(3), is_quiet: Some(false) }
    );
    assert_eq!(listing.available_from, Some(String::from("2024-03-01")));
    assert_eq!(listing.description, Some(String::from("Bright flat")));
    let entry = listing.localization.de.as_ref().unwrap();
    assert_eq!(
        entry.text,
        LocalizationEntryText {
            title: String::from("Helle Altbauwohnung"),
            description: String::from("Drei Zimmer, ruhig gelegen."),
        }
    );
    assert_eq!(entry.attachments.len(), 2);
    assert_eq!(
        entry.attachments[1],
        Attachment {
            value: JsonValue::Object(vec![
                (String::from("type"), JsonValue::Text(String::from("DOCUMENT"))),
                (
                    String::from("url"),
                    JsonValue::Text(String::from("https://media.example/plan.pdf"))
                ),
            ]),
        }
    );
}

#[test]
fn absent_optional_members_are_unknown() {
    let response = parsed(TWO_LISTINGS);
    let listing = &response.listings[1].listing;
    assert_eq!(listing.localization.de, None);
    assert_eq!(listing.available_from, None);
    assert_eq!(listing.description, None);
    assert_eq!(
        listing.characteristics,
        Characteristics { is_old_building: None, floor: None, is_quiet: None }
    );
}

#[test]
fn null_optional_members_are_unknown() {
    let text = one_listing(
        r#"{"primary":"de","de":null}"#,
        r#"{"isOldBuilding":null,"floor":null,"isQuiet":null}"#,
        r#","availableFrom":null,"description":null"#,
    );
    let response = parsed(&text);
    let listing = &response.listings[0].listing;
    assert_eq!(listing.localization.de, None);
    assert_eq!(listing.available_from, None);
    assert_eq!(listing.description, None);
    assert_eq!(
        listing.characteristics,
        Characteristics { is_old_building: None, floor: None, is_quiet: None }
    );
}

#[test]
fn false_and_zero_are_known_values() {
    let text = one_listing(
        r#"{"primary":"de"}"#,
        r#"{"isOldBuilding":false,"floor":0,"isQuiet":false}"#,
        r#","availableFrom":"","description":"""#,
    );
    let response = parsed(&text);
    let listing = &response.listings[0].listing;
    assert_eq!(
        listing.characteristics,
        Characteristics { is_old_building: Some(false), floor: Some(0), is_quiet: Some(false) }
    );
    assert_eq!(listing.available_from, Some(String::new()));
    assert_eq!(listing.description, Some(String::new()));
}

#[test]
fn an_empty_list_is_a_reply_without_listings() {
    assert_eq!(parsed(r#"{"listings":[]}"#), ListingResponse { listings: vec![] });
}

#[test]
fn members_that_no_record_names_are_passed_over() {
    let text = r#"{"total":1,"listings":[{"id":"7","rank":[1,2],"listing":{"localization":{"primary":"de","en":{}},"characteristics":{"hasLift":true},"price":950}}]}"#;
    let response = parsed(text);
    assert_eq!(response.listings.len(), 1);
    assert_eq!(response.listings[0].id, "7");
    assert_eq!(response.listings[0].listing.localization.primary, "de");
}

#[test]
fn a_missing_primary_locale_is_refused() {
    let text = one_listing(r#"{"de":null}"#, "{}", "");
    assert_eq!(shape_failure(&text), ShapeError::Missing(Field::Primary));
}

#[test]
fn a_missing_title_is_refused() {
    let text = one_listing(
        r#"{"primary":"de","de":{"attachments":[],"text":{"description":"d"}}}"#,
        "{}",
        "",
    );
    assert_eq!(shape_failure(&text), ShapeError::Missing(Field::Title));
}

#[test]
fn each_mandatory_member_is_asked_for() {
    assert_eq!(shape_failure("{}"), ShapeError::Missing(Field::Listings));
    assert_eq!(
        shape_failure(r#"{"listings":[{"id":"7"}]}"#),
        ShapeError::Missing(Field::Listing)
    );
    assert_eq!(
        shape_failure(
            r#"{"listings":[{"listing":{"localization":{"primary":"de"},"characteristics":{}}}]}"#
        ),
        ShapeError::Missing(Field::Id)
    );
    assert_eq!(
        shape_failure(r#"{"listings":[{"id":"7","listing":{"characteristics":{}}}]}"#),
        ShapeError::Missing(Field::Localization)
    );
    assert_eq!(
        shape_failure(r#"{"listings":[{"id":"7","listing":{"localization":{"primary":"de"}}}]}"#),
        ShapeError::Missing(Field::Characteristics)
    );
    let no_attachments = one_listing(
        r#"{"primary":"de","de":{"text":{"title":"t","description":"d"}}}"#,
        "{}",
        "",
    );
    assert_eq!(shape_failure(&no_attachments), ShapeError::Missing(Field::Attachments));
    let no_text = one_listing(r#"{"primary":"de","de":{"attachments":[]}}"#, "{}", "");
    assert_eq!(shape_failure(&no_text), ShapeError::Missing(Field::Text));
    let no_description = one_listing(
        r#"{"primary":"de","de":{"attachments":[],"text":{"title":"t"}}}"#,
        "{}",
        "",
    );
    assert_eq!(shape_failure(&no_description), ShapeError::Missing(Field::TextDescription));
}

#[test]
fn a_mandatory_member_may_not_be_null() {
    assert_eq!(shape_failure(r#"{"listings":null}"#), ShapeError::Mismatch(Field::Listings));
    let text = one_listing(r#"{"primary":null}"#, "{}", "");
    assert_eq!(shape_failure(&text), ShapeError::Mismatch(Field::Primary));
    let text = one_listing(r#"{"primary":"de"}"#, "null", "");
    assert_eq!(shape_failure(&text), ShapeError::Mismatch(Field::Characteristics));
}

#[test]
fn values_of_the_wrong_kind_are_refused() {
    assert_eq!(shape_failure("[]"), ShapeError::Document);
    assert_eq!(shape_failure("null"), ShapeError::Document);
    assert_eq!(shape_failure(r#"{"listings":{}}"#), ShapeError::Mismatch(Field::Listings));
    assert_eq!(shape_failure(r#"{"listings":["7"]}"#), ShapeError::Mismatch(Field::Listings));
    assert_eq!(
        shape_failure(
            r#"{"listings":[{"id":7,"listing":{"localization":{"primary":"de"},"characteristics":{}}}]}"#
        ),
        ShapeError::Mismatch(Field::Id)
    );
    let text = one_listing(r#"{"primary":"de"}"#, r#"{"isQuiet":"yes"}"#, "");
    assert_eq!(shape_failure(&text), ShapeError::Mismatch(Field::IsQuiet));
    let text = one_listing(r#"{"primary":"de"}"#, r#"{"isOldBuilding":1}"#, "");
    assert_eq!(shape_failure(&text), ShapeError::Mismatch(Field::IsOldBuilding));
    let text = one_listing(r#"{"primary":"de"}"#, "{}", r#","availableFrom":20240301"#);
    assert_eq!(shape_failure(&text), ShapeError::Mismatch(Field::AvailableFrom));
    let text = one_listing(r#"{"primary":"de"}"#, "{}", r#","description":["a"]"#);
    assert_eq!(shape_failure(&text), ShapeError::Mismatch(Field::Description));
    let text = one_listing(r#"{"primary":"de","de":"Deutsch"}"#, "{}", "");
    assert_eq!(shape_failure(&text), ShapeError::Mismatch(Field::De));
    let text = one_listing(
        r#"{"primary":"de","de":{"attachments":{},"text":{"title":"t","description":"d"}}}"#,
        "{}",
        "",
    );
    assert_eq!(shape_failure(&text), ShapeError::Mismatch(Field::Attachments));
    let text = one_listing(r#"{"primary":"de","de":{"attachments":[],"text":"t"}}"#, "{}", "");
    assert_eq!(shape_failure(&text), ShapeError::Mismatch(Field::Text));
}

#[test]
fn the_floor_is_an_integer_from_zero_that_fits_32_bits() {
    let floor = |text: &str| one_listing(r#"{"primary":"de"}"#, &format!(r#"{{"floor":{}}}"#, text), "");
    assert_eq!(
        parsed(&floor("4294967295")).listings[0].listing.characteristics.floor,
        Some(4294967295)
    );
    assert_eq!(shape_failure(&floor("4294967296")), ShapeError::Mismatch(Field::Floor));
    assert_eq!(shape_failure(&floor("-1")), ShapeError::Mismatch(Field::Floor));
    assert_eq!(shape_failure(&floor("2.0")), ShapeError::Mismatch(Field::Floor));
    assert_eq!(shape_failure(&floor("1e2")), ShapeError::Mismatch(Field::Floor));
    assert_eq!(shape_failure(&floor("\"3\"")), ShapeError::Mismatch(Field::Floor));
}

#[test]
fn the_first_departure_is_the_one_reported() {
    let text = r#"{"listings":[
        {"id":"1","listing":{"localization":{"primary":"de"},"characteristics":{}}},
        {"id":"2","listing":{"localization":{},"characteristics":7}},
        {"listing":{"localization":{"primary":"de"},"characteristics":{}}}
    ]}"#;
    assert_eq!(shape_failure(text), ShapeError::Missing(Field::Primary));
}

#[test]
fn one_bad_listing_fails_the_whole_reply() {
    let text = r#"{"listings":[
        {"id":"1","listing":{"localization":{"primary":"de"},"characteristics":{}}},
        {"id":"2","listing":{"localization":{"primary":"de"}}}
    ]}"#;
    assert_eq!(shape_failure(text), ShapeError::Missing(Field::Characteristics));
}

#[test]
fn truncated_text_is_a_syntax_failure() {
    let message = syntax_failure(&TWO_LISTINGS[..40]);
    assert!(!message.is_empty());
}

#[test]
fn malformed_text_is_a_syntax_failure() {
    for text in ["", "   ", "{", r#"{"listings":[}"#, r#"{"listings":[],}"#, "{listings:[]}", r#"{"listings":[]} x"#, "nul"] {
        let message = syntax_failure(text);
        assert!(!message.is_empty(), "no message for {:?}", text);
    }
}

#[test]
fn attachments_keep_every_kind_of_value() {
    let text = one_listing(
        r#"{"primary":"de","de":{"attachments":[null,true,"a",7,-3,1.5,18446744073709551615,[1],{"k":{}}],"text":{"title":"t","description":"d"}}}"#,
        "{}",
        "",
    );
    let response = parsed(&text);
    let entry = response.listings[0].listing.localization.de.as_ref().unwrap();
    let values: Vec<JsonValue> = entry.attachments.iter().map(|a| a.value.clone()).collect();
    assert_eq!(
        values,
        vec![
            JsonValue::Null,
            JsonValue::Bool(true),
            JsonValue::Text(String::from("a")),
            JsonValue::Number(JsonNumber::Unsigned(7)),
            JsonValue::Number(JsonNumber::Signed(-3)),
            JsonValue::Number(JsonNumber::Real(String::from("1.5"))),
            JsonValue::Number(JsonNumber::Unsigned(18446744073709551615)),
            JsonValue::Array(vec![JsonValue::Number(JsonNumber::Unsigned(1))]),
            JsonValue::Object(vec![(String::from("k"), JsonValue::Object(vec![]))]),
        ]
    );
}

#[test]
fn escapes_in_strings_are_resolved() {
    let text = one_listing(r#"{"primary":"de\n\"x\""}"#, "{}", "");
    assert_eq!(parsed(&text).listings[0].listing.localization.primary, "de\n\"x\"");
}

#[test]
fn a_reply_with_one_listing_yields_one_listing() {
    let body = one_listing(r#"{"primary":"de"}"#, "{}", "");
    let response = listings_from_reply(Ok(body)).unwrap();
    assert!(response.listings.len() == 1);
    assert_eq!(response.listings[0].id, "7");
}

#[test]
fn a_transport_failure_is_a_network_error() {
    let out = listings_from_reply(Err(String::from("connection refused")));
    assert_eq!(out, Err(ClientError::Network(String::from("connection refused"))));
}

#[test]
fn a_bad_body_is_a_decode_error_with_the_body() {
    let out = listings_from_reply(Ok(String::from("<html>502</html>")));
    match out {
        Err(ClientError::Decode { cause: DecodeCause::Syntax(_), text }) => {
            assert_eq!(text, "<html>502</html>")
        }
        other => panic!("expected a decode error, got {:?}", other),
    }
    let out = listings_from_reply(Ok(String::from(r#"{"listing":[]}"#)));
    assert_eq!(
        out,
        Err(ClientError::Decode {
            cause: DecodeCause::Shape(ShapeError::Missing(Field::Listings)),
            text: String::from(r#"{"listing":[]}"#),
        })
    );
}
