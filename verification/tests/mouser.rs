use partlookup::DistributorConfig;
use partlookup::MouserDistributor;
use partlookup::product_from_response;
use partlookup::json::JsonValue;
use partlookup::distributors::mouser::Error;
use partlookup::distributors::mouser::Part;
use partlookup::distributors::mouser::PriceBreak;

fn configured_adapter(key: &str) -> MouserDistributor {
    let mut adapter = MouserDistributor::new();
    adapter.initialize(DistributorConfig::ApiKey { api_key: key.to_string() });
    adapter
}

#[test]
fn new_adapter_is_unconfigured() {
    let adapter = MouserDistributor::new();
    assert!(adapter.prepare_query("293D107X9016D2TE3").is_none());
}

#[test]
fn initialize_api_key_configures() {
    let adapter = configured_adapter("SECRET-REDACTED");
    let req = adapter.prepare_query("293D107X9016D2TE3").expect("configured adapter must build a request");
    assert!(req.url.contains("SECRET-REDACTED"));
    assert!(req.body.contains("SECRET-REDACTED"));
    assert!(req.body.contains("293D107X9016D2TE3"));
}

#[test]
fn request_url_and_body_are_exact() {
    let adapter = configured_adapter("KEY1");
    let req = adapter.prepare_query("PN-9").unwrap();
    assert_eq!(req.url, "https://api.mouser.com/api/v1//search/partnumber?apiKey=KEY1");
    assert_eq!(
        req.body,
        "{\"SearchByPartRequest\":{\"mouserPartNumbers\":[\"PN-9\"],\"apiKey\":\"KEY1\"}}"
    );
}

#[test]
fn part_number_is_escaped_in_body() {
    let adapter = configured_adapter("K");
    let req = adapter.prepare_query("a\"b\\c").unwrap();
    assert_eq!(
        req.body,
        "{\"SearchByPartRequest\":{\"mouserPartNumbers\":[\"a\\\"b\\\\c\"],\"apiKey\":\"K\"}}"
    );
}

#[test]
fn control_characters_are_escaped_in_body() {
    let adapter = configured_adapter("K");
    let req = adapter.prepare_query("a\nb").unwrap();
    assert_eq!(
        req.body,
        "{\"SearchByPartRequest\":{\"mouserPartNumbers\":[\"a\\u000ab\"],\"apiKey\":\"K\"}}"
    );
}

#[test]
fn oauth_config_is_ignored() {
    let mut adapter = MouserDistributor::new();
    adapter.initialize(DistributorConfig::OAuth {
        client_id: "id".to_string(),
        client_secret: "SECRET-REDACTED".to_string(),
    });
    assert!(adapter.prepare_query("PN").is_none());
}

#[test]
fn oauth_config_leaves_earlier_key_in_place() {
    let mut adapter = configured_adapter("FIRST");
    adapter.initialize(DistributorConfig::OAuth {
        client_id: "id".to_string(),
        client_secret: "SECRET-REDACTED".to_string(),
    });
    let req = adapter.prepare_query("PN").unwrap();
    assert!(req.url.ends_with("apiKey=FIRST"));
}

#[test]
fn full_response_round_trips() {
    let body = r#"{
        "Errors": [],
        "SearchResults": {
            "NumberOfResult": 1,
            "Parts": [{
                "MouserPartNumber": "595-TPS7A4700RGWT",
                "ManufacturerPartNumber": "TPS7A4700RGWT",
                "Manufacturer": "Texas Instruments",
                "Description": "Low-noise LDO regulator",
                "PriceBreaks": [{"Quantity": 1, "Price": "$3.41", "Currency": "USD"}],
                "AvailabilityInStock": "250",
                "unitprice": 3.41,
                "ProductDetailUrl": "https://example.com/part",
                "DataSheetUrl": "https://example.com/part.pdf"
            }]
        }
    }"#;
    let info = product_from_response(body).expect("one fully populated part must map");
    assert_eq!(info.part_number, "595-TPS7A4700RGWT");
    assert_eq!(info.manufacturer_part_number, Some("TPS7A4700RGWT".to_string()));
    assert_eq!(info.manufacturer, Some("Texas Instruments".to_string()));
    assert_eq!(info.description, Some("Low-noise LDO regulator".to_string()));
    assert_eq!(info.unit_price, Some("3.41".to_string()));
    assert_eq!(info.stock, Some(250));
    assert_eq!(info.product_url, Some("https://example.com/part".to_string()));
    assert_eq!(info.datasheet_url, Some("https://example.com/part.pdf".to_string()));
}

#[test]
fn missing_optional_fields_stay_absent() {
    let body = r#"{
        "SearchResults": {
            "NumberOfResult": 1,
            "Parts": [{
                "MouserPartNumber": "PN-1",
                "Description": null
            }]
        }
    }"#;
    let info = product_from_response(body).expect("a part with only its number must map");
    assert_eq!(info.part_number, "PN-1");
    assert_eq!(info.manufacturer_part_number, None);
    assert_eq!(info.manufacturer, None);
    assert_eq!(info.description, None);
    assert_eq!(info.unit_price, None);
    assert_eq!(info.stock, None);
    assert_eq!(info.product_url, None);
    assert_eq!(info.datasheet_url, None);
}

#[test]
fn unparseable_stock_becomes_zero() {
    let body = r#"{
        "SearchResults": {
            "NumberOfResult": 1,
            "Parts": [{
                "MouserPartNumber": "PN-2",
                "AvailabilityInStock": "Ships in 2 weeks"
            }]
        }
    }"#;
    let info = product_from_response(body).unwrap();
    assert_eq!(info.stock, Some(0));
}

#[test]
fn overflowing_stock_becomes_zero() {
    let body = r#"{
        "SearchResults": {
            "NumberOfResult": 1,
            "Parts": [{
                "MouserPartNumber": "PN-3",
                "AvailabilityInStock": "4294967296"
            }]
        }
    }"#;
    let info = product_from_response(body).unwrap();
    assert_eq!(info.stock, Some(0));
}

#[test]
fn empty_results_yield_absent() {
    let body = r#"{"SearchResults": {"NumberOfResult": 0, "Parts": []}}"#;
    assert!(product_from_response(body).is_none());
}

#[test]
fn missing_results_section_yields_absent() {
    let body = r#"{
        "Errors": [{
            "Id": 0,
            "Code": "InvalidCharacters",
            "Message": "Invalid characters provided",
            "ResourceKey": "InvalidCharacters",
            "ResourceFormatString": "",
            "ResourceFormatString2": "",
            "PropertyName": "mouserPartNumbers"
        }]
    }"#;
    assert!(product_from_response(body).is_none());
}

#[test]
fn malformed_json_yields_absent() {
    assert!(product_from_response("").is_none());
    assert!(product_from_response("not json at all").is_none());
    assert!(product_from_response("{\"SearchResults\": {").is_none());
    assert!(product_from_response("[1, 2, 3]").is_none());
}

#[test]
fn schema_violations_yield_absent() {
    // the results section must be an object with both required members
    assert!(product_from_response(r#"{"SearchResults": "yes"}"#).is_none());
    assert!(product_from_response(r#"{"SearchResults": {"Parts": []}}"#).is_none());
    assert!(
        product_from_response(r#"{"SearchResults": {"NumberOfResult": 1, "Parts": "none"}}"#)
            .is_none()
    );
    // a part without its required part number spoils the response
    let unnumbered = r#"{
        "SearchResults": {"NumberOfResult": 1, "Parts": [{"Manufacturer": "X"}]}
    }"#;
    assert!(product_from_response(unnumbered).is_none());
    // a present field of the wrong shape is a violation, not an absence
    let misshapen = r#"{
        "SearchResults": {
            "NumberOfResult": 1,
            "Parts": [{"MouserPartNumber": "PN", "unitprice": "3.41"}]
        }
    }"#;
    assert!(product_from_response(misshapen).is_none());
    // so is a malformed entry of the error list
    let bad_error = r#"{
        "Errors": [{"Id": "zero"}],
        "SearchResults": {"NumberOfResult": 1, "Parts": [{"MouserPartNumber": "PN"}]}
    }"#;
    assert!(product_from_response(bad_error).is_none());
}

#[test]
fn first_of_multiple_candidates_wins() {
    let body = r#"{
        "SearchResults": {
            "NumberOfResult": 2,
            "Parts": [
                {"MouserPartNumber": "FIRST-PN"},
                {"MouserPartNumber": "SECOND-PN"}
            ]
        }
    }"#;
    let info = product_from_response(body).unwrap();
    assert_eq!(info.part_number, "FIRST-PN");
    assert_ne!(info.part_number, "SECOND-PN");
}

#[test]
fn example_fixture_query() {
    let adapter = configured_adapter("SECRET-REDACTED");
    let req = adapter.prepare_query("293D107X9016D2TE3").unwrap();
    assert!(req.body.contains("293D107X9016D2TE3"));
    let body = r#"{
        "Errors": [],
        "SearchResults": {
            "NumberOfResult": 1,
            "Parts": [{
                "MouserPartNumber": "293D107X9016D2TE3",
                "ManufacturerPartNumber": "293D107X9016D2TE3",
                "Manufacturer": "Vishay",
                "Description": "Tantalum capacitor 100uF 16V",
                "PriceBreaks": [
                    {"Quantity": 1, "Price": "$0.50", "Currency": "USD"},
                    {"Quantity": 100, "Price": "$0.42", "Currency": "USD"}
                ],
                "AvailabilityInStock": "1000",
                "unitprice": 0.42,
                "ProductDetailUrl": "https://example.com/293D107X9016D2TE3",
                "DataSheetUrl": "https://example.com/293D107X9016D2TE3.pdf"
            }]
        }
    }"#;
    let info = product_from_response(body).unwrap();
    assert_eq!(info.part_number, "293D107X9016D2TE3");
    assert_eq!(info.stock, Some(1000));
    assert_eq!(info.unit_price, Some("0.42".to_string()));
    let price: f64 = info.unit_price.unwrap().parse().unwrap();
    assert_eq!(price, 0.42);
}

#[test]
fn reinitialize_replaces_key() {
    let mut adapter = configured_adapter("OLD");
    adapter.initialize(DistributorConfig::ApiKey { api_key: "NEW".to_string() });
    let req = adapter.prepare_query("PN").unwrap();
    assert!(req.url.ends_with("apiKey=NEW"));
    assert!(!req.body.contains("OLD"));
}

#[test]
fn mapping_works_on_a_hand_built_tree() {
    let part = JsonValue::Obj(vec![
        ("MouserPartNumber".to_string(), JsonValue::Str("PN-77".to_string())),
        ("AvailabilityInStock".to_string(), JsonValue::Str("007".to_string())),
    ]);
    let p = Part::from_json(&part).expect("a numbered part must map");
    let info = p.to_product_info();
    assert_eq!(info.part_number, "PN-77");
    assert_eq!(info.stock, Some(7));
    assert_eq!(info.manufacturer, None);
    assert_eq!(info.unit_price, None);
}

#[test]
fn price_break_requires_all_fields() {
    let complete = JsonValue::Obj(vec![
        ("Quantity".to_string(), JsonValue::Num("10".to_string())),
        ("Price".to_string(), JsonValue::Str("$1.00".to_string())),
        ("Currency".to_string(), JsonValue::Str("USD".to_string())),
    ]);
    let pb = PriceBreak::from_json(&complete).expect("a complete price break must map");
    assert_eq!(pb.quantity, 10);
    assert_eq!(pb.price, "$1.00");
    assert_eq!(pb.currency, "USD");
    let incomplete = JsonValue::Obj(vec![
        ("Quantity".to_string(), JsonValue::Num("10".to_string())),
        ("Price".to_string(), JsonValue::Str("$1.00".to_string())),
    ]);
    assert!(PriceBreak::from_json(&incomplete).is_none());
}

#[test]
fn error_entries_parse_whole() {
    let entry = JsonValue::Obj(vec![
        ("Id".to_string(), JsonValue::Num("-1".to_string())),
        ("Code".to_string(), JsonValue::Str("TooManyParts".to_string())),
        ("Message".to_string(), JsonValue::Str("too many".to_string())),
        ("ResourceKey".to_string(), JsonValue::Str("k".to_string())),
        ("ResourceFormatString".to_string(), JsonValue::Str("".to_string())),
        ("ResourceFormatString2".to_string(), JsonValue::Str("".to_string())),
        ("PropertyName".to_string(), JsonValue::Str("parts".to_string())),
    ]);
    let e = Error::from_json(&entry).expect("a complete error entry must map");
    assert_eq!(e.id, -1);
    assert_eq!(e.code, "TooManyParts");
}

#[test]
fn integer_unit_price_keeps_integer_text() {
    let body = r#"{
        "SearchResults": {
            "NumberOfResult": 1,
            "Parts": [{"MouserPartNumber": "PN", "unitprice": 2}]
        }
    }"#;
    let info = product_from_response(body).unwrap();
    assert_eq!(info.unit_price, Some("2".to_string()));
}
