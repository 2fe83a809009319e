use odata_gateway::feed::{parse_feed, EntityRecord};
use odata_gateway::schema::build_catalog;
use odata_gateway::text::chars_of;

fn field_value(record: &EntityRecord, k: usize) -> Option<String> {
    record.fields[k].value.as_ref().map(|v| v.iter().collect())
}

fn vh_sex_fixture() -> String {
    let mut xml = String::from(
        "<feed xmlns=\"http://www.w3.org/2005/Atom\"><id>VH_SexSet</id><title>VH_SexSet</title>",
    );
    xml.push_str("<entry><content><m:properties><d:Sex>F</d:Sex><d:Shorttext>Female</d:Shorttext></m:properties></content></entry>");
    xml.push_str("<entry><content><m:properties><d:Sex>M</d:Sex><d:Shorttext>Male</d:Shorttext></m:properties></content></entry>");
    xml.push_str("</feed>");
    xml
}

// A two-record value-help feed parses to exactly two typed records, in
// document order.
#[test]
fn vh_sex_fixture_parses_two_records_in_order() {
    let catalog = build_catalog();
    let descriptor = catalog.lookup(&"VH_SexSet".to_string()).unwrap();
    let xml = chars_of(&vh_sex_fixture());
    let records = parse_feed(descriptor, &xml).expect("fixture should parse");

    assert_eq!(records.len(), 2);
    assert_eq!(records[0].fields.len(), 2);
    assert_eq!(records[0].fields[0].name, "sex");
    assert_eq!(field_value(&records[0], 0), Some("F".to_string()));
    assert_eq!(records[0].fields[1].name, "shorttext");
    assert_eq!(field_value(&records[0], 1), Some("Female".to_string()));
    assert_eq!(field_value(&records[1], 0), Some("M".to_string()));
    assert_eq!(field_value(&records[1], 1), Some("Male".to_string()));
}

fn vh_country_fixture() -> String {
    let mut xml = String::from("<feed xmlns=\"http://www.w3.org/2005/Atom\"><id>VH_CountrySet</id>");
    for i in 0..250 {
        let (code, name) = if i == 119 {
            ("KN".to_string(), "St Kitts&amp;Nevis".to_string())
        } else {
            (format!("C{i}"), format!("Country {i}"))
        };
        xml.push_str(&format!(
            "<entry><content><m:properties><d:Land1>{code}</d:Land1><d:Landx>{name}</d:Landx></m:properties></content></entry>"
        ));
    }
    xml.push_str("</feed>");
    xml
}

// A 250-record feed parses to a sequence of length 250, preserving input
// order; the 120th record (0-indexed 119) carries its literal fields, with
// the encoded ampersand decoded.
#[test]
fn vh_country_fixture_parses_250_records() {
    let catalog = build_catalog();
    let descriptor = catalog.lookup(&"VH_CountrySet".to_string()).unwrap();
    let xml = chars_of(&vh_country_fixture());
    let records = parse_feed(descriptor, &xml).expect("fixture should parse");

    assert_eq!(records.len(), 250);
    assert_eq!(field_value(&records[0], 0), Some("C0".to_string()));
    assert_eq!(field_value(&records[119], 0), Some("KN".to_string()));
    assert_eq!(field_value(&records[119], 1), Some("St Kitts&Nevis".to_string()));
    assert_eq!(field_value(&records[249], 0), Some("C249".to_string()));
}

// A body without a feed root element is a malformed payload.
#[test]
fn body_without_feed_root_is_malformed() {
    let catalog = build_catalog();
    let descriptor = catalog.lookup(&"VH_SexSet".to_string()).unwrap();
    let xml = chars_of("<html><body>maintenance page</body></html>");
    assert!(parse_feed(descriptor, &xml).is_err());
}

// An entry without one of the schema's properties parses to a record with
// that field absent.
#[test]
fn missing_property_parses_to_absent_field() {
    let catalog = build_catalog();
    let descriptor = catalog.lookup(&"VH_SexSet".to_string()).unwrap();
    let xml = chars_of("<feed><entry><d:Sex>F</d:Sex></entry></feed>");
    let records = parse_feed(descriptor, &xml).unwrap();
    assert_eq!(records.len(), 1);
    assert_eq!(field_value(&records[0], 0), Some("F".to_string()));
    assert_eq!(records[0].fields[1].value, None);
}

// A feed with no entries parses to an empty record sequence.
#[test]
fn empty_feed_parses_to_no_records() {
    let catalog = build_catalog();
    let descriptor = catalog.lookup(&"VH_SexSet".to_string()).unwrap();
    let xml = chars_of("<feed xmlns=\"http://www.w3.org/2005/Atom\"><id>VH_SexSet</id></feed>");
    let records = parse_feed(descriptor, &xml).unwrap();
    assert_eq!(records.len(), 0);
}

// The five standard XML character entities are decoded in values.
#[test]
fn entities_are_decoded_in_values() {
    let catalog = build_catalog();
    let descriptor = catalog.lookup(&"VH_SexSet".to_string()).unwrap();
    let xml = chars_of(
        "<feed><entry><d:Sex>&lt;&amp;&gt;</d:Sex><d:Shorttext>&quot;a&apos;b&quot;</d:Shorttext></entry></feed>",
    );
    let records = parse_feed(descriptor, &xml).unwrap();
    assert_eq!(field_value(&records[0], 0), Some("<&>".to_string()));
    assert_eq!(field_value(&records[0], 1), Some("\"a'b\"".to_string()));
}
