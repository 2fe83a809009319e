use odata_gateway::sanitize::{sanitize_payload, sanitize_twice};

// A naked ampersand between non-space characters is encoded; the wrapper
// does real work rather than handing its input back.
#[test]
fn naked_ampersand_is_encoded() {
    let raw = "<d:Category>PDAs & Organizers</d:Category>".to_string();
    let clean = sanitize_payload(raw.clone());
    assert_ne!(clean, raw);
    assert_eq!(clean, "<d:Category>PDAs &amp; Organizers</d:Category>");
}

#[test]
fn tight_ampersand_is_encoded() {
    let clean = sanitize_payload("<d:Landx>St Kitts&Nevis</d:Landx>".to_string());
    assert_eq!(clean, "<d:Landx>St Kitts&amp;Nevis</d:Landx>");
}

// The broken weak-etag attribute form is repaired.
#[test]
fn broken_etag_is_repaired() {
    let raw = "<entry m:etag=\"W/\"datetime'2023-08-31T01%3A00%3A06.0000000'\"\">".to_string();
    let clean = sanitize_payload(raw);
    assert_eq!(clean, "<entry m:etag=\"datetime'2023-08-31T01%3A00%3A06.0000000'\">");
}

// A payload with nothing to repair passes through unchanged.
#[test]
fn clean_payload_passes_through() {
    let raw = "<feed><entry><d:Sex>F</d:Sex></entry></feed>".to_string();
    assert_eq!(sanitize_payload(raw.clone()), raw);
}

// Sanitizing an already well-formed payload is idempotent:
// sanitize(sanitize(x)) == sanitize(x).
#[test]
fn sanitizing_well_formed_payload_is_idempotent() {
    let raw = "<feed><entry><d:Shorttext>Female</d:Shorttext></entry></feed>".to_string();
    let (once, again) = sanitize_twice(raw);
    assert_eq!(again, once);
}

#[test]
fn sanitizing_repaired_ampersand_free_payload_is_idempotent() {
    let raw = "<entry m:etag=\"W/\"datetime'2023'\"\"><d:Sex>F</d:Sex>".to_string();
    let once = sanitize_payload(raw);
    let again = sanitize_payload(once.clone());
    assert_eq!(again, once);
}
