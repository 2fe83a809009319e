use odata_gateway::errordoc::render_error_document;
use odata_gateway::gateway::{handle_response, FetchEvent};
use odata_gateway::schema::build_catalog;

fn error_document() -> String {
    "<error xmlns=\"http://schemas.microsoft.com/ado/2007/08/dataservices/metadata\">\
     <code>/IWBEP/CM_MGW_RT/021</code>\
     <message xml:lang=\"en\">Method not implemented in data provider class</message>\
     <innererror>\
     <transactionid>A1B2C3D4E5F6</transactionid>\
     <timestamp>20260101120000.0000000</timestamp>\
     <Error_Resolution>\
     <SAP_Transaction>/IWFND/ERROR_LOG</SAP_Transaction>\
     <SAP_Note>See SAP Note 1797736</SAP_Note>\
     </Error_Resolution>\
     </innererror>\
     </error>"
        .to_string()
}

// A transport failure is reported with status 400 and the diagnostic text.
#[test]
fn transport_failure_replies_400_with_diagnostic() {
    let catalog = build_catalog();
    let descriptor = catalog.lookup(&"ProductSet".to_string()).unwrap();
    let reply = handle_response(
        descriptor,
        FetchEvent::Transport { diagnostic: "connection refused".to_string() },
    );
    assert_eq!(reply.status, 400);
    let body: String = reply.body.iter().collect();
    assert_eq!(body, "connection refused");
}

// A status-200 response whose body holds an error document renders as a
// structured error, not as parsed records, even though the status was 200.
#[test]
fn status_200_with_error_document_renders_service_error() {
    let catalog = build_catalog();
    let descriptor = catalog.lookup(&"ProductSet".to_string()).unwrap();
    let doc = error_document();
    let reply = handle_response(
        descriptor,
        FetchEvent::Response { status: 200, body: doc.clone() },
    );
    assert_eq!(reply.status, 200);
    let body: String = reply.body.iter().collect();
    assert_ne!(body, doc);
    assert!(body.contains("/IWBEP/CM_MGW_RT/021"));
    assert!(body.contains("Method not implemented in data provider class"));
    assert!(!body.contains("(null)"));
}

// A non-2xx response renders the structured error with a 200 reply: the
// gateway reserves non-2xx replies for failures of its own.
#[test]
fn non_success_status_renders_service_error_with_200() {
    let catalog = build_catalog();
    let descriptor = catalog.lookup(&"ProductSet".to_string()).unwrap();
    let reply = handle_response(
        descriptor,
        FetchEvent::Response { status: 500, body: error_document() },
    );
    assert_eq!(reply.status, 200);
    let body: String = reply.body.iter().collect();
    assert!(body.contains("/IWBEP/CM_MGW_RT/021"));
}

// A successful feed response is sanitized, parsed and rendered field by
// field.
#[test]
fn successful_feed_renders_records() {
    let catalog = build_catalog();
    let descriptor = catalog.lookup(&"VH_SexSet".to_string()).unwrap();
    let body = "<feed xmlns=\"http://www.w3.org/2005/Atom\">\
                <entry><content><m:properties>\
                <d:Sex>F</d:Sex><d:Shorttext>Female</d:Shorttext>\
                </m:properties></content></entry>\
                <entry><content><m:properties>\
                <d:Sex>M</d:Sex><d:Shorttext>Male</d:Shorttext>\
                </m:properties></content></entry>\
                </feed>"
        .to_string();
    let reply = handle_response(descriptor, FetchEvent::Response { status: 200, body });
    assert_eq!(reply.status, 200);
    let text: String = reply.body.iter().collect();
    assert_eq!(text, "sex: F\nshorttext: Female\n\nsex: M\nshorttext: Male\n\n");
}

// A naked ampersand in the upstream body is repaired before parsing and
// decoded in the rendered value.
#[test]
fn naked_ampersand_round_trips_through_the_gateway() {
    let catalog = build_catalog();
    let descriptor = catalog.lookup(&"VH_CountrySet".to_string()).unwrap();
    let body = "<feed><entry><d:Land1>KN</d:Land1><d:Landx>St Kitts&Nevis</d:Landx></entry></feed>"
        .to_string();
    let reply = handle_response(descriptor, FetchEvent::Response { status: 200, body });
    let text: String = reply.body.iter().collect();
    assert_eq!(text, "land_1: KN\nlandx: St Kitts&Nevis\n\n");
}

// A 200 response that holds neither a feed nor an error marker is a
// malformed payload, reported in the body.
#[test]
fn success_status_without_feed_is_malformed_payload() {
    let catalog = build_catalog();
    let descriptor = catalog.lookup(&"ProductSet".to_string()).unwrap();
    let reply = handle_response(
        descriptor,
        FetchEvent::Response { status: 200, body: "<html>maintenance</html>".to_string() },
    );
    assert_eq!(reply.status, 200);
    let text: String = reply.body.iter().collect();
    assert_eq!(text, "Error: response body holds no feed document");
}

// A property the entry does not carry renders as (null).
#[test]
fn missing_property_renders_as_null() {
    let catalog = build_catalog();
    let descriptor = catalog.lookup(&"VH_SexSet".to_string()).unwrap();
    let reply = handle_response(
        descriptor,
        FetchEvent::Response {
            status: 200,
            body: "<feed><entry><d:Sex>F</d:Sex></entry></feed>".to_string(),
        },
    );
    let text: String = reply.body.iter().collect();
    assert_eq!(text, "sex: F\nshorttext: (null)\n\n");
}

// The error-document renderer parses the document rather than echoing it.
#[test]
fn error_report_is_not_the_raw_document() {
    let doc = error_document();
    let report = render_error_document(&doc);
    assert_ne!(report, doc);
    assert!(report.contains("/IWBEP/CM_MGW_RT/021"));
    assert!(report.contains("See SAP Note 1797736"));
}
