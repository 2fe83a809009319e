//! The dispatch gateway: plans one upstream request for a routed collection
//! name, and turns the fetched outcome into the reply the client sees.  The
//! outbound call itself (and only it) happens outside the library: the caller
//! performs the planned fetch and hands the outcome back as an event.

use vstd::prelude::*;

use crate::catalog::{models_contain_name, Catalog, EntityDescriptor, PropertyModel};
use crate::classify::{classifies_as_success, classify, ClassificationOutcome};
use crate::errordoc::{error_report_of, render_error_document};
use crate::feed::{feed_marker, feed_records, parse_feed};
use crate::render::{render_records, render_records_text};
use crate::sanitize::{sanitize_payload, sanitized_of};
use crate::text::{chars_of, contains_seq};
use crate::upstream::{build_feed_url, feed_url};

verus! {

/// The gateway's fixed configuration: upstream base address, service name
/// and the page-size cap attached to every request.
pub struct GatewayConfig {
    pub host: String,
    pub service: String,
    pub page_limit: u64,
}

/// The configuration of the sample service this gateway fronts.
pub fn standard_config() -> (c: GatewayConfig)
    ensures
        c.host@ == "https://sapes5.sapdevcenter.com/sap/opu/odata/iwbep"@,
        c.service@ == "GWSAMPLE_BASIC"@,
        c.page_limit == 250,
{
    GatewayConfig {
        host: "https://sapes5.sapdevcenter.com/sap/opu/odata/iwbep".to_owned(),
        service: "GWSAMPLE_BASIC".to_owned(),
        page_limit: 250,
    }
}

/// What to do with one inbound request: reject it outright, or fetch one
/// upstream page for the resolved descriptor.
pub enum RequestPlan<'a> {
    /// The name is not in the catalog: answer not-found, fetch nothing.
    Reject,
    /// Fetch `url` upstream and hand the outcome to `handle_response`.
    Fetch { url: String, descriptor: &'a EntityDescriptor },
}

/// What came back from performing a planned fetch.
pub enum FetchEvent {
    /// The upstream answered: its status code and the body text.
    Response { status: u16, body: String },
    /// The upstream could not be reached or read; `diagnostic` describes why.
    Transport { diagnostic: String },
}

/// The reply handed to the client: an HTTP status and a plain-text body.
pub struct GatewayReply {
    pub status: u16,
    pub body: Vec<char>,
}

/// Plans the handling of one inbound request.  A name outside the catalog is
/// rejected before any upstream activity, so no network call can be made for
/// it; a catalog name yields exactly one fetch of that collection's page URL.
pub fn plan_request<'a>(config: &GatewayConfig, catalog: &'a Catalog, path_segment: &String) -> (p:
    RequestPlan<'a>)
    requires
        catalog.wf(),
    ensures
        p is Reject <==> !models_contain_name(catalog.models(), path_segment@),
        match p {
            RequestPlan::Reject => true,
            RequestPlan::Fetch { url, descriptor } => {
                &&& url@ == feed_url(
                    config.host@,
                    config.service@,
                    path_segment@,
                    config.page_limit as int,
                )
                &&& descriptor.model().name == path_segment@
                &&& exists|i: int|
                    0 <= i < catalog.models().len() && #[trigger] catalog.models()[i]
                        == descriptor.model()
                &&& descriptor.model().key_fields.len() > 0
            },
        },
{
    match crate::router::route(catalog, path_segment) {
        Ok(descriptor) => {
            let url = build_feed_url(
                config.host.as_str(),
                config.service.as_str(),
                path_segment,
                config.page_limit,
            );
            RequestPlan::Fetch { url, descriptor }
        },
        Err(_) => RequestPlan::Reject,
    }
}

/// The note rendered when an ostensibly successful body holds no feed
/// document.
pub open spec fn malformed_note() -> Seq<char> {
    "Error: response body holds no feed document"@
}

/// What the reply body says for a response that was fetched and read: the
/// rendered records of a successful feed, the malformed-payload note for a
/// successful status without a feed, and the structured-error report
/// otherwise.
pub open spec fn response_text(
    status: u16,
    body: Seq<char>,
    properties: Seq<PropertyModel>,
) -> Seq<char> {
    if classifies_as_success(status, body) {
        if contains_seq(sanitized_of(body), feed_marker()) {
            render_records_text(feed_records(sanitized_of(body), properties))
        } else {
            malformed_note()
        }
    } else {
        error_report_of(body)
    }
}

/// Turns the outcome of the planned fetch into the client's reply.
///
/// A transport failure is the only non-2xx reply (status 400, carrying the
/// diagnostic).  A response that was fetched and read is always answered with
/// status 200: classification decides whether the body is sanitized and
/// parsed as a feed of `descriptor`'s schema or rendered as a structured
/// error, and classification completes before any parsing.
pub fn handle_response(descriptor: &EntityDescriptor, event: FetchEvent) -> (reply: GatewayReply)
    ensures
        match event {
            FetchEvent::Transport { diagnostic } => reply.status == 400 && reply.body@
                == diagnostic@,
            FetchEvent::Response { status, body } => reply.status == 200 && reply.body@
                == response_text(status, body@, descriptor.model().properties),
        },
{
    match event {
        FetchEvent::Transport { diagnostic } => {
            let body = chars_of(diagnostic.as_str());
            GatewayReply { status: 400, body }
        },
        FetchEvent::Response { status, body } => {
            let ghost body_view = body@;
            let body_chars = chars_of(body.as_str());
            match classify(status, body_chars) {
                ClassificationOutcome::Success { body: _ } => {
                    let clean = sanitize_payload(body);
                    let clean_chars = chars_of(clean.as_str());
                    match parse_feed(descriptor, &clean_chars) {
                        Ok(records) => {
                            let text = render_records(&records);
                            GatewayReply { status: 200, body: text }
                        },
                        Err(_) => {
                            let note = chars_of("Error: response body holds no feed document");
                            GatewayReply { status: 200, body: note }
                        },
                    }
                },
                ClassificationOutcome::ServiceError { body: _ } => {
                    let report = render_error_document(&body);
                    let report_chars = chars_of(report.as_str());
                    GatewayReply { status: 200, body: report_chars }
                },
                ClassificationOutcome::TransportFailure { cause } => {
                    // classify never yields this outcome; its contract rules
                    // the arm out.
                    proof {
                        assert(false);
                    }
                    GatewayReply { status: 200, body: cause }
                },
            }
        },
    }
}

} // verus!
