//! The service-error parser boundary: turns a service-error XML document into
//! a readable structured-error report.  The parsing and its rendering are the
//! work of an outside collaborator; this module gives the report a name.

use std::str::FromStr;
use vstd::prelude::*;

verus! {

/// The report text produced for a given error document: a function of the
/// document text alone (the parsed structure on success, the parse
/// diagnostic otherwise).
pub uninterp spec fn error_report_of(s: Seq<char>) -> Seq<char>;

/// Relies on `parse_sap_atom_feed::odata_error::ODataError::from_str`, a
/// deserialization of the error document decided by the document text alone,
/// and on the derived debug renderings of the parsed structure and of the
/// parse diagnostic.
#[verifier::external_body]
fn error_report_call(raw: &String) -> (report: String)
    ensures
        report@ == error_report_of(raw@),
{
    match parse_sap_atom_feed::odata_error::ODataError::from_str(raw.as_str()) {
        Ok(odata_error) => format!("{:#?}", odata_error),
        Err(e) => format!("{:#?}", e),
    }
}

/// Renders a service-error document (or, failing that, its parse diagnostic)
/// as readable text.
pub fn render_error_document(raw: &String) -> (report: String)
    ensures
        report@ == error_report_of(raw@),
{
    error_report_call(raw)
}

} // verus!
