//! The sanitize boundary: pre-parse repair of the known-malformed XML
//! constructs the upstream emits (broken weak etag attributes, naked
//! ampersands in text).  The repair itself is the work of an outside
//! collaborator; this module gives its result a name and records the one
//! fact the library's laws need: a payload with nothing to repair passes
//! through unchanged.

use vstd::prelude::*;

use crate::text::contains_seq;

verus! {

/// What the sanitizer returns for a given payload: a function of the payload
/// text alone.
pub uninterp spec fn sanitized_of(s: Seq<char>) -> Seq<char>;

/// Opening of the broken weak-etag attribute the sanitizer repairs.
pub open spec fn broken_etag_marker() -> Seq<char> {
    "entry m:etag=\"W/\""@
}

/// The payload holds neither an ampersand nor a broken etag opening, so the
/// sanitizer has nothing to repair in it.
pub open spec fn needs_no_repair(s: Seq<char>) -> bool {
    &&& forall|i: int| 0 <= i < s.len() ==> s[i] != '&'
    &&& !contains_seq(s, broken_etag_marker())
}

/// Relies on `parse_sap_atom_feed::xml::sanitise_xml`: it repairs broken
/// `m:etag` attribute values and encodes naked ampersands, both decided by
/// the payload text alone, and leaves a payload without an ampersand and
/// without a broken etag opening unchanged.
#[verifier::external_body]
fn sanitise_call(raw: String) -> (clean: String)
    ensures
        clean@ == sanitized_of(raw@),
        needs_no_repair(raw@) ==> clean@ == raw@,
{
    parse_sap_atom_feed::xml::sanitise_xml(raw)
}

/// Repairs a raw upstream body prior to parsing.
pub fn sanitize_payload(raw: String) -> (clean: String)
    ensures
        clean@ == sanitized_of(raw@),
        needs_no_repair(raw@) ==> clean@ == raw@,
{
    sanitise_call(raw)
}

/// Sanitizing is idempotent on a payload with nothing to repair: the second
/// pass returns the first pass's result unchanged.  (A payload that still
/// holds an ampersand, even as an already-encoded entity, is outside this
/// guarantee: the sanitizer re-encodes it.)
pub fn sanitize_twice(raw: String) -> (passes: (String, String))
    ensures
        passes.0@ == sanitized_of(raw@),
        passes.1@ == sanitized_of(passes.0@),
        needs_no_repair(raw@) ==> passes.1@ == passes.0@,
{
    let ghost raw_view = raw@;
    let once = sanitize_payload(raw);
    let again = sanitize_payload(once.clone());
    proof {
        if needs_no_repair(raw_view) {
            assert(once@ == raw_view);
            assert(needs_no_repair(once@));
        }
    }
    (once, again)
}

} // verus!
