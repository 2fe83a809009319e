//! Entity catalog and typed dispatch gateway for a read-only OData feed
//! service.
//!
//! The crate re-exposes a fixed catalog of entity collections served by a
//! remote Atom/OData endpoint.  Its core is the registry binding each
//! collection name to its schema descriptor, the router that rejects unknown
//! names before any upstream traffic, the classifier that decides whether an
//! upstream response is a success or a service-level error, and the
//! data-driven feed parser and renderer that turn a sanitized feed body into
//! readable text.

pub mod catalog;
pub mod classify;
pub mod errordoc;
pub mod feed;
pub mod gateway;
pub mod render;
pub mod router;
pub mod sanitize;
pub mod schema;
pub mod text;
pub mod upstream;
