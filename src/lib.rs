//! Request-body descriptions derived from the kind of extractor that reads a
//! request body: which media type is accepted, which schema the payload has,
//! and whether the body must be present.
//!
//! `extractor` holds the dispatch table as a spec function, `resolve` the
//! executable resolver proved against it, `body` the description it returns,
//! `schema` the schema generator it borrows, and `laws` what holds across
//! extractors and wrappers.
mod body;
mod extractor;
pub mod laws;
mod mime;
mod resolve;
mod schema;

pub use body::{payload_schema, MediaType, RequestBody};
pub use extractor::{plan_of, Extractor, Payload, Plan, PlanView, SchemaError};
pub use mime::{get_mime_type, DEFAULT_MIME_TYPE, JSON_MIME_TYPE, MSGPACK_MIME_TYPE};
pub use resolve::{request_body, resolve_plan};
pub use schema::schema_of_type;
