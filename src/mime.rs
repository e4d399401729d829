use vstd::prelude::*;

verus! {

/// Media type of textual and binary payloads when the caller names none.
pub const DEFAULT_MIME_TYPE: &'static str = "application/octet-stream";

/// Media type of JSON-flavored extractors, whatever the caller asks for.
pub const JSON_MIME_TYPE: &'static str = "application/json";

/// Media type of MessagePack-flavored extractors, whatever the caller asks for.
pub const MSGPACK_MIME_TYPE: &'static str = "application/msgpack";

/// The media type that the caller asked for, else `def`.
pub open spec fn mime_or(mime_type: Option<Seq<char>>, def: Seq<char>) -> Seq<char> {
    match mime_type {
        Some(t) => t,
        None => def,
    }
}

/// The view of an optional string argument.
pub open spec fn opt_view(mime_type: Option<&str>) -> Option<Seq<char>> {
    match mime_type {
        Some(t) => Some(t@),
        None => None,
    }
}

/// Picks the caller's media type if there is one, else the default `def`.
pub fn get_mime_type<'a>(mime_type: Option<&'a str>, def: &'static str) -> (r: &'a str)
    ensures
        r@ == mime_or(opt_view(mime_type), def@),
{
    match mime_type {
        Some(t) => t,
        None => def,
    }
}

} // verus!
