use vstd::prelude::*;
use schemars::schema::SchemaObject;
use crate::extractor::{
    is_byte_leaf, is_cappable, is_text_leaf, leaf_plan, plan_of, Extractor, Payload, SchemaError,
};
use crate::mime::{mime_or, DEFAULT_MIME_TYPE, JSON_MIME_TYPE, MSGPACK_MIME_TYPE};

verus! {

/// Extractors with byte semantics: a byte leaf, or a size-limited one.
pub open spec fn has_byte_semantics(e: Extractor) -> bool {
    is_byte_leaf(e) || (e matches Extractor::Capped(inner) && is_cappable(*inner) && is_byte_leaf(
        *inner,
    ))
}

/// Extractors with text semantics: a text leaf, or a size-limited one.
pub open spec fn has_text_semantics(e: Extractor) -> bool {
    is_text_leaf(e) || (e matches Extractor::Capped(inner) && is_text_leaf(*inner))
}

proof fn lemma_byte_plan(e: Extractor, o: Option<Seq<char>>)
    requires
        has_byte_semantics(e),
    ensures
        plan_of(e, o) == leaf_plan(mime_or(o, DEFAULT_MIME_TYPE@), Payload::Bytes),
{
    reveal_with_fuel(plan_of, 2);
}

proof fn lemma_text_plan(e: Extractor, o: Option<Seq<char>>)
    requires
        has_text_semantics(e),
    ensures
        plan_of(e, o) == leaf_plan(mime_or(o, DEFAULT_MIME_TYPE@), Payload::Text),
{
    reveal_with_fuel(plan_of, 2);
}

/// All extractors with byte semantics resolve alike: a required byte blob
/// under the caller's media type, else the default one.
pub proof fn byte_extractors_agree(a: Extractor, b: Extractor, o: Option<Seq<char>>)
    requires
        has_byte_semantics(a),
        has_byte_semantics(b),
    ensures
        plan_of(a, o) == plan_of(b, o),
        plan_of(a, o) == leaf_plan(mime_or(o, DEFAULT_MIME_TYPE@), Payload::Bytes),
{
    lemma_byte_plan(a, o);
    lemma_byte_plan(b, o);
}

/// All extractors with text semantics resolve alike: a required string under
/// the caller's media type, else the default one.
pub proof fn text_extractors_agree(a: Extractor, b: Extractor, o: Option<Seq<char>>)
    requires
        has_text_semantics(a),
        has_text_semantics(b),
    ensures
        plan_of(a, o) == plan_of(b, o),
        plan_of(a, o) == leaf_plan(mime_or(o, DEFAULT_MIME_TYPE@), Payload::Text),
{
    lemma_text_plan(a, o);
    lemma_text_plan(b, o);
}

/// A text extractor takes the media type that the caller names in place of
/// the default.
pub proof fn text_honors_override(e: Extractor, m: Seq<char>)
    requires
        has_text_semantics(e),
    ensures
        plan_of(e, Some(m)) matches Ok(p) && p.mime == m,
        plan_of(e, None) matches Ok(p) && p.mime == DEFAULT_MIME_TYPE@,
{
    lemma_text_plan(e, Some(m));
    lemma_text_plan(e, None);
}

/// JSON and MessagePack extractors ignore the caller's media type and always
/// name their own.
pub proof fn fixed_formats_ignore_override(s: Result<SchemaObject, String>, o: Option<Seq<char>>)
    ensures
        plan_of(Extractor::Json(s), o) == plan_of(Extractor::Json(s), None),
        plan_of(Extractor::MsgPack(s), o) == plan_of(Extractor::MsgPack(s), None),
        s is Ok ==> (plan_of(Extractor::Json(s), o) matches Ok(p) && p.mime == JSON_MIME_TYPE@),
        s is Ok ==> (plan_of(Extractor::MsgPack(s), o) matches Ok(p) && p.mime
            == MSGPACK_MIME_TYPE@),
{
}

/// Making a body optional keeps media type and payload, clears `required`, and
/// succeeds exactly when the inner extractor does.
pub proof fn optional_clears_required(e: Extractor, o: Option<Seq<char>>)
    ensures
        plan_of(Extractor::Optional(Box::new(e)), o) is Ok <==> plan_of(e, o) is Ok,
        plan_of(e, o) matches Ok(p) ==> (plan_of(Extractor::Optional(Box::new(e)), o) matches Ok(
            q,
        ) && q.mime == p.mime && q.payload == p.payload && !q.required),
        plan_of(e, o) matches Err(x) ==> plan_of(Extractor::Optional(Box::new(e)), o) == Err::<
            crate::extractor::PlanView,
            SchemaError,
        >(x),
{
}

/// The fallible wrapper resolves exactly as its success type does.
pub proof fn fallible_is_transparent(e: Extractor, o: Option<Seq<char>>)
    ensures
        plan_of(Extractor::Fallible(Box::new(e)), o) == plan_of(e, o),
{
}

/// Size-limiting a textual or binary leaf changes nothing in its description.
pub proof fn capped_is_transparent(e: Extractor, o: Option<Seq<char>>)
    requires
        is_cappable(e),
    ensures
        plan_of(Extractor::Capped(Box::new(e)), o) == plan_of(e, o),
{
}

/// An extractor without a rule fails as unresolvable and never falls back to
/// a generic schema; so does a size limit around one that has no capped rule.
pub proof fn unregistered_is_unresolvable(e: Extractor, o: Option<Seq<char>>)
    requires
        !is_cappable(e),
    ensures
        plan_of(Extractor::Unregistered, o) == Err::<crate::extractor::PlanView, SchemaError>(
            SchemaError::Unresolvable,
        ),
        plan_of(Extractor::Capped(Box::new(e)), o) == Err::<crate::extractor::PlanView, SchemaError>(
            SchemaError::Unresolvable,
        ),
{
}

} // verus!
