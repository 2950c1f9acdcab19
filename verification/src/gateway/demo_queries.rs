//! The listings that the demonstration asks for.
use vstd::prelude::*;
use vstd::string::*;
use crate::gateway::mock_registry::OPENAI_PROVIDER_TYPE;
use crate::registry::models::LifecycleStatus;
use crate::registry::odata::builder::{term_text, QueryBuilder};
use crate::registry::odata::models::{
    ModelFilterField, MODEL_CANONICAL_ID, MODEL_GTS_TYPE, MODEL_LIFECYCLE_STATUS, MODEL_STREAMING,
};
use crate::registry::odata::values::{ODataValue, ODataValueView};
use crate::registry::query::ODataQuery;

verus! {

/// The models of the OpenAI provider that stream, as filter text.
pub open spec fn openai_streaming() -> Seq<char> {
    term_text("gts_type"@, ODataValueView::String(OPENAI_PROVIDER_TYPE@)) + " and "@ + term_text(
        "streaming"@,
        ODataValueView::Bool(true),
    )
}

/// The models that can be routed to the OpenAI plugin for streaming and are in
/// production, by canonical id, ten to a page.
pub fn production_query<F: Fn(String) -> String>(hash: F) -> (r: ODataQuery)
    requires
        forall|text: String| hash.requires((text,)),
    ensures
        r.filter_hash is Some,
        hash.ensures((r.filter->0,), r.filter_hash->0),
        r.filter matches Some(text) && text@ == openai_streaming() + " and "@ + term_text(
            "lifecycle_status"@,
            ODataValueView::String("production"@),
        ),
        r.order@.len() == 1,
        r.order@[0].field@ == "canonical_id"@,
        !r.order@[0].descending,
        r.limit == Some(10u64),
        r.cursor is None,
        r.select is None,
{
    let filter = MODEL_GTS_TYPE.eq(ODataValue::String(OPENAI_PROVIDER_TYPE.to_owned())).and(
        MODEL_STREAMING.eq(ODataValue::Bool(true)),
    ).and(MODEL_LIFECYCLE_STATUS.eq(LifecycleStatus::Production.into_odata_value()));
    QueryBuilder::new().filter(filter).order_by(MODEL_CANONICAL_ID, false).page_size(10).build(hash)
}

/// The models of the OpenAI provider that stream, ten to a page, from filter text. The
/// query carries the text's hash where `hash` gives one.
pub fn filter_text_query<F: Fn(String) -> Option<String>>(hash: F) -> (r: ODataQuery)
    requires
        forall|text: String| hash.requires((text,)),
    ensures
        r.filter matches Some(text) && text@ == openai_streaming(),
        hash.ensures((r.filter->0,), r.filter_hash),
        r.order@.len() == 0,
        r.limit == Some(10u64),
        r.cursor is None,
        r.select is None,
{
    let text = ModelFilterField::GtsType.eq(ODataValue::String(OPENAI_PROVIDER_TYPE.to_owned())).and(
        ModelFilterField::Streaming.eq(ODataValue::Bool(true)),
    ).into_text();
    let query = ODataQuery::default().with_limit(10);
    let query = match hash(text.clone()) {
        Some(filter_hash) => query.with_filter_hash(filter_hash),
        None => query,
    };
    query.with_filter(text)
}

} // verus!
