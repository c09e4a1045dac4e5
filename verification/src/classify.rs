//! Classification of one raw hit into one typed document variant.
//!
//! A hit must carry a payload under `_source` and a string index name under
//! `_index`; a missing field is a malformed-input error, never a silent
//! default. The index name is matched against the registry in priority
//! order, the payload is decoded into the matched kind's document, and the
//! result is wrapped in the matching `SearchItem` variant. An index name no
//! registered prefix opens is an explicit error: defaulting to some variant
//! would mask index-naming bugs.

use vstd::prelude::*;

use crate::json::{as_text, field_val, get_field, get_text, has_field};
use crate::registry::{
    lemma_match_from_first, lemma_match_from_none, match_index_kind, spec_match_kind,
    spec_registry, DocKind,
};

verus! {

/// A decoded node document.
#[derive(Debug, Clone, PartialEq, Eq)]
pub struct NodeDocument {
    pub id: Option<String>,
}

/// A decoded data-source document.
#[derive(Debug, Clone, PartialEq, Eq)]
pub struct DataSourceDocument {
    pub id: Option<String>,
}

/// The classified result: exactly one variant per hit.
#[derive(Debug, Clone, PartialEq, Eq)]
pub enum SearchItem {
    Node(NodeDocument),
    DataSource(DataSourceDocument),
}

/// Why a hit could not be classified.
#[derive(Debug, Clone, Copy, PartialEq, Eq, Structural)]
pub enum ClassifyError {
    /// The hit has no `_source` field.
    MissingPayload,
    /// The hit has no `_index` field, or its `_index` is not a string.
    MissingIndexName,
    /// No registered prefix opens the hit's index name.
    UnknownIndexKind,
}

/// The mathematical image of a `SearchItem`.
pub enum SearchItemView {
    Node { id: Option<Seq<char>> },
    DataSource { id: Option<Seq<char>> },
}

/// The characters of an optional string.
pub open spec fn opt_text(o: Option<String>) -> Option<Seq<char>> {
    match o {
        Some(s) => Some(s@),
        None => None,
    }
}

impl View for SearchItem {
    type V = SearchItemView;

    open spec fn view(&self) -> SearchItemView {
        match self {
            SearchItem::Node(d) => SearchItemView::Node { id: opt_text(d.id) },
            SearchItem::DataSource(d) => SearchItemView::DataSource { id: opt_text(d.id) },
        }
    }
}

/// The hit's payload: the value under `_source`.
pub open spec fn payload_of(hit: serde_json::Value) -> serde_json::Value {
    field_val(hit, "_source"@)
}

/// The hit's index name: the text under `_index`, `None` when the field is
/// absent or not a string.
pub open spec fn index_name_of(hit: serde_json::Value) -> Option<Seq<char>> {
    if has_field(hit, "_index"@) {
        as_text(field_val(hit, "_index"@))
    } else {
        None
    }
}

/// What a decoder reads of a payload: the text under its `id` field, `None`
/// when that field is absent or not a string.
pub open spec fn spec_decode_id(payload: serde_json::Value) -> Option<Seq<char>> {
    if has_field(payload, "id"@) {
        as_text(field_val(payload, "id"@))
    } else {
        None
    }
}

/// The variant a payload decodes to under a given kind.
pub open spec fn spec_item_of(kind: DocKind, payload: serde_json::Value) -> SearchItemView {
    match kind {
        DocKind::Node => SearchItemView::Node { id: spec_decode_id(payload) },
        DocKind::DataSource => SearchItemView::DataSource { id: spec_decode_id(payload) },
    }
}

/// What classifying a hit yields: the payload is demanded first, then a
/// string index name, then a registered prefix that opens it.
pub open spec fn spec_classify(hit: serde_json::Value) -> Result<SearchItemView, ClassifyError> {
    if !has_field(hit, "_source"@) {
        Err(ClassifyError::MissingPayload)
    } else {
        match index_name_of(hit) {
            None => Err(ClassifyError::MissingIndexName),
            Some(index) => match spec_match_kind(index) {
                Some(kind) => Ok(spec_item_of(kind, payload_of(hit))),
                None => Err(ClassifyError::UnknownIndexKind),
            },
        }
    }
}

/// The image of a classification result.
pub open spec fn result_view(r: Result<SearchItem, ClassifyError>) -> Result<
    SearchItemView,
    ClassifyError,
> {
    match r {
        Ok(item) => Ok(item@),
        Err(e) => Err(e),
    }
}

/// Reads the `id` field of a payload as text.
fn extract_id(payload: &serde_json::Value) -> (r: Option<String>)
    ensures
        opt_text(r) == spec_decode_id(*payload),
{
    match get_field(payload, "id") {
        Some(v) => get_text(v),
        None => None,
    }
}

/// Decodes a payload into a node document.
pub fn decode_node(payload: &serde_json::Value) -> (doc: NodeDocument)
    ensures
        opt_text(doc.id) == spec_decode_id(*payload),
{
    NodeDocument { id: extract_id(payload) }
}

/// Decodes a payload into a data-source document.
pub fn decode_data_source(payload: &serde_json::Value) -> (doc: DataSourceDocument)
    ensures
        opt_text(doc.id) == spec_decode_id(*payload),
{
    DataSourceDocument { id: extract_id(payload) }
}

impl SearchItem {
    /// Classifies one raw hit into exactly one variant, or reports why it
    /// cannot be: no payload, no string index name, or an index name that no
    /// registered prefix opens.
    pub fn from_hit(hit: &serde_json::Value) -> (r: Result<Self, ClassifyError>)
        ensures
            result_view(r) == spec_classify(*hit),
    {
        let source = match get_field(hit, "_source") {
            Some(s) => s,
            None => {
                return Err(ClassifyError::MissingPayload);
            },
        };
        let index_field = match get_field(hit, "_index") {
            Some(v) => v,
            None => {
                return Err(ClassifyError::MissingIndexName);
            },
        };
        let index = match get_text(index_field) {
            Some(s) => s,
            None => {
                return Err(ClassifyError::MissingIndexName);
            },
        };
        match match_index_kind(index.as_str()) {
            Some(DocKind::Node) => Ok(SearchItem::Node(decode_node(source))),
            Some(DocKind::DataSource) => Ok(SearchItem::DataSource(decode_data_source(source))),
            None => Err(ClassifyError::UnknownIndexKind),
        }
    }
}

/// A hit with no payload field is classified `MissingPayload`, whatever
/// else it carries.
pub proof fn lemma_missing_payload(hit: serde_json::Value)
    requires
        !has_field(hit, "_source"@),
    ensures
        spec_classify(hit) == Err::<SearchItemView, ClassifyError>(ClassifyError::MissingPayload),
{
}

/// A hit with a payload but no string index name — the `_index` field
/// absent or holding something other than a string — is classified
/// `MissingIndexName`. (Without a payload, `MissingPayload` is reported
/// first, index name or not.)
pub proof fn lemma_missing_index_name(hit: serde_json::Value)
    requires
        has_field(hit, "_source"@),
        index_name_of(hit) is None,
    ensures
        spec_classify(hit) == Err::<SearchItemView, ClassifyError>(ClassifyError::MissingIndexName),
{
}

/// Priority dispatch: a hit whose index name is opened by the registry's
/// entry `k` and by no earlier entry is classified as entry `k`'s kind,
/// wrapping the decoded payload.
pub proof fn lemma_prefix_dispatch(hit: serde_json::Value, k: int)
    requires
        has_field(hit, "_source"@),
        index_name_of(hit) is Some,
        0 <= k < spec_registry().len(),
        spec_registry()[k].0.is_prefix_of(index_name_of(hit)->0),
        forall|j: int|
            0 <= j < k ==> !(#[trigger] spec_registry()[j]).0.is_prefix_of(index_name_of(hit)->0),
    ensures
        spec_classify(hit) == Ok::<SearchItemView, ClassifyError>(
            spec_item_of(spec_registry()[k].1, payload_of(hit)),
        ),
{
    lemma_match_from_first(spec_registry(), index_name_of(hit)->0, k);
}

/// A hit whose index name no registered prefix opens is classified
/// `UnknownIndexKind`: no variant is silently substituted.
pub proof fn lemma_unknown_index_kind(hit: serde_json::Value)
    requires
        has_field(hit, "_source"@),
        index_name_of(hit) is Some,
        forall|j: int|
            0 <= j < spec_registry().len() ==> !(#[trigger] spec_registry()[j]).0.is_prefix_of(
                index_name_of(hit)->0,
            ),
    ensures
        spec_classify(hit) == Err::<SearchItemView, ClassifyError>(ClassifyError::UnknownIndexKind),
{
    lemma_match_from_none(spec_registry(), index_name_of(hit)->0);
}

/// Classification is a function of the hit alone: any two results that
/// `from_hit`'s contract admits for the same hit agree.
pub proof fn lemma_classify_deterministic(
    hit: serde_json::Value,
    r1: Result<SearchItem, ClassifyError>,
    r2: Result<SearchItem, ClassifyError>,
)
    requires
        result_view(r1) == spec_classify(hit),
        result_view(r2) == spec_classify(hit),
    ensures
        result_view(r1) == result_view(r2),
{
}

} // verus!
