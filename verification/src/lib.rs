//! Classification of raw search hits into typed document variants.
//!
//! A search backend returns hits as JSON records carrying a payload under
//! `_source` and the name of the index they came from under `_index`.
//! Several document kinds live in indices whose names share a common textual
//! prefix, so a hit is routed to its decoder by matching the index name
//! against an ordered registry of prefixes: the first match, in priority
//! order, wins.

mod classify;
mod json;
mod registry;

pub use classify::{
    decode_data_source, decode_node, index_name_of, lemma_classify_deterministic,
    lemma_missing_index_name, lemma_missing_payload, lemma_prefix_dispatch,
    lemma_unknown_index_kind, opt_text, payload_of, result_view, spec_classify, spec_decode_id,
    spec_item_of, ClassifyError, DataSourceDocument, NodeDocument, SearchItem, SearchItemView,
};
pub use json::{as_text, field_val, has_field};
pub use registry::{
    data_source_prefix, lemma_match_from_first, lemma_match_from_none, lemma_node_priority,
    lemma_shared_prefix_collision, match_from, match_index_kind, node_prefix, registry,
    spec_match_kind, spec_registry, DocKind,
};
