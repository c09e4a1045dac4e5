//! The document-kind registry: an ordered list of index-name prefixes.
//!
//! Several document kinds are stored across indices that share a naming
//! prefix — the node indices open with the data-source prefix — so the
//! registry is ordered by priority and a hit's index name is matched against
//! it front to back: the first prefix that opens the name decides the kind.

use vstd::prelude::*;

verus! {

/// The document kinds the classifier can produce, one per registry entry.
#[derive(Clone, Copy, Debug, PartialEq, Eq, Structural)]
pub enum DocKind {
    Node,
    DataSource,
}

/// The index-name prefix of node documents.
pub open spec fn node_prefix() -> Seq<char> {
    "data_source_node"@
}

/// The index-name prefix of data-source documents.
pub open spec fn data_source_prefix() -> Seq<char> {
    "data_source"@
}

/// The registry, in priority order. The node prefix stands first: the
/// data-source prefix opens every node index name too, so it must only be
/// tried once the node prefix has failed to match.
pub open spec fn spec_registry() -> Seq<(Seq<char>, DocKind)> {
    seq![(node_prefix(), DocKind::Node), (data_source_prefix(), DocKind::DataSource)]
}

/// The first kind in `entries`, front to back, whose prefix opens `index`.
pub open spec fn match_from(entries: Seq<(Seq<char>, DocKind)>, index: Seq<char>) -> Option<
    DocKind,
>
    decreases entries.len(),
{
    if entries.len() == 0 {
        None
    } else if entries[0].0.is_prefix_of(index) {
        Some(entries[0].1)
    } else {
        match_from(entries.drop_first(), index)
    }
}

/// The kind an index name is classified as, if any registered prefix opens it.
pub open spec fn spec_match_kind(index: Seq<char>) -> Option<DocKind> {
    match_from(spec_registry(), index)
}

/// The documented collision: the data-source prefix opens the node prefix
/// itself, and the two are distinct. This is why the node entry must stand
/// before the data-source entry in the registry.
pub proof fn lemma_shared_prefix_collision()
    ensures
        data_source_prefix().is_prefix_of(node_prefix()),
        data_source_prefix() != node_prefix(),
{
    reveal_strlit("data_source_node");
    reveal_strlit("data_source");
    assert(data_source_prefix() =~= node_prefix().subrange(
        0,
        data_source_prefix().len() as int,
    ));
}

/// Priority resolves the collision: an index name the node prefix opens is
/// opened by the data-source prefix as well, yet is classified as a node,
/// because the node entry stands first.
pub proof fn lemma_node_priority(index: Seq<char>)
    requires
        node_prefix().is_prefix_of(index),
    ensures
        data_source_prefix().is_prefix_of(index),
        spec_match_kind(index) == Some(DocKind::Node),
{
    lemma_shared_prefix_collision();
    assert forall|i: int| 0 <= i < data_source_prefix().len() implies data_source_prefix()[i]
        == index[i] by {
        assert(data_source_prefix()[i] == node_prefix().subrange(
            0,
            data_source_prefix().len() as int,
        )[i]);
        assert(node_prefix()[i] == index.subrange(0, node_prefix().len() as int)[i]);
    }
    assert(data_source_prefix() =~= index.subrange(0, data_source_prefix().len() as int));
    lemma_match_from_first(spec_registry(), index, 0);
}

/// Matching honours priority: when entry `k`'s prefix opens `index` and no
/// earlier entry's prefix does, the match yields entry `k`'s kind.
pub proof fn lemma_match_from_first(entries: Seq<(Seq<char>, DocKind)>, index: Seq<char>, k: int)
    requires
        0 <= k < entries.len(),
        entries[k].0.is_prefix_of(index),
        forall|j: int| 0 <= j < k ==> !(#[trigger] entries[j]).0.is_prefix_of(index),
    ensures
        match_from(entries, index) == Some(entries[k].1),
    decreases k,
{
    if k > 0 {
        assert forall|j: int| 0 <= j < k - 1 implies !(#[trigger] entries.drop_first()[j]).0.is_prefix_of(
            index,
        ) by {
            assert(entries.drop_first()[j] == entries[j + 1]);
        }
        lemma_match_from_first(entries.drop_first(), index, k - 1);
        assert(entries.drop_first()[k - 1] == entries[k]);
    }
}

/// Matching never invents a kind: when no entry's prefix opens `index`, the
/// match yields nothing.
pub proof fn lemma_match_from_none(entries: Seq<(Seq<char>, DocKind)>, index: Seq<char>)
    requires
        forall|j: int| 0 <= j < entries.len() ==> !(#[trigger] entries[j]).0.is_prefix_of(index),
    ensures
        match_from(entries, index) is None,
    decreases entries.len(),
{
    if entries.len() > 0 {
        assert forall|j: int|
            0 <= j < entries.drop_first().len() implies !(#[trigger] entries.drop_first()[j]).0.is_prefix_of(
            index,
        ) by {
            assert(entries.drop_first()[j] == entries[j + 1]);
        }
        lemma_match_from_none(entries.drop_first(), index);
    }
}

/// The registry as data, for callers that walk it.
pub fn registry() -> (r: Vec<(&'static str, DocKind)>)
    ensures
        r@.len() == spec_registry().len(),
        forall|i: int|
            0 <= i < r@.len() ==> (#[trigger] r@[i]).0@ == spec_registry()[i].0 && r@[i].1
                == spec_registry()[i].1,
{
    let mut r: Vec<(&'static str, DocKind)> = Vec::new();
    r.push(("data_source_node", DocKind::Node));
    r.push(("data_source", DocKind::DataSource));
    r
}

/// Relies on `str::starts_with`: it is true exactly when the second string's
/// characters open the first.
#[verifier::external_body]
fn str_starts_with(s: &str, prefix: &str) -> (r: bool)
    ensures
        r == prefix@.is_prefix_of(s@),
{
    s.starts_with(prefix)
}

/// Matches `index` against the registry in priority order.
pub fn match_index_kind(index: &str) -> (r: Option<DocKind>)
    ensures
        r == spec_match_kind(index@),
{
    let reg = registry();
    let n = reg.len();
    let mut i: usize = 0;
    proof {
        assert(spec_registry().skip(0) =~= spec_registry());
    }
    while i < n
        invariant
            n == reg.len(),
            reg@.len() == spec_registry().len(),
            forall|j: int|
                0 <= j < reg@.len() ==> (#[trigger] reg@[j]).0@ == spec_registry()[j].0 && reg@[j].1
                    == spec_registry()[j].1,
            i <= n,
            spec_match_kind(index@) == match_from(spec_registry().skip(i as int), index@),
        decreases n - i,
    {
        let entry = reg[i];
        proof {
            assert(spec_registry().skip(i as int)[0] == spec_registry()[i as int]);
        }
        if str_starts_with(index, entry.0) {
            return Some(entry.1);
        }
        proof {
            assert(spec_registry().skip(i as int).drop_first() =~= spec_registry().skip(
                i as int + 1,
            ));
        }
        i = i + 1;
    }
    proof {
        assert(spec_registry().skip(n as int).len() == 0);
    }
    None
}

} // verus!
