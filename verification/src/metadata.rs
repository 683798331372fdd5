//! The per-testcase metadata registry.
//!
//! Collaborating subsystems (feedback, minimization) attach analysis results
//! to a testcase keyed by kind; keys are unique and insertion order is
//! irrelevant. The registry is a `hashbrown::HashMap` held behind trusted
//! declarations; its contents are modelled by the uninterpreted
//! [`metadata_entries`] map, which every wrapper's contract speaks over.

use vstd::prelude::*;

verus! {

/// Marker for analysis results that collaborating subsystems attach to a
/// testcase; the registry stores values of the known kinds, which carry it.
pub trait TestcaseMetadata {
}

/// One analysis result attached to a testcase, as a tagged variant of the
/// known metadata kinds.
#[derive(Debug, Clone, PartialEq, Eq)]
pub enum MetadataValue {
    /// Edge-coverage bitmap recorded by the feedback pipeline.
    CoverageMap(Vec<u8>),
    /// Execution time of the testcase in microseconds.
    ExecTimeUs(u64),
    /// Progress marker left by a corpus minimization pass.
    MinimizationStage(u64),
}

impl TestcaseMetadata for MetadataValue {
}

#[verifier::external_type_specification]
#[verifier::external_body]
#[verifier::reject_recursive_types(K)]
#[verifier::reject_recursive_types(V)]
#[verifier::reject_recursive_types(S)]
pub struct ExHashbrownMap<K, V, S>(hashbrown::HashMap<K, V, S>);

#[verifier::external_type_specification]
#[verifier::external_body]
pub struct ExAhashRandomState(ahash::RandomState);

/// The entries a metadata registry currently holds, as a map from the kind
/// key to the attached value.
pub uninterp spec fn metadata_entries(
    m: hashbrown::HashMap<String, MetadataValue>,
) -> Map<Seq<char>, MetadataValue>;

/// Relies on `hashbrown::HashMap::new`: creates an empty map.
#[verifier::external_body]
pub(crate) fn metadata_map_new() -> (m: hashbrown::HashMap<String, MetadataValue>)
    ensures
        (metadata_entries(m) == Map::<Seq<char>, MetadataValue>::empty()),
{
    hashbrown::HashMap::new()
}

/// Relies on `hashbrown::HashMap::insert`: stores `value` under `key` and
/// returns the previously stored value, if the key was present.
#[verifier::external_body]
pub(crate) fn metadata_map_insert(
    m: &mut hashbrown::HashMap<String, MetadataValue>,
    key: String,
    value: MetadataValue,
) -> (prev: Option<MetadataValue>)
    ensures
        metadata_entries(*final(m)) == metadata_entries(*old(m)).insert(key@, value),
        match prev {
            Some(p) => metadata_entries(*old(m)).dom().contains(key@)
                && p == metadata_entries(*old(m))[key@],
            None => !metadata_entries(*old(m)).dom().contains(key@),
        },
{
    m.insert(key, value)
}

/// Relies on `hashbrown::HashMap::get`: returns the value stored under
/// `key`, if the key is present.
#[verifier::external_body]
pub(crate) fn metadata_map_get<'a>(
    m: &'a hashbrown::HashMap<String, MetadataValue>,
    key: &str,
) -> (r: Option<&'a MetadataValue>)
    ensures
        match r {
            Some(v) => metadata_entries(*m).dom().contains(key@)
                && *v == metadata_entries(*m)[key@],
            None => !metadata_entries(*m).dom().contains(key@),
        },
{
    m.get(key)
}

/// Relies on `hashbrown::HashMap::len`: the number of stored entries.
#[verifier::external_body]
pub(crate) fn metadata_map_len(m: &hashbrown::HashMap<String, MetadataValue>) -> (n: usize)
    ensures
        n == metadata_entries(*m).dom().len(),
{
    m.len()
}

/// Relies on `hashbrown::HashMap`'s `Clone` impl, which clones the table
/// entry by entry: the copy holds the same entries.
#[verifier::external_body]
pub(crate) fn metadata_map_clone(
    m: &hashbrown::HashMap<String, MetadataValue>,
) -> (r: hashbrown::HashMap<String, MetadataValue>)
    ensures
        metadata_entries(r) == metadata_entries(*m),
{
    m.clone()
}

} // verus!
