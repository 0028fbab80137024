//! Candidate edges of a legacy edge pair.
use vstd::prelude::*;

use crate::error::HelixDbError;

verus! {

/// The compressed set of edge identities that a pair row stores.
#[verifier::external_type_specification]
#[verifier::external_body]
pub struct ExRoaringTreemap(roaring::RoaringTreemap);

/// The identities that a set holds.
pub uninterp spec fn treemap_ids(map: roaring::RoaringTreemap) -> Set<u64>;

/// The identities that stored bytes stand for, or what is wrong with the bytes.
pub uninterp spec fn stored_ids(bytes: Seq<u8>) -> Result<Set<u64>, Seq<char>>;

/// Whether a list holds exactly the identities of a set, each once and in ascending order.
pub open spec fn lists_ids(list: Seq<u64>, ids: Set<u64>) -> bool {
    &&& forall|i: int, j: int| 0 <= i < j < list.len() ==> list[i] < list[j]
    &&& forall|i: int| 0 <= i < list.len() ==> ids.contains(#[trigger] list[i])
    &&& forall|id: u64| #[trigger] ids.contains(id) ==> list.contains(id)
}

/// Calls `RoaringTreemap::new`, which makes a set that holds nothing.
#[verifier::external_body]
fn treemap_new() -> (map: roaring::RoaringTreemap)
    ensures
        treemap_ids(map) == Set::<u64>::empty(),
{
    roaring::RoaringTreemap::new()
}

/// Calls `RoaringTreemap::deserialize_from` on bytes in memory. It succeeds on bytes in
/// the portable serialized form. What comes of it depends on the bytes alone, and so does
/// the `Display` form of its failure.
#[verifier::external_body]
fn treemap_deserialize(bytes: &[u8]) -> (map: Result<roaring::RoaringTreemap, String>)
    ensures
        match map {
            Ok(map) => stored_ids(bytes@) == Ok::<Set<u64>, Seq<char>>(treemap_ids(map)),
            Err(text) => stored_ids(bytes@) == Err::<Set<u64>, Seq<char>>(text@),
        },
{
    match roaring::RoaringTreemap::deserialize_from(bytes) {
        Ok(map) => Ok(map),
        Err(error) => Err(error.to_string()),
    }
}

/// Calls `RoaringTreemap::iter`, which hands every held identity out once, in ascending
/// order.
#[verifier::external_body]
fn treemap_list(map: &roaring::RoaringTreemap) -> (list: Vec<u64>)
    ensures
        lists_ids(list@, treemap_ids(*map)),
{
    map.iter().collect()
}

/// Decodes the candidate set of a pair row.
pub fn decode_roaring_treemap(bytes: &[u8]) -> (map: Result<roaring::RoaringTreemap, HelixDbError>)
    ensures
        match stored_ids(bytes@) {
            Ok(ids) => map matches Ok(map) && treemap_ids(map) == ids,
            Err(text) => map matches Err(HelixDbError::Storage(shown)) && shown@ == text,
        },
{
    match treemap_deserialize(bytes) {
        Ok(map) => Ok(map),
        Err(text) => Err(HelixDbError::Storage(text)),
    }
}

/// The candidates that the stored pair row of an edge pair names: none without a row.
pub open spec fn candidates_of(row: Option<&[u8]>) -> Result<Set<u64>, Seq<char>> {
    match row {
        Some(bytes) => stored_ids(bytes@),
        None => Ok(Set::empty()),
    }
}

/// Lists the candidates of an edge pair in ascending order.
pub fn edge_candidates(row: Option<&[u8]>) -> (candidates: Result<Vec<u64>, HelixDbError>)
    ensures
        match candidates_of(row) {
            Ok(ids) => candidates matches Ok(candidates) && lists_ids(candidates@, ids),
            Err(text) => candidates matches Err(HelixDbError::Storage(shown)) && shown@ == text,
        },
{
    let map = match row {
        Some(bytes) => match decode_roaring_treemap(bytes) {
            Ok(map) => map,
            Err(error) => {
                return Err(error);
            },
        },
        None => treemap_new(),
    };
    Ok(treemap_list(&map))
}

/// A pair without a row has no candidates, and one with a row has those that the row stores.
pub proof fn law_candidates_are_those_of_the_row(bytes: &[u8])
    ensures
        candidates_of(None) == Ok::<Set<u64>, Seq<char>>(Set::empty()),
        candidates_of(Some(bytes)) == stored_ids(bytes@),
{
}

/// A list of identities holds each of them once and no other, in ascending order.
pub proof fn law_lists_hold_each_identity_once(list: Seq<u64>, ids: Set<u64>, id: u64)
    requires
        lists_ids(list, ids),
    ensures
        list.contains(id) <==> ids.contains(id),
        list.no_duplicates(),
{
}

} // verus!
