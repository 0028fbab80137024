//! Rows of the legacy definition catalog.
use vstd::prelude::*;

use super::definitions::{
    option_text_copy, DefinitionShape, IndexIdentity, LegacyDynamicIndexCatalogEntry,
    LegacyDynamicIndexDefinition, LegacyDynamicIndexKey, LegacySecondaryIndexDefinition,
    LegacyTextIndexDefinition, LegacyVectorIndexDefinition, ValidatedDynamicIndexDefinition,
    VectorIndexDefinition, VectorShape,
};
use crate::error::HelixDbError;
use crate::json::{json_bool, json_record, json_write, JsonTree};
use crate::text::joined;

verus! {

/// One decoded row of the legacy definition catalog.
#[derive(Debug)]
pub struct LegacyDefinitionRow {
    pub storage_key: Vec<u8>,
    pub identity: LegacyDynamicIndexKey,
    pub entry: LegacyDynamicIndexCatalogEntry,
    /// What the constructors of identities have against the key, if anything.
    pub identity_refusal: Option<String>,
    /// What the constructors of the current form have against the definition, if anything.
    pub definition_refusal: Option<String>,
}

/// What makes the current catalog agree with a legacy row.
#[derive(Debug)]
pub enum LegacyRowAction {
    /// Bring this definition to life.
    Converge(ValidatedDynamicIndexDefinition),
    /// Drop whatever has this identity.
    DropIdentity(IndexIdentity),
}

/// Whether an outcome says how the current catalog comes to agree with one legacy row.
pub open spec fn is_row_action(
    row: LegacyDefinitionRow,
    outcome: Result<LegacyRowAction, HelixDbError>,
) -> bool {
    let identity_refusal = super::definitions::text_option(row.identity_refusal);
    let definition_refusal = super::definitions::text_option(row.definition_refusal);
    match row.entry {
        LegacyDynamicIndexCatalogEntry::Definition(legacy) => if legacy@.legacy_key()
            != row.identity@ {
            outcome matches Err(error) && error.is_corruption(
                "legacy dynamic definition key/value identity mismatch"@,
            )
        } else if !legacy@.is_admitted(definition_refusal) {
            outcome matches Err(error) && legacy@.is_refused_with(definition_refusal, error)
        } else if !row.identity@.is_admitted(identity_refusal) {
            outcome matches Err(error) && row.identity@.is_refused_with(identity_refusal, error)
        } else {
            outcome matches Ok(LegacyRowAction::Converge(definition)) && definition@ == legacy@
        },
        LegacyDynamicIndexCatalogEntry::Tombstone { tombstone } => if !tombstone {
            outcome matches Err(error) && error.is_corruption(
                "legacy dynamic catalog tombstone marker is false"@,
            )
        } else if !row.identity@.is_admitted(identity_refusal) {
            outcome matches Err(error) && row.identity@.is_refused_with(identity_refusal, error)
        } else {
            outcome matches Ok(LegacyRowAction::DropIdentity(identity)) && identity@
                == row.identity@.identity()
        },
    }
}

/// Decides how the current catalog comes to agree with one legacy row.
pub fn legacy_row_action(row: &LegacyDefinitionRow) -> (action: Result<
    LegacyRowAction,
    HelixDbError,
>)
    ensures
        is_row_action(*row, action),
{
    match &row.entry {
        LegacyDynamicIndexCatalogEntry::Definition(legacy) => {
            if !legacy.key().same_as(&row.identity) {
                return Err(
                    HelixDbError::IndexCatalogCorruption(
                        "legacy dynamic definition key/value identity mismatch".to_owned(),
                    ),
                );
            }
            let definition = match legacy.duplicate().into_validated(
                option_text_copy(&row.definition_refusal),
            ) {
                Ok(definition) => definition,
                Err(error) => {
                    return Err(error);
                },
            };
            let identity = match row.identity.identity(option_text_copy(&row.identity_refusal)) {
                Ok(identity) => identity,
                Err(error) => {
                    return Err(error);
                },
            };
            if !definition.identity().same_as(&identity) {
                return Err(
                    HelixDbError::IndexCatalogCorruption(
                        "validated legacy definition changed logical identity".to_owned(),
                    ),
                );
            }
            Ok(LegacyRowAction::Converge(definition))
        },
        LegacyDynamicIndexCatalogEntry::Tombstone { tombstone } => {
            if !*tombstone {
                return Err(
                    HelixDbError::IndexCatalogCorruption(
                        "legacy dynamic catalog tombstone marker is false".to_owned(),
                    ),
                );
            }
            match row.identity.identity(option_text_copy(&row.identity_refusal)) {
                Ok(identity) => Ok(LegacyRowAction::DropIdentity(identity)),
                Err(error) => Err(error),
            }
        },
    }
}

/// How a converged legacy row leaves the legacy catalog.
#[derive(Debug)]
pub enum LegacyRowRetirement {
    /// The bounded vector cleanup job takes the row away.
    ByVectorCleanup,
    /// The row goes once this definition is active.
    AfterActivation(ValidatedDynamicIndexDefinition),
    /// The row goes once nothing has its identity any more.
    AfterDrop,
}

/// Whether an outcome says how one converged legacy row leaves the legacy catalog.
pub open spec fn is_row_retirement(
    row: LegacyDefinitionRow,
    outcome: Result<LegacyRowRetirement, HelixDbError>,
) -> bool {
    let refusal = super::definitions::text_option(row.definition_refusal);
    match row.entry {
        LegacyDynamicIndexCatalogEntry::Definition(legacy) => if !legacy@.is_admitted(refusal) {
            outcome matches Err(error) && legacy@.is_refused_with(refusal, error)
        } else if legacy@ is Vector {
            outcome matches Ok(LegacyRowRetirement::ByVectorCleanup)
        } else {
            outcome matches Ok(LegacyRowRetirement::AfterActivation(definition)) && definition@
                == legacy@
        },
        LegacyDynamicIndexCatalogEntry::Tombstone { .. } => outcome matches Ok(
            LegacyRowRetirement::AfterDrop,
        ),
    }
}

/// Decides how one converged legacy row leaves the legacy catalog.
pub fn legacy_row_retirement(row: &LegacyDefinitionRow) -> (retirement: Result<
    LegacyRowRetirement,
    HelixDbError,
>)
    ensures
        is_row_retirement(*row, retirement),
{
    match &row.entry {
        LegacyDynamicIndexCatalogEntry::Definition(legacy) => {
            match legacy.duplicate().into_validated(option_text_copy(&row.definition_refusal)) {
                Ok(ValidatedDynamicIndexDefinition::Vector(_)) => Ok(
                    LegacyRowRetirement::ByVectorCleanup,
                ),
                Ok(definition) => Ok(LegacyRowRetirement::AfterActivation(definition)),
                Err(error) => Err(error),
            }
        },
        LegacyDynamicIndexCatalogEntry::Tombstone { .. } => Ok(LegacyRowRetirement::AfterDrop),
    }
}

/// Exact persisted source row retained until one vector adoption activates.
#[derive(Debug)]
pub struct LegacyVectorAdoptionSource {
    storage_key: Vec<u8>,
    physical_name: String,
}

impl LegacyVectorAdoptionSource {
    /// Key of the source row.
    pub closed spec fn key(self) -> Seq<u8> {
        self.storage_key@
    }

    /// Name of the physical namespace.
    pub closed spec fn name(self) -> Seq<char> {
        self.physical_name@
    }

    /// Key of the source row.
    pub fn storage_key(&self) -> (key: &Vec<u8>)
        ensures
            key@ == self.key(),
    {
        &self.storage_key
    }

    /// Name of the physical namespace.
    pub fn physical_name(&self) -> (name: &str)
        ensures
            name@ == self.name(),
    {
        self.physical_name.as_str()
    }
}

/// What one row contributes to the search for an adoption source.
pub enum AdoptionVerdict {
    /// The row belongs to another index.
    Other,
    /// The identity of the row is refused.
    RefusedIdentity,
    /// The row has become a tombstone.
    Tombstone,
    /// The row disagrees with its own key.
    KeyMismatch,
    /// The definition is refused.
    RefusedDefinition,
    /// The definition has changed.
    Changed,
    /// The row is the source.
    Source,
}

/// What one row contributes to the search for the source of `expected`.
pub open spec fn adoption_verdict(row: LegacyDefinitionRow, expected: VectorShape) -> AdoptionVerdict {
    if !row.identity@.is_admitted(super::definitions::text_option(row.identity_refusal)) {
        AdoptionVerdict::RefusedIdentity
    } else if row.identity@.identity() != DefinitionShape::Vector(expected).identity() {
        AdoptionVerdict::Other
    } else {
        match row.entry {
            LegacyDynamicIndexCatalogEntry::Tombstone { .. } => AdoptionVerdict::Tombstone,
            LegacyDynamicIndexCatalogEntry::Definition(legacy) => if legacy@.legacy_key()
                != row.identity@ {
                AdoptionVerdict::KeyMismatch
            } else if !legacy@.is_admitted(
                super::definitions::text_option(row.definition_refusal),
            ) {
                AdoptionVerdict::RefusedDefinition
            } else if legacy@ != DefinitionShape::Vector(expected) {
                AdoptionVerdict::Changed
            } else {
                AdoptionVerdict::Source
            },
        }
    }
}

/// Where the search for an adoption source ends.
pub enum AdoptionSearch {
    /// The row at this position stops the search.
    Stopped(int),
    /// The row at this position is a second source.
    Repeated(int),
    /// The row at this position is the only source.
    Found(int),
    /// There is no source.
    Missing,
}

/// The search from `position` on, with the source found before it.
pub open spec fn adoption_search(
    rows: Seq<LegacyDefinitionRow>,
    expected: VectorShape,
    position: int,
    found: Option<int>,
) -> AdoptionSearch
    decreases rows.len() - position,
{
    if position >= rows.len() {
        match found {
            Some(found) => AdoptionSearch::Found(found),
            None => AdoptionSearch::Missing,
        }
    } else {
        match adoption_verdict(rows[position], expected) {
            AdoptionVerdict::Other => adoption_search(rows, expected, position + 1, found),
            AdoptionVerdict::Source => if found is Some {
                AdoptionSearch::Repeated(position)
            } else {
                adoption_search(rows, expected, position + 1, Some(position))
            },
            _ => AdoptionSearch::Stopped(position),
        }
    }
}

/// Whether a failure reports why a row stopped the search.
pub open spec fn reports_adoption_stop(
    error: HelixDbError,
    row: LegacyDefinitionRow,
    expected: VectorShape,
) -> bool {
    match adoption_verdict(row, expected) {
        AdoptionVerdict::RefusedIdentity => row.identity@.is_refused_with(
            super::definitions::text_option(row.identity_refusal),
            error,
        ),
        AdoptionVerdict::RefusedDefinition => row.entry->Definition_0@.is_refused_with(
            super::definitions::text_option(row.definition_refusal),
            error,
        ),
        AdoptionVerdict::Tombstone => error.is_migration_required(
            "legacy vector adoption source became a tombstone"@,
        ),
        AdoptionVerdict::KeyMismatch => error.is_corruption(
            "legacy vector adoption key/value identity mismatch"@,
        ),
        AdoptionVerdict::Changed => error.is_migration_required(
            "legacy vector adoption definition changed before activation"@,
        ),
        _ => false,
    }
}

fn copy_bytes(bytes: &Vec<u8>) -> (copy: Vec<u8>)
    ensures
        copy@ == bytes@,
{
    let copy = bytes.clone();
    assert(copy@ =~= bytes@);
    copy
}

/// Proves the single exact legacy vector source for activation.
///
/// `physical_name` names the namespace of `expected`.
pub fn legacy_vector_adoption_source(
    rows: &Vec<LegacyDefinitionRow>,
    expected: &VectorIndexDefinition,
    physical_name: &str,
) -> (source: Result<LegacyVectorAdoptionSource, HelixDbError>)
    ensures
        match adoption_search(rows@, expected@, 0, None) {
            AdoptionSearch::Found(position) => source matches Ok(source) && source.key()
                == rows@[position].storage_key@ && source.name() == physical_name@,
            AdoptionSearch::Stopped(position) => source matches Err(error)
                && reports_adoption_stop(error, rows@[position], expected@),
            AdoptionSearch::Repeated(_) => source matches Err(error) && error.is_corruption(
                "multiple legacy rows claim one vector adoption identity"@,
            ),
            AdoptionSearch::Missing => source matches Err(error) && error.is_migration_required(
                "legacy vector adoption source disappeared before activation"@,
            ),
        },
{
    let wanted = ValidatedDynamicIndexDefinition::Vector(expected.duplicate());
    let wanted_identity = wanted.identity();
    let mut found: Option<usize> = None;
    let mut position: usize = 0;
    while position < rows.len()
        invariant
            position <= rows.len(),
            wanted@ == DefinitionShape::Vector(expected@),
            wanted_identity@ == wanted@.identity(),
            found matches Some(found) ==> found < position,
            adoption_search(rows@, expected@, 0, None) == adoption_search(
                rows@,
                expected@,
                position as int,
                match found {
                    Some(found) => Some(found as int),
                    None => None,
                },
            ),
        decreases rows.len() - position,
    {
        let row = &rows[position];
        let identity = match row.identity.identity(option_text_copy(&row.identity_refusal)) {
            Ok(identity) => identity,
            Err(error) => {
                return Err(error);
            },
        };
        if identity.same_as(&wanted_identity) {
            let legacy = match &row.entry {
                LegacyDynamicIndexCatalogEntry::Definition(legacy) => legacy,
                LegacyDynamicIndexCatalogEntry::Tombstone { .. } => {
                    return Err(
                        HelixDbError::MigrationRequired {
                            reason: "legacy vector adoption source became a tombstone".to_owned(),
                        },
                    );
                },
            };
            if !legacy.key().same_as(&row.identity) {
                return Err(
                    HelixDbError::IndexCatalogCorruption(
                        "legacy vector adoption key/value identity mismatch".to_owned(),
                    ),
                );
            }
            let definition = match legacy.duplicate().into_validated(
                option_text_copy(&row.definition_refusal),
            ) {
                Ok(definition) => definition,
                Err(error) => {
                    return Err(error);
                },
            };
            if !definition.same_as(&wanted) {
                return Err(
                    HelixDbError::MigrationRequired {
                        reason: "legacy vector adoption definition changed before activation"
                            .to_owned(),
                    },
                );
            }
            if found.is_some() {
                return Err(
                    HelixDbError::IndexCatalogCorruption(
                        "multiple legacy rows claim one vector adoption identity".to_owned(),
                    ),
                );
            }
            found = Some(position);
        }
        position = position + 1;
    }
    match found {
        Some(found) => Ok(
            LegacyVectorAdoptionSource {
                storage_key: copy_bytes(&rows[found].storage_key),
                physical_name: physical_name.to_owned(),
            },
        ),
        None => Err(
            HelixDbError::MigrationRequired {
                reason: "legacy vector adoption source disappeared before activation".to_owned(),
            },
        ),
    }
}

/// An accepted adoption source is the only row that has the identity of the
/// expected definition, and it holds exactly that definition.
pub proof fn law_adoption_source_is_exact(
    rows: Seq<LegacyDefinitionRow>,
    expected: VectorShape,
    position: int,
)
    requires
        adoption_search(rows, expected, 0, None) == AdoptionSearch::Found(position),
    ensures
        0 <= position < rows.len(),
        rows[position].entry matches LegacyDynamicIndexCatalogEntry::Definition(legacy) && legacy@
            == DefinitionShape::Vector(expected),
        forall|other: int|
            0 <= other < rows.len() && other != position ==> (#[trigger] rows[other]).identity@.identity()
                != DefinitionShape::Vector(expected).identity(),
{
    lemma_search_found(rows, expected, 0, None, position);
}

proof fn lemma_search_found(
    rows: Seq<LegacyDefinitionRow>,
    expected: VectorShape,
    start: int,
    found: Option<int>,
    position: int,
)
    requires
        0 <= start <= rows.len(),
        found matches Some(found) ==> 0 <= found < start && adoption_verdict(
            rows[found],
            expected,
        ) is Source,
        forall|other: int|
            0 <= other < start && found != Some(other) ==> adoption_verdict(
                #[trigger] rows[other],
                expected,
            ) is Other,
        adoption_search(rows, expected, start, found) == AdoptionSearch::Found(position),
    ensures
        0 <= position < rows.len(),
        adoption_verdict(rows[position], expected) is Source,
        forall|other: int|
            0 <= other < rows.len() && other != position ==> adoption_verdict(
                #[trigger] rows[other],
                expected,
            ) is Other,
    decreases rows.len() - start,
{
    if start < rows.len() {
        match adoption_verdict(rows[start], expected) {
            AdoptionVerdict::Other => {
                lemma_search_found(rows, expected, start + 1, found, position);
            },
            AdoptionVerdict::Source => {
                lemma_search_found(rows, expected, start + 1, Some(start), position);
            },
            _ => {},
        }
    }
}

/// Whether every count of a vector definition fits the legacy form.
pub open spec fn fits_legacy_counts(shape: VectorShape) -> bool {
    &&& shape.dimension <= usize::MAX
    &&& shape.m <= usize::MAX
    &&& shape.m0 <= usize::MAX
    &&& shape.ef_construction <= usize::MAX
    &&& shape.simhash_threshold <= usize::MAX
}

/// The message that names the first count that does not fit the legacy form.
pub open spec fn legacy_count_message(shape: VectorShape) -> Seq<char> {
    if shape.dimension > usize::MAX {
        "validated vector dimension does not fit usize"@
    } else if shape.m > usize::MAX {
        "validated vector m does not fit usize"@
    } else if shape.m0 > usize::MAX {
        "validated vector m0 does not fit usize"@
    } else if shape.ef_construction > usize::MAX {
        "validated vector ef_construction does not fit usize"@
    } else {
        "validated vector simhash threshold does not fit usize"@
    }
}

fn legacy_count(value: u64, message: &str) -> (count: Result<usize, HelixDbError>)
    ensures
        match count {
            Ok(count) => count == value,
            Err(error) => value > usize::MAX && error.is_invariant_violation(message@),
        },
{
    if value <= usize::MAX as u64 {
        Ok(value as usize)
    } else {
        Err(HelixDbError::InvariantViolation(message.to_owned()))
    }
}

fn legacy_vector_form(definition: &VectorIndexDefinition) -> (legacy: Result<
    LegacyVectorIndexDefinition,
    HelixDbError,
>)
    ensures
        legacy is Ok <==> fits_legacy_counts(definition@),
        legacy matches Ok(legacy) ==> legacy@ == definition@,
        legacy matches Err(error) ==> error.is_invariant_violation(
            legacy_count_message(definition@),
        ),
{
    let copy = definition.duplicate();
    let dimension: usize = match legacy_count(
        copy.dimension,
        "validated vector dimension does not fit usize",
    ) {
        Ok(count) => count,
        Err(error) => {
            return Err(error);
        },
    };
    let m: usize = match legacy_count(copy.m, "validated vector m does not fit usize") {
        Ok(count) => count,
        Err(error) => {
            return Err(error);
        },
    };
    let m0: usize = match legacy_count(copy.m0, "validated vector m0 does not fit usize") {
        Ok(count) => count,
        Err(error) => {
            return Err(error);
        },
    };
    let ef_construction: usize = match legacy_count(
        copy.ef_construction,
        "validated vector ef_construction does not fit usize",
    ) {
        Ok(count) => count,
        Err(error) => {
            return Err(error);
        },
    };
    let simhash_threshold: usize = match legacy_count(
        copy.simhash_threshold,
        "validated vector simhash threshold does not fit usize",
    ) {
        Ok(count) => count,
        Err(error) => {
            return Err(error);
        },
    };
    Ok(
        LegacyVectorIndexDefinition {
            element_type: copy.element_type,
            label: copy.label,
            property: copy.property,
            tenant_property: copy.tenant_property,
            dimension,
            metric: copy.metric,
            m,
            m0,
            ef_construction,
            ml_bits: copy.ml_bits,
            simhash_threshold,
            sampling_ratio_bits: copy.sampling_ratio_bits,
            adaptive_enabled: copy.adaptive_enabled,
            adaptive_failure_prob_bits: copy.adaptive_failure_prob_bits,
        },
    )
}

/// Builds the legacy catalog row that stands for a definition: its key and its value.
pub fn migration_parity_legacy_catalog_row(
    definition: &ValidatedDynamicIndexDefinition,
    tombstone: bool,
) -> (row: Result<(LegacyDynamicIndexKey, LegacyDynamicIndexCatalogEntry), HelixDbError>)
    ensures
        row is Ok <==> (definition@ matches DefinitionShape::Vector(shape) ==> fits_legacy_counts(
            shape,
        )),
        row matches Ok((key, entry)) ==> key@ == definition@.legacy_key() && match entry {
            LegacyDynamicIndexCatalogEntry::Definition(legacy) => !tombstone && legacy@
                == definition@,
            LegacyDynamicIndexCatalogEntry::Tombstone { tombstone: marker } => tombstone && marker,
        },
        row matches Err(error) ==> error.is_invariant_violation(
            legacy_count_message(definition@->Vector_0),
        ),
{
    let legacy = match definition {
        ValidatedDynamicIndexDefinition::Secondary(definition) =>
            LegacyDynamicIndexDefinition::Secondary(
                LegacySecondaryIndexDefinition {
                    element_type: definition.element_type,
                    kind: definition.kind,
                    label: definition.label.clone(),
                    property: definition.property.clone(),
                    unique: definition.unique,
                    direction: definition.direction,
                },
            ),
        ValidatedDynamicIndexDefinition::Vector(definition) => match legacy_vector_form(
            definition,
        ) {
            Ok(legacy) => LegacyDynamicIndexDefinition::Vector(legacy),
            Err(error) => {
                return Err(error);
            },
        },
        ValidatedDynamicIndexDefinition::Text(definition) => {
            let tenant_property = match &definition.tenant_property {
                Some(property) => Some(property.clone()),
                None => None,
            };
            LegacyDynamicIndexDefinition::Text(
                LegacyTextIndexDefinition {
                    element_type: definition.element_type,
                    label: definition.label.clone(),
                    property: definition.property.clone(),
                    tenant_property,
                    analyzer: definition.analyzer,
                    positions_enabled: definition.positions_enabled,
                },
            )
        },
    };
    let key = legacy.key();
    let entry = if tombstone {
        LegacyDynamicIndexCatalogEntry::Tombstone { tombstone: true }
    } else {
        LegacyDynamicIndexCatalogEntry::Definition(legacy)
    };
    Ok((key, entry))
}

/// The JSON tree of a tombstone.
pub open spec fn tombstone_tree(tombstone: bool) -> JsonTree {
    JsonTree::Members(seq![("tombstone"@, JsonTree::Bool(tombstone))])
}

/// Encodes a tombstone for the legacy catalog; reading it gives the marker back.
pub fn tombstone_json(tombstone: bool) -> (bytes: Result<Vec<u8>, HelixDbError>)
    ensures
        bytes matches Ok(bytes) && {
            &&& bytes@ == crate::json::written_json(tombstone_tree(tombstone))
            &&& crate::json::parsed_json(bytes@) == Ok::<JsonTree, Seq<char>>(
                tombstone_tree(tombstone),
            )
        },
{
    let mut members: Vec<(String, serde_json::Value)> = Vec::new();
    members.push(("tombstone".to_owned(), json_bool(tombstone)));
    let ghost trees = crate::json::member_trees(members@);
    assert(trees =~= seq![("tombstone"@, JsonTree::Bool(tombstone))]);
    proof {
        reveal_with_fuel(JsonTree::is_plain, 3);
        assert(trees[0].1.is_plain(99));
        assert(tombstone_tree(tombstone).is_plain(100));
    }
    match json_write(&json_record(members)) {
        Ok(bytes) => Ok(bytes),
        Err(detail) => Err(
            HelixDbError::Config(
                joined(
                    "failed to encode legacy dynamic index catalog entry: ",
                    detail.as_str(),
                ),
            ),
        ),
    }
}

/// The legacy row of a definition gives the definition back: the key is the one that the
/// definition in it has, and taking that definition into the current form, where nothing
/// refuses it, changes no setting and no identity. A tombstone stands under the same key.
pub proof fn law_legacy_row_keeps_the_definition(
    definition: DefinitionShape,
    row: LegacyDefinitionRow,
    outcome: Result<LegacyRowAction, HelixDbError>,
)
    requires
        definition.is_coherent(),
        row.identity@ == definition.legacy_key(),
        match row.entry {
            LegacyDynamicIndexCatalogEntry::Definition(legacy) => legacy@ == definition,
            LegacyDynamicIndexCatalogEntry::Tombstone { tombstone } => tombstone,
        },
        row.identity_refusal is None,
        row.definition_refusal is None,
        is_row_action(row, outcome),
    ensures
        match row.entry {
            LegacyDynamicIndexCatalogEntry::Definition(_) => outcome matches Ok(
                LegacyRowAction::Converge(converged),
            ) && converged@ == definition,
            LegacyDynamicIndexCatalogEntry::Tombstone { .. } => outcome matches Ok(
                LegacyRowAction::DropIdentity(identity),
            ) && identity@ == definition.identity(),
        },
{
    super::definitions::law_legacy_key_keeps_identity(definition);
}

/// A definition that stands under its own key comes to life as it is wherever the current
/// form takes it: every range that is not unique, every ascending equality that is unique on
/// nodes only, and every vector and text definition.
pub proof fn law_taken_definitions_converge(
    row: LegacyDefinitionRow,
    outcome: Result<LegacyRowAction, HelixDbError>,
)
    requires
        row.entry is Definition,
        row.entry->Definition_0@.legacy_key() == row.identity@,
        row.entry->Definition_0@ matches DefinitionShape::Secondary(shape) ==> (if shape.kind
            is Range {
            !shape.unique
        } else {
            shape.direction is Asc && (shape.element_type is Node || !shape.unique)
        }),
        row.identity_refusal is None,
        row.definition_refusal is None,
        is_row_action(row, outcome),
    ensures
        outcome matches Ok(LegacyRowAction::Converge(definition)) && definition@
            == row.entry->Definition_0@,
{
}

/// A row never leads to an action that its key does not ask for: a definition under another
/// key, a definition or key that is refused, and a tombstone without its marker each fail.
pub proof fn law_conflicting_rows_fail(
    row: LegacyDefinitionRow,
    outcome: Result<LegacyRowAction, HelixDbError>,
)
    requires
        is_row_action(row, outcome),
    ensures
        (row.entry matches LegacyDynamicIndexCatalogEntry::Definition(legacy)
            && legacy@.legacy_key() != row.identity@) ==> (outcome matches Err(error)
            && error.is_corruption("legacy dynamic definition key/value identity mismatch"@)),
        (row.entry is Definition && row.definition_refusal is Some) ==> outcome is Err,
        row.identity_refusal is Some ==> outcome is Err,
        (row.entry matches LegacyDynamicIndexCatalogEntry::Tombstone { tombstone } && !tombstone)
            ==> (outcome matches Err(error) && error.is_corruption(
            "legacy dynamic catalog tombstone marker is false"@,
        )),
        outcome matches Ok(LegacyRowAction::Converge(definition)) ==> row.entry is Definition
            && definition@.identity() == row.identity@.identity(),
        outcome matches Ok(LegacyRowAction::DropIdentity(identity)) ==> row.entry is Tombstone
            && identity@ == row.identity@.identity(),
{
    if row.entry is Definition {
        super::definitions::law_legacy_key_keeps_identity(row.entry->Definition_0@);
    }
}

/// Vector rows leave with the physical cleanup, other definitions once they are active, and
/// tombstones once their identity is gone.
pub proof fn law_rows_retire_by_family(
    row: LegacyDefinitionRow,
    outcome: Result<LegacyRowRetirement, HelixDbError>,
)
    requires
        is_row_retirement(row, outcome),
    ensures
        outcome matches Ok(LegacyRowRetirement::ByVectorCleanup) <==> (row.entry matches
            LegacyDynamicIndexCatalogEntry::Definition(legacy) && legacy@ is Vector
            && row.definition_refusal is None),
        outcome matches Ok(LegacyRowRetirement::AfterDrop) <==> row.entry is Tombstone,
        outcome matches Ok(LegacyRowRetirement::AfterActivation(definition)) ==> (row.entry matches
            LegacyDynamicIndexCatalogEntry::Definition(legacy) && definition@ == legacy@),
        (row.entry matches LegacyDynamicIndexCatalogEntry::Definition(legacy) && legacy@ is Text
            && row.definition_refusal is None) ==> outcome matches Ok(
            LegacyRowRetirement::AfterActivation(_),
        ),
        (row.entry matches LegacyDynamicIndexCatalogEntry::Definition(legacy)
            && row.definition_refusal is None && (legacy@ matches DefinitionShape::Secondary(shape)
            && shape.kind is Range && !shape.unique)) ==> outcome matches Ok(
            LegacyRowRetirement::AfterActivation(_),
        ),
        (row.entry is Definition && row.definition_refusal is Some) ==> outcome is Err,
{
}

/// Whether a row belongs to an index other than the one that a vector definition names.
pub open spec fn is_another_index(row: LegacyDefinitionRow, expected: VectorShape) -> bool {
    &&& row.identity_refusal is None
    &&& match row.identity {
        LegacyDynamicIndexKey::Secondary(definition) => definition.kind is Range
            && !definition.unique || (definition.kind is Equality && definition.direction is Asc
            && !definition.unique),
        LegacyDynamicIndexKey::Vector { element_type, label, property } => element_type
            != expected.element_type || label@ != expected.label || property@ != expected.property,
        LegacyDynamicIndexKey::Text { .. } => true,
    }
}

/// Whether a row holds exactly a vector definition under its own key.
pub open spec fn holds_exactly(row: LegacyDefinitionRow, expected: VectorShape) -> bool {
    &&& row.identity_refusal is None
    &&& row.definition_refusal is None
    &&& row.identity matches LegacyDynamicIndexKey::Vector { element_type, label, property }
        && element_type == expected.element_type && label@ == expected.label && property@
        == expected.property
    &&& row.entry matches LegacyDynamicIndexCatalogEntry::Definition(legacy) && legacy@
        == DefinitionShape::Vector(expected)
}

proof fn lemma_search_goes_on(
    rows: Seq<LegacyDefinitionRow>,
    expected: VectorShape,
    from: int,
    to: int,
    found: Option<int>,
)
    requires
        0 <= from <= to <= rows.len(),
        forall|i: int| from <= i < to ==> is_another_index(#[trigger] rows[i], expected),
    ensures
        adoption_search(rows, expected, from, found) == adoption_search(rows, expected, to, found),
    decreases to - from,
{
    if from < to {
        assert(is_another_index(rows[from], expected));
        assert(adoption_verdict(rows[from], expected) is Other);
        lemma_search_goes_on(rows, expected, from + 1, to, found);
    }
}

/// The one row that holds a vector definition exactly is accepted as its source wherever it
/// stands among rows of other indexes; without it the source is missing.
pub proof fn law_the_exact_source_is_accepted(
    rows: Seq<LegacyDefinitionRow>,
    expected: VectorShape,
    position: int,
)
    requires
        0 <= position <= rows.len(),
        position < rows.len() ==> holds_exactly(rows[position], expected),
        forall|i: int|
            0 <= i < rows.len() && i != position ==> is_another_index(#[trigger] rows[i], expected),
    ensures
        position < rows.len() ==> adoption_search(rows, expected, 0, None)
            == AdoptionSearch::Found(position),
        position == rows.len() ==> adoption_search(rows, expected, 0, None) is Missing,
{
    lemma_search_goes_on(rows, expected, 0, position, None);
    if position < rows.len() {
        assert(adoption_verdict(rows[position], expected) is Source);
        lemma_search_goes_on(
            rows,
            expected,
            position + 1,
            rows.len() as int,
            Some(position),
        );
    }
}

/// A row with the key of a vector definition stops the search where it is a tombstone or
/// holds anything else, and a second exact row is a repetition.
pub proof fn law_changed_sources_are_refused(
    rows: Seq<LegacyDefinitionRow>,
    expected: VectorShape,
    position: int,
    error: HelixDbError,
)
    requires
        0 <= position < rows.len(),
        forall|i: int| 0 <= i < position ==> is_another_index(#[trigger] rows[i], expected),
        rows[position].identity_refusal is None,
        rows[position].identity@ == DefinitionShape::Vector(expected).legacy_key(),
        !holds_exactly(rows[position], expected),
    ensures
        adoption_search(rows, expected, 0, None) == AdoptionSearch::Stopped(position),
        (rows[position].entry is Tombstone && reports_adoption_stop(
            error,
            rows[position],
            expected,
        )) ==> error.is_migration_required("legacy vector adoption source became a tombstone"@),
        (rows[position].entry matches LegacyDynamicIndexCatalogEntry::Definition(legacy)
            && legacy@.legacy_key() != rows[position].identity@ && reports_adoption_stop(
            error,
            rows[position],
            expected,
        )) ==> error.is_corruption("legacy vector adoption key/value identity mismatch"@),
        (rows[position].entry matches LegacyDynamicIndexCatalogEntry::Definition(legacy)
            && legacy@.legacy_key() == rows[position].identity@
            && rows[position].definition_refusal is None && reports_adoption_stop(
            error,
            rows[position],
            expected,
        )) ==> error.is_migration_required(
            "legacy vector adoption definition changed before activation"@,
        ),
{
    lemma_search_goes_on(rows, expected, 0, position, None);
}

/// A vector definition fits the legacy form exactly where each of its counts does, and the
/// first that does not is named.
pub proof fn law_counts_fit_one_by_one(shape: VectorShape)
    ensures
        fits_legacy_counts(shape) <==> shape.dimension <= usize::MAX && shape.m <= usize::MAX
            && shape.m0 <= usize::MAX && shape.ef_construction <= usize::MAX
            && shape.simhash_threshold <= usize::MAX,
        shape.dimension > usize::MAX ==> legacy_count_message(shape)
            == "validated vector dimension does not fit usize"@,
        (shape.dimension <= usize::MAX && shape.m > usize::MAX) ==> legacy_count_message(shape)
            == "validated vector m does not fit usize"@,
        (shape.dimension <= usize::MAX && shape.m <= usize::MAX && shape.m0 > usize::MAX)
            ==> legacy_count_message(shape) == "validated vector m0 does not fit usize"@,
        (shape.dimension <= usize::MAX && shape.m <= usize::MAX && shape.m0 <= usize::MAX
            && shape.ef_construction > usize::MAX) ==> legacy_count_message(shape)
            == "validated vector ef_construction does not fit usize"@,
        (shape.dimension <= usize::MAX && shape.m <= usize::MAX && shape.m0 <= usize::MAX
            && shape.ef_construction <= usize::MAX) ==> legacy_count_message(shape)
            == "validated vector simhash threshold does not fit usize"@,
        tombstone_tree(true) == JsonTree::Members(seq![("tombstone"@, JsonTree::Bool(true))]),
        tombstone_tree(false) == JsonTree::Members(seq![("tombstone"@, JsonTree::Bool(false))]),
{
}

/// A row that stops the search for a source is reported by what is wrong with it, and a row
/// that is the source, or is about another index, is never reported.
pub proof fn law_stopped_searches_say_why(
    error: HelixDbError,
    row: LegacyDefinitionRow,
    expected: VectorShape,
)
    ensures
        adoption_verdict(row, expected) is Tombstone ==> (reports_adoption_stop(
            error,
            row,
            expected,
        ) <==> error.is_migration_required("legacy vector adoption source became a tombstone"@)),
        adoption_verdict(row, expected) is KeyMismatch ==> (reports_adoption_stop(
            error,
            row,
            expected,
        ) <==> error.is_corruption("legacy vector adoption key/value identity mismatch"@)),
        adoption_verdict(row, expected) is Changed ==> (reports_adoption_stop(
            error,
            row,
            expected,
        ) <==> error.is_migration_required(
            "legacy vector adoption definition changed before activation"@,
        )),
        adoption_verdict(row, expected) is RefusedIdentity ==> (reports_adoption_stop(
            error,
            row,
            expected,
        ) <==> row.identity@.is_refused_with(
            super::definitions::text_option(row.identity_refusal),
            error,
        )),
        adoption_verdict(row, expected) is RefusedDefinition ==> (reports_adoption_stop(
            error,
            row,
            expected,
        ) <==> row.entry->Definition_0@.is_refused_with(
            super::definitions::text_option(row.definition_refusal),
            error,
        )),
        adoption_verdict(row, expected) is Source || adoption_verdict(row, expected) is Other
            ==> !reports_adoption_stop(error, row, expected),
{
}

} // verus!
