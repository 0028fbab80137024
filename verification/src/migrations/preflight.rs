//! Reservation of the vector namespaces that legacy definitions own.
//!
//! A writer open collects what the store holds, in the order of the methods of
//! [`ReservationPreflight`], and then asks which namespaces it has to reserve. The
//! answer is the complete set or a failure, so one transaction installs all of it or
//! leaves every row as it was.
use std::collections::BTreeMap;
use vstd::prelude::*;

use super::catalog::LegacyDefinitionRow;
use super::definitions::{
    DefinitionShape, LegacyDynamicIndexCatalogEntry, LegacyDynamicIndexDefinition,
    ValidatedDynamicIndexDefinition, VectorIndexDefinition, VectorShape,
};
use super::records::{
    IndexOperationId, IndexRecord, IndexState, LegacyVectorPhysicalReservation, PhysicalLayout,
};
use crate::error::HelixDbError;
use crate::id_map::{add_new, sorted_ids};
use crate::names::text_precedes;
use crate::text::{decimal_text, joined, joined3};

verus! {

/// One row under the reservation prefix, as its codec saw it.
#[derive(Debug, Clone, Copy, PartialEq, Eq, Structural)]
pub struct ReservationRow {
    /// Namespace that the key names; `None` where it is another key.
    pub physical_id: Option<u64>,
    /// Reservation that the value holds; `None` where it is another value.
    pub reservation: Option<LegacyVectorPhysicalReservation>,
}

/// One row of the vector metadata scan, as its codecs saw it.
#[derive(Debug)]
pub enum VectorMetadataRow {
    /// The key lies outside the scanned scope.
    OutsideScope,
    /// The row is no metadata, or a transaction guard.
    Unrelated,
    /// Legacy metadata: the name of the namespace, its id, and the hash of the name.
    Legacy { name: String, index_id: u64, name_hash: u64 },
    /// Metadata in the current format.
    Current,
    /// Neither format; why the legacy one was refused.
    Undecodable { legacy_error: String },
}

/// How the namespaces of one legacy vector definition are named.
#[derive(Debug)]
pub enum PhysicalNaming {
    /// One namespace: its name and the hash of the name.
    Single { name: String, name_hash: u64 },
    /// One namespace per tenant: what their names start with.
    PerTenant { name_prefix: String },
}

/// One namespace that a legacy definition claims.
#[derive(Debug)]
pub struct SourceCandidate {
    pub name: String,
    pub name_hash: u64,
}

/// A namespace that a legacy definition owns.
#[derive(Debug)]
pub struct LegacySource {
    pub definition: VectorIndexDefinition,
    pub name: String,
}

/// How far a record that owns a namespace has come.
#[derive(Debug, Clone, Copy, PartialEq, Eq, Structural)]
pub enum OwnerState {
    Building(IndexOperationId),
    Aborting(IndexOperationId),
    Active,
    Dropping,
}

/// A record of the current catalog that owns a namespace.
#[derive(Debug)]
pub struct PhysicalOwner {
    pub index_id: u64,
    pub generation: u64,
    pub definition: VectorIndexDefinition,
    pub state: OwnerState,
}

/// A legacy metadata name with the id and the hash it goes with.
#[derive(Debug)]
struct MetadataName {
    name: String,
    index_id: u64,
    name_hash: u64,
}

/// A legacy metadata name as a mathematical value.
pub struct NameShape {
    pub name: Seq<char>,
    pub index_id: u64,
    pub name_hash: u64,
}

/// What a preflight has collected, as a mathematical value.
pub struct PreflightShape {
    /// Namespaces that are being retired.
    pub retiring: Map<u64, (u64, u64)>,
    /// Legacy metadata names in scan order.
    pub names: Seq<NameShape>,
    /// Namespaces that legacy definitions own.
    pub sources: Map<u64, LegacySource>,
    /// Namespaces that records own.
    pub owners: Map<u64, PhysicalOwner>,
    /// Active vector generations.
    pub active: Seq<(u64, u64)>,
    /// Namespaces of partitioned records.
    pub partitioned: Map<u64, ()>,
    /// Existing reservations.
    pub reservations: Map<u64, LegacyVectorPhysicalReservation>,
}

impl PreflightShape {
    /// Whether a reservation agrees with who owns its namespace.
    pub open spec fn agrees(
        self,
        physical_id: u64,
        reservation: LegacyVectorPhysicalReservation,
    ) -> bool {
        let legacy = self.sources.contains_key(physical_id);
        let owned = self.owners.contains_key(physical_id);
        let owner = self.owners[physical_id];
        &&& !self.partitioned.contains_key(physical_id)
        &&& match reservation {
            LegacyVectorPhysicalReservation::LegacySource => legacy && !owned,
            LegacyVectorPhysicalReservation::AdoptionBuilding {
                index_id,
                generation,
                operation_id,
            } => {
                &&& legacy && owned
                &&& owner.index_id == index_id && owner.generation == generation
                &&& owner.definition@ == self.sources[physical_id].definition@
                &&& owner.state == OwnerState::Building(operation_id) || owner.state
                    == OwnerState::Aborting(operation_id)
            },
            LegacyVectorPhysicalReservation::AdoptedActive { index_id, generation } => {
                &&& !legacy && owned
                &&& owner.index_id == index_id && owner.generation == generation
                &&& owner.state is Active || owner.state is Dropping
            },
            LegacyVectorPhysicalReservation::RetiringSource { index_id, generation } => {
                &&& !legacy && !owned
                &&& self.active.contains((index_id, generation))
            },
        }
    }

    /// Whether the reservation of a namespace disagrees with who owns it.
    pub open spec fn is_inconsistent(self, physical_id: u64) -> bool {
        self.reservations.contains_key(physical_id) && !self.agrees(
            physical_id,
            self.reservations[physical_id],
        )
    }

    /// Whether a legacy source has no reservation yet.
    pub open spec fn is_unreserved(self, physical_id: u64) -> bool {
        self.sources.contains_key(physical_id) && !self.reservations.contains_key(physical_id)
    }

    /// Whether an unreserved legacy source lies where the current catalog has rows.
    pub open spec fn collides(self, physical_id: u64) -> bool {
        self.is_unreserved(physical_id) && (self.owners.contains_key(physical_id)
            || self.partitioned.contains_key(physical_id))
    }

    /// Whether nothing stands in the way of reserving every legacy source.
    pub open spec fn is_clear(self) -> bool {
        &&& forall|id: u64| !#[trigger] self.is_inconsistent(id)
        &&& forall|id: u64| !#[trigger] self.collides(id)
    }

    /// The first legacy metadata row from a position on that has a name.
    pub open spec fn position_of_name(self, name: Seq<char>, from: int) -> Option<int>
        decreases self.names.len() - from,
    {
        if from >= self.names.len() {
            None
        } else if self.names[from].name == name {
            Some(from)
        } else {
            self.position_of_name(name, from + 1)
        }
    }

    /// Whether legacy metadata has a name.
    pub open spec fn has_name(self, name: Seq<char>) -> bool {
        self.position_of_name(name, 0) is Some
    }

    /// The namespace of a name: the one that legacy metadata gives it, or its hash.
    pub open spec fn namespace_of(self, name: Seq<char>, name_hash: u64) -> u64 {
        match self.position_of_name(name, 0) {
            Some(position) => self.names[position].index_id,
            None => name_hash,
        }
    }

    /// Whether the namespace under a hash is being retired.
    pub open spec fn is_retiring(self, name_hash: u64) -> bool {
        name_hash != 0 && self.retiring.contains_key(name_hash)
    }

    /// The namespaces among the first `count` metadata names that a tenant prefix claims.
    pub open spec fn tenant_names(self, prefix: Seq<char>, count: int) -> Seq<(Seq<char>, u64)>
        decreases count,
    {
        if count <= 0 {
            Seq::empty()
        } else {
            let earlier = self.tenant_names(prefix, count - 1);
            let name = self.names[count - 1];
            if starts_with(name.name, prefix) && !self.is_retiring(name.name_hash) {
                earlier.push((name.name, name.name_hash))
            } else {
                earlier
            }
        }
    }

    /// Whether these are the namespaces that a definition claims, without those being
    /// retired; those of several tenants stand in the order of their names.
    pub open spec fn claims(self, naming: PhysicalNaming, claimed: Seq<(Seq<char>, u64)>) -> bool {
        match naming {
            PhysicalNaming::Single { name, name_hash } => claimed == if self.is_retiring(
                name_hash,
            ) {
                Seq::empty()
            } else {
                seq![(name@, name_hash)]
            },
            PhysicalNaming::PerTenant { name_prefix } => {
                &&& names_ascend(claimed)
                &&& claimed.to_multiset() == self.tenant_names(
                    name_prefix@,
                    self.names.len() as int,
                ).to_multiset()
            },
        }
    }

    /// The same collection with more reservations for the legacy source alone.
    pub open spec fn with_reserved(self, ids: Seq<u64>) -> PreflightShape {
        PreflightShape {
            reservations: Map::new(
                |id: u64| self.reservations.contains_key(id) || ids.contains(id),
                |id: u64|
                    if self.reservations.contains_key(id) {
                        self.reservations[id]
                    } else {
                        LegacyVectorPhysicalReservation::LegacySource
                    },
            ),
            ..self
        }
    }
}

/// Whether no smaller id has a property.
pub open spec fn is_least(id: u64, has: spec_fn(u64) -> bool) -> bool {
    has(id) && forall|smaller: u64| smaller < id ==> !#[trigger] has(smaller)
}

/// Whether no name stands behind one that it comes before.
pub open spec fn names_ascend(claimed: Seq<(Seq<char>, u64)>) -> bool {
    forall|i: int, j: int|
        0 <= i < j < claimed.len() ==> !crate::names::name_precedes(
            (#[trigger] claimed[j]).0,
            (#[trigger] claimed[i]).0,
        )
}

/// Puts a namespace where its name belongs.
fn place_candidate(claimed: &mut Vec<SourceCandidate>, candidate: SourceCandidate)
    requires
        names_ascend(claimed_views(old(claimed)@)),
    ensures
        names_ascend(claimed_views(final(claimed)@)),
        claimed_views(final(claimed)@).to_multiset() == claimed_views(
            old(claimed)@,
        ).to_multiset().insert((candidate.name@, candidate.name_hash)),
{
    let ghost before = claimed_views(claimed@);
    let ghost added = (candidate.name@, candidate.name_hash);
    let mut place: usize = 0;
    while place < claimed.len() && !text_precedes(
        candidate.name.as_str(),
        claimed[place].name.as_str(),
    )
        invariant
            place <= claimed@.len(),
            before == claimed_views(claimed@),
            forall|i: int|
                0 <= i < place ==> !crate::names::name_precedes(
                    candidate.name@,
                    (#[trigger] before[i]).0,
                ),
        decreases claimed@.len() - place,
    {
        assert(before[place as int].0 == claimed@[place as int].name@);
        place = place + 1;
    }
    proof {
        if place < before.len() {
            assert(before[place as int].0 == claimed@[place as int].name@);
        }
        assert forall|j: int| place <= j < before.len() implies !crate::names::name_precedes(
            (#[trigger] before[j]).0,
            candidate.name@,
        ) by {
            crate::names::law_names_are_ordered(
                before[j].0,
                candidate.name@,
                before[place as int].0,
            );
            crate::names::law_names_are_ordered(candidate.name@, before[j].0, candidate.name@);
        }
    }
    claimed.insert(place, candidate);
    proof {
        let after = claimed_views(claimed@);
        assert(after =~= before.insert(place as int, added));
        after.to_multiset_ensures();
        assert(after.remove(place as int) =~= before);
        assert(after[place as int] == added);
        assert(after.contains(added));
        assert(after.to_multiset() =~= before.to_multiset().insert(added));
        assert forall|i: int, j: int| 0 <= i < j < after.len() implies !crate::names::name_precedes(
            (#[trigger] after[j]).0,
            (#[trigger] after[i]).0,
        ) by {
            let left = if i < place { i } else { i - 1 };
            let right = if j < place { j } else { j - 1 };
            if i == place {
                assert(after[j] == before[right]);
            } else if j == place {
                assert(after[i] == before[left]);
            } else {
                assert(after[i] == before[left] && after[j] == before[right]);
            }
        }
    }
}

/// Whether text starts with other text, byte by byte.
pub open spec fn starts_with(text: Seq<char>, start: Seq<char>) -> bool {
    vstd::utf8::encode_utf8(start).is_prefix_of(vstd::utf8::encode_utf8(text))
}

fn text_starts_with(text: &str, start: &str) -> (starts: bool)
    ensures
        starts == starts_with(text@, start@),
{
    let bytes = text.as_bytes();
    let head = start.as_bytes();
    if head.len() > bytes.len() {
        return false;
    }
    let mut position: usize = 0;
    while position < head.len()
        invariant
            position <= head@.len() <= bytes@.len(),
            forall|i: int| 0 <= i < position ==> head@[i] == bytes@[i],
            bytes@ == vstd::utf8::encode_utf8(text@),
            head@ == vstd::utf8::encode_utf8(start@),
        decreases head@.len() - position,
    {
        if head[position] != bytes[position] {
            assert(head@ != bytes@.subrange(0, head@.len() as int)) by {
                assert(bytes@.subrange(0, head@.len() as int)[position as int]
                    == bytes@[position as int]);
            }
            return false;
        }
        position = position + 1;
    }
    assert(head@ =~= bytes@.subrange(0, head@.len() as int));
    true
}

/// The namespaces that legacy definitions own; none of them is zero.
#[derive(Debug)]
struct SourceTable {
    sources: BTreeMap<u64, LegacySource>,
}

impl SourceTable {
    #[verifier::type_invariant]
    spec fn has_no_zero(self) -> bool {
        !self.sources@.contains_key(0)
    }

    fn new() -> (table: Self)
        ensures
            table.sources@ == Map::<u64, LegacySource>::empty(),
    {
        SourceTable { sources: BTreeMap::new() }
    }

    fn add_new(&mut self, id: u64, source: LegacySource) -> (added: bool)
        requires
            id != 0,
        ensures
            added == !old(self).sources@.contains_key(id),
            final(self).sources@ == if added {
                old(self).sources@.insert(id, source)
            } else {
                old(self).sources@
            },
    {
        proof {
            use_type_invariant(&*self);
        }
        let mut sources = BTreeMap::new();
        std::mem::swap(&mut sources, &mut self.sources);
        let added = add_new(&mut sources, id, source);
        self.sources = sources;
        added
    }

    fn ids(&self) -> (ids: Vec<u64>)
        ensures
            crate::id_map::ascending(ids@),
            forall|id: u64| #[trigger] ids@.contains(id) <==> self.sources@.contains_key(id),
            !self.sources@.contains_key(0),
    {
        proof {
            use_type_invariant(self);
        }
        sorted_ids(&self.sources)
    }
}

/// What the store holds about vector namespaces, as far as it has been collected.
#[derive(Debug)]
pub struct ReservationPreflight {
    retiring: BTreeMap<u64, (u64, u64)>,
    names: Vec<MetadataName>,
    sources: SourceTable,
    owners: BTreeMap<u64, PhysicalOwner>,
    active: Vec<(u64, u64)>,
    partitioned: BTreeMap<u64, ()>,
    reservations: BTreeMap<u64, LegacyVectorPhysicalReservation>,
}

impl View for ReservationPreflight {
    type V = PreflightShape;

    closed spec fn view(&self) -> PreflightShape {
        PreflightShape {
            retiring: self.retiring@,
            names: self.names@.map_values(
                |name: MetadataName|
                    NameShape {
                        name: name.name@,
                        index_id: name.index_id,
                        name_hash: name.name_hash,
                    },
            ),
            sources: self.sources.sources@,
            owners: self.owners@,
            active: self.active@,
            partitioned: self.partitioned@,
            reservations: self.reservations@,
        }
    }
}

/// The failure of a row under the reservation prefix that is no reservation.
pub open spec fn reports_foreign_row(error: HelixDbError, row: ReservationRow) -> bool {
    if row.physical_id is None {
        error.is_corruption("legacy vector reservation prefix yielded another key"@)
    } else {
        error.is_corruption("legacy vector reservation contains another value kind"@)
    }
}

fn reservation_of(row: ReservationRow) -> (parts: Result<
    (u64, LegacyVectorPhysicalReservation),
    HelixDbError,
>)
    ensures
        parts is Ok <==> row.physical_id is Some && row.reservation is Some,
        parts matches Ok((physical_id, reservation)) ==> row.physical_id == Some(physical_id)
            && row.reservation == Some(reservation),
        parts matches Err(error) ==> reports_foreign_row(error, row),
{
    let physical_id: u64 = match row.physical_id {
        Some(physical_id) => physical_id,
        None => {
            return Err(
                HelixDbError::IndexCatalogCorruption(
                    "legacy vector reservation prefix yielded another key".to_owned(),
                ),
            );
        },
    };
    match row.reservation {
        Some(reservation) => Ok((physical_id, reservation)),
        None => Err(
            HelixDbError::IndexCatalogCorruption(
                "legacy vector reservation contains another value kind".to_owned(),
            ),
        ),
    }
}

impl ReservationPreflight {
    /// Nothing collected yet.
    pub fn new() -> (preflight: Self)
        ensures
            preflight@ == (PreflightShape {
                retiring: Map::empty(),
                names: Seq::empty(),
                sources: Map::empty(),
                owners: Map::empty(),
                active: Seq::empty(),
                partitioned: Map::empty(),
                reservations: Map::empty(),
            }),
    {
        let preflight = ReservationPreflight {
            retiring: BTreeMap::new(),
            names: Vec::new(),
            sources: SourceTable::new(),
            owners: BTreeMap::new(),
            active: Vec::new(),
            partitioned: BTreeMap::new(),
            reservations: BTreeMap::new(),
        };
        assert(preflight@.names =~= Seq::empty());
        preflight
    }

    /// Collects one reservation row for the namespaces that are being retired.
    pub fn note_retiring(&mut self, row: ReservationRow) -> (noted: Result<(), HelixDbError>)
        ensures
            ({
                let before = old(self)@;
                if row.physical_id is None || row.reservation is None {
                    &&& noted matches Err(error) && reports_foreign_row(error, row)
                    &&& final(self)@ == before
                } else if row.reservation matches Some(
                    LegacyVectorPhysicalReservation::RetiringSource { index_id, generation },
                ) {
                    if before.retiring.contains_key(row.physical_id->0) {
                        &&& noted matches Err(error) && error.is_corruption(
                            "duplicate retiring legacy vector reservation"@,
                        )
                        &&& final(self)@ == before
                    } else {
                        &&& noted is Ok
                        &&& final(self)@ == (PreflightShape {
                            retiring: before.retiring.insert(
                                row.physical_id->0,
                                (row.reservation->0->RetiringSource_index_id,
                                    row.reservation->0->RetiringSource_generation),
                            ),
                            ..before
                        })
                    }
                } else {
                    &&& noted is Ok
                    &&& final(self)@ == before
                }
            }),
    {
        let (physical_id, reservation) = match reservation_of(row) {
            Ok(parts) => parts,
            Err(error) => {
                return Err(error);
            },
        };
        if let LegacyVectorPhysicalReservation::RetiringSource { index_id, generation } =
            reservation {
            if !add_new(&mut self.retiring, physical_id, (index_id, generation)) {
                return Err(
                    HelixDbError::IndexCatalogCorruption(
                        "duplicate retiring legacy vector reservation".to_owned(),
                    ),
                );
            }
        }
        Ok(())
    }

    fn find_name(&self, name: &str) -> (found: Option<usize>)
        ensures
            match found {
                Some(found) => found < self.names@.len() && self@.position_of_name(name@, 0)
                    == Some(found as int),
                None => self@.position_of_name(name@, 0) is None,
            },
    {
        let wanted = name.to_owned();
        let mut position: usize = 0;
        while position < self.names.len()
            invariant
                position <= self.names.len(),
                self@.names.len() == self.names@.len(),
                wanted@ == name@,
                self@.position_of_name(name@, 0) == self@.position_of_name(name@, position as int),
            decreases self.names.len() - position,
        {
            assert(self@.names[position as int].name == self.names@[position as int].name@);
            if self.names[position].name == wanted {
                return Some(position);
            }
            position = position + 1;
        }
        None
    }

    /// Collects one row of the vector metadata scan.
    pub fn note_metadata(&mut self, row: VectorMetadataRow) -> (noted: Result<(), HelixDbError>)
        ensures
            ({
                let before = old(self)@;
                match row {
                    VectorMetadataRow::OutsideScope => {
                        &&& noted matches Err(error) && error.is_corruption(
                            "vector metadata scan escaped its data scope"@,
                        )
                        &&& final(self)@ == before
                    },
                    VectorMetadataRow::Unrelated | VectorMetadataRow::Current => {
                        &&& noted is Ok
                        &&& final(self)@ == before
                    },
                    VectorMetadataRow::Undecodable { legacy_error } => {
                        &&& noted matches Err(error) && error.is_corruption(
                            "vector metadata decodes as neither legacy nor current: "@
                                + legacy_error@,
                        )
                        &&& final(self)@ == before
                    },
                    VectorMetadataRow::Legacy { name, index_id, name_hash } => if before.has_name(
                        name@,
                    ) {
                        &&& noted matches Err(error) && error.is_corruption(
                            "duplicate legacy vector physical name"@,
                        )
                        &&& final(self)@ == before
                    } else {
                        &&& noted is Ok
                        &&& final(self)@ == (PreflightShape {
                            names: before.names.push(
                                NameShape { name: name@, index_id, name_hash },
                            ),
                            ..before
                        })
                    },
                }
            }),
    {
        match row {
            VectorMetadataRow::OutsideScope => Err(
                HelixDbError::IndexCatalogCorruption(
                    "vector metadata scan escaped its data scope".to_owned(),
                ),
            ),
            VectorMetadataRow::Unrelated => Ok(()),
            VectorMetadataRow::Current => Ok(()),
            VectorMetadataRow::Undecodable { legacy_error } => Err(
                HelixDbError::IndexCatalogCorruption(
                    joined(
                        "vector metadata decodes as neither legacy nor current: ",
                        legacy_error.as_str(),
                    ),
                ),
            ),
            VectorMetadataRow::Legacy { name, index_id, name_hash } => {
                match self.find_name(name.as_str()) {
                    Some(_) => Err(
                        HelixDbError::IndexCatalogCorruption(
                            "duplicate legacy vector physical name".to_owned(),
                        ),
                    ),
                    None => {
                        self.names.push(MetadataName { name, index_id, name_hash });
                        assert(self@.names =~= old(self)@.names.push(
                            NameShape { name: name@, index_id, name_hash },
                        ));
                        Ok(())
                    },
                }
            },
        }
    }

    /// Lists the namespaces that one legacy row claims, in the order in which they
    /// are checked and taken over: that of their names.
    ///
    /// Rows of other families and tombstones claim none; a definition that the current
    /// form refuses stops the preflight.
    pub fn candidates(&self, row: &LegacyDefinitionRow, naming: &PhysicalNaming) -> (claimed:
        Result<Vec<SourceCandidate>, HelixDbError>)
        ensures
            match row.entry {
                LegacyDynamicIndexCatalogEntry::Definition(legacy) => if !(legacy@ is Vector) {
                    claimed matches Ok(claimed) && claimed@.len() == 0
                } else if legacy@.legacy_key() != row.identity@ {
                    claimed matches Err(error) && error.is_corruption(
                        "legacy vector preflight found a key/value identity mismatch"@,
                    )
                } else if row.definition_refusal is Some {
                    claimed matches Err(error) && error.is_config(row.definition_refusal->0@)
                } else {
                    claimed matches Ok(claimed) && self@.claims(*naming, claimed_views(claimed@))
                },
                LegacyDynamicIndexCatalogEntry::Tombstone { .. } => claimed matches Ok(claimed)
                    && claimed@.len() == 0,
            },
    {
        let mut claimed: Vec<SourceCandidate> = Vec::new();
        let legacy = match &row.entry {
            LegacyDynamicIndexCatalogEntry::Definition(legacy) => legacy,
            LegacyDynamicIndexCatalogEntry::Tombstone { .. } => {
                return Ok(claimed);
            },
        };
        match legacy {
            LegacyDynamicIndexDefinition::Vector(_) => {},
            _ => {
                return Ok(claimed);
            },
        }
        if !legacy.key().same_as(&row.identity) {
            return Err(
                HelixDbError::IndexCatalogCorruption(
                    "legacy vector preflight found a key/value identity mismatch".to_owned(),
                ),
            );
        }
        if let Some(text) = &row.definition_refusal {
            return Err(HelixDbError::Config(text.clone()));
        }
        assert(claimed_views(claimed@) =~= Seq::empty());
        match naming {
            PhysicalNaming::Single { name, name_hash } => {
                if *name_hash == 0 || !self.retiring.contains_key(name_hash) {
                    claimed.push(SourceCandidate { name: name.clone(), name_hash: *name_hash });
                    assert(claimed_views(claimed@) =~= seq![(name@, *name_hash)]);
                }
            },
            PhysicalNaming::PerTenant { name_prefix } => {
                let mut position: usize = 0;
                while position < self.names.len()
                    invariant
                        position <= self.names.len(),
                        self@.names.len() == self.names@.len(),
                        names_ascend(claimed_views(claimed@)),
                        claimed_views(claimed@).to_multiset() == self@.tenant_names(
                            name_prefix@,
                            position as int,
                        ).to_multiset(),
                    decreases self.names.len() - position,
                {
                    let entry = &self.names[position];
                    let ghost shape = self@.names[position as int];
                    assert(shape.name == entry.name@ && shape.name_hash == entry.name_hash);
                    if text_starts_with(entry.name.as_str(), name_prefix.as_str()) && (
                    entry.name_hash == 0 || !self.retiring.contains_key(&entry.name_hash)) {
                        place_candidate(
                            &mut claimed,
                            SourceCandidate { name: entry.name.clone(), name_hash: entry.name_hash },
                        );
                        proof {
                            self@.tenant_names(name_prefix@, position as int).to_multiset_ensures();
                        }
                    }
                    position = position + 1;
                }
            },
        }
        Ok(claimed)
    }

    /// Takes one claimed namespace as a source, where the stored metadata of its name is
    /// what the definition asks for.
    ///
    /// A name that hashes to zero has no namespace to reserve.
    pub fn add_source(
        &mut self,
        candidate: SourceCandidate,
        definition: VectorIndexDefinition,
        metadata: Result<(), HelixDbError>,
    ) -> (added: Result<(), HelixDbError>)
        ensures
            ({
                let before = old(self)@;
                let hash = candidate.name_hash;
                if metadata is Err {
                    &&& added == metadata
                    &&& final(self)@ == before
                } else if before.namespace_of(candidate.name@, hash) != hash {
                    &&& added matches Err(error) && error.is_corruption(
                        "legacy vector physical name hashes to another metadata namespace"@,
                    )
                    &&& final(self)@ == before
                } else if hash == 0 {
                    &&& added is Ok
                    &&& final(self)@ == before
                } else if before.sources.contains_key(hash) {
                    &&& added matches Err(error) && error.is_corruption(
                        "multiple legacy vector definitions hash to physical ID "@
                            + crate::text::decimal(hash as nat),
                    )
                    &&& final(self)@ == before
                } else {
                    &&& added is Ok
                    &&& final(self)@ == (PreflightShape {
                        sources: before.sources.insert(
                            hash,
                            LegacySource { definition, name: candidate.name },
                        ),
                        ..before
                    })
                }
            }),
    {
        match metadata {
            Ok(_) => {},
            Err(error) => {
                return Err(error);
            },
        }
        let physical_id: u64 = match self.find_name(candidate.name.as_str()) {
            Some(found) => {
                assert(self@.names[found as int].index_id == self.names@[found as int].index_id);
                self.names[found].index_id
            },
            None => candidate.name_hash,
        };
        if physical_id != candidate.name_hash {
            return Err(
                HelixDbError::IndexCatalogCorruption(
                    "legacy vector physical name hashes to another metadata namespace".to_owned(),
                ),
            );
        }
        if physical_id == 0 {
            return Ok(());
        }
        if !self.sources.add_new(physical_id, LegacySource { definition, name: candidate.name }) {
            return Err(
                HelixDbError::IndexCatalogCorruption(
                    joined(
                        "multiple legacy vector definitions hash to physical ID ",
                        decimal_text(physical_id).as_str(),
                    ),
                ),
            );
        }
        Ok(())
    }

    fn has_active(&self, index_id: u64, generation: u64) -> (present: bool)
        ensures
            present == self.active@.contains((index_id, generation)),
    {
        let mut position: usize = 0;
        while position < self.active.len()
            invariant
                position <= self.active.len(),
                forall|i: int| 0 <= i < position ==> self.active@[i] != (index_id, generation),
            decreases self.active.len() - position,
        {
            let entry = self.active[position];
            if entry.0 == index_id && entry.1 == generation {
                assert(self.active@[position as int] == (index_id, generation));
                return true;
            }
            position = position + 1;
        }
        false
    }

    /// Collects one record of the current catalog.
    pub fn note_record(&mut self, record: IndexRecord) -> (noted: Result<(), HelixDbError>)
        ensures
            ({
                let before = old(self)@;
                let generation = (record.index_id, record.generation);
                let listed = if record.state is Active {
                    PreflightShape { active: before.active.push(generation), ..before }
                } else {
                    before
                };
                match record.definition {
                    ValidatedDynamicIndexDefinition::Vector(definition) => if record.state is Active
                        && before.active.contains(generation) {
                        &&& noted matches Err(error) && error.is_corruption(
                            "multiple active vector records share one owner generation"@,
                        )
                        &&& final(self)@ == before
                    } else {
                        match (record.physical, owner_state(record.state)) {
                            (
                                PhysicalLayout::VectorUnpartitioned { physical_index_id },
                                Some(state),
                            ) => if before.owners.contains_key(physical_index_id) {
                                &&& noted matches Err(error) && error.is_corruption(
                                    "multiple V2 vector records own physical ID "@
                                        + crate::text::decimal(physical_index_id as nat),
                                )
                                &&& final(self)@ == listed
                            } else {
                                &&& noted is Ok
                                &&& final(self)@ == (PreflightShape {
                                    owners: before.owners.insert(
                                        physical_index_id,
                                        PhysicalOwner {
                                            index_id: record.index_id,
                                            generation: record.generation,
                                            definition,
                                            state,
                                        },
                                    ),
                                    ..listed
                                })
                            },
                            _ => {
                                &&& noted is Ok
                                &&& final(self)@ == listed
                            },
                        }
                    },
                    _ => {
                        &&& noted is Ok
                        &&& final(self)@ == before
                    },
                }
            }),
    {
        let definition = match record.definition {
            ValidatedDynamicIndexDefinition::Vector(definition) => definition,
            _ => {
                return Ok(());
            },
        };
        match record.state {
            IndexState::Active => {
                if self.has_active(record.index_id, record.generation) {
                    return Err(
                        HelixDbError::IndexCatalogCorruption(
                            "multiple active vector records share one owner generation".to_owned(),
                        ),
                    );
                }
                self.active.push((record.index_id, record.generation));
            },
            _ => {},
        }
        let physical_index_id: u64 = match record.physical {
            PhysicalLayout::VectorUnpartitioned { physical_index_id } => physical_index_id,
            _ => {
                return Ok(());
            },
        };
        let state = match record.state {
            IndexState::Building { build_operation_id } => OwnerState::Building(build_operation_id),
            IndexState::Aborting { build_operation_id } => OwnerState::Aborting(build_operation_id),
            IndexState::Active => OwnerState::Active,
            IndexState::Dropping { .. } => OwnerState::Dropping,
            IndexState::Dropped => {
                return Ok(());
            },
        };
        let owner = PhysicalOwner {
            index_id: record.index_id,
            generation: record.generation,
            definition,
            state,
        };
        if !add_new(&mut self.owners, physical_index_id, owner) {
            return Err(
                HelixDbError::IndexCatalogCorruption(
                    joined(
                        "multiple V2 vector records own physical ID ",
                        decimal_text(physical_index_id).as_str(),
                    ),
                ),
            );
        }
        Ok(())
    }

    /// Collects the namespace of one partition of the current catalog.
    pub fn note_partition(&mut self, physical_index_id: u64)
        ensures
            final(self)@ == (PreflightShape {
                partitioned: old(self)@.partitioned.insert(physical_index_id, ()),
                ..old(self)@
            }),
    {
        let added = add_new(&mut self.partitioned, physical_index_id, ());
        assert(!added ==> old(self)@.partitioned.insert(physical_index_id, ())
            =~= old(self)@.partitioned);
    }

    /// Collects one existing reservation.
    pub fn note_reservation(&mut self, row: ReservationRow) -> (noted: Result<(), HelixDbError>)
        ensures
            ({
                let before = old(self)@;
                if row.physical_id is None || row.reservation is None {
                    &&& noted matches Err(error) && reports_foreign_row(error, row)
                    &&& final(self)@ == before
                } else if before.reservations.contains_key(row.physical_id->0) {
                    &&& noted matches Err(error) && error.is_corruption(
                        "duplicate legacy vector reservation key"@,
                    )
                    &&& final(self)@ == before
                } else {
                    &&& noted is Ok
                    &&& final(self)@ == (PreflightShape {
                        reservations: before.reservations.insert(
                            row.physical_id->0,
                            row.reservation->0,
                        ),
                        ..before
                    })
                }
            }),
    {
        let (physical_id, reservation) = match reservation_of(row) {
            Ok(parts) => parts,
            Err(error) => {
                return Err(error);
            },
        };
        if !add_new(&mut self.reservations, physical_id, reservation) {
            return Err(
                HelixDbError::IndexCatalogCorruption(
                    "duplicate legacy vector reservation key".to_owned(),
                ),
            );
        }
        Ok(())
    }

    fn reservation_agrees(
        &self,
        physical_id: u64,
        reservation: &LegacyVectorPhysicalReservation,
    ) -> (agrees: bool)
        ensures
            agrees == self@.agrees(physical_id, *reservation),
    {
        if self.partitioned.contains_key(&physical_id) {
            return false;
        }
        let legacy = self.sources.sources.get(&physical_id);
        let owner = self.owners.get(&physical_id);
        match (*reservation, legacy, owner) {
            (LegacyVectorPhysicalReservation::LegacySource, Some(_), None) => true,
            (
                LegacyVectorPhysicalReservation::AdoptionBuilding {
                    index_id,
                    generation,
                    operation_id,
                },
                Some(legacy),
                Some(owner),
            ) => {
                let held = match owner.state {
                    OwnerState::Building(owner_operation) => owner_operation == operation_id,
                    OwnerState::Aborting(owner_operation) => owner_operation == operation_id,
                    _ => false,
                };
                owner.index_id == index_id && owner.generation == generation && held
                    && owner.definition.same_as(&legacy.definition)
            },
            (
                LegacyVectorPhysicalReservation::AdoptedActive { index_id, generation },
                None,
                Some(owner),
            ) => {
                let live = match owner.state {
                    OwnerState::Active | OwnerState::Dropping => true,
                    _ => false,
                };
                owner.index_id == index_id && owner.generation == generation && live
            },
            (
                LegacyVectorPhysicalReservation::RetiringSource { index_id, generation },
                None,
                None,
            ) => self.has_active(index_id, generation),
            _ => false,
        }
    }

    /// Decides which namespaces have to be reserved for their legacy source.
    ///
    /// They come in ascending order, and none is zero; a reservation that disagrees with who owns its
    /// namespace, or a source that collides with the current catalog, refuses all.
    pub fn new_reservations(&self) -> (ids: Result<Vec<u64>, HelixDbError>)
        ensures
            match ids {
                Ok(ids) => {
                    &&& self@.is_clear()
                    &&& crate::id_map::ascending(ids@)
                    &&& forall|id: u64| #[trigger] ids@.contains(id) <==> self@.is_unreserved(id)
                    &&& !ids@.contains(0)
                },
                Err(error) => {
                    ||| exists|id: u64|
                        #![trigger self@.is_inconsistent(id)]
                        is_least(id, |id: u64| self@.is_inconsistent(id))
                            && error.is_migration_required(
                            "legacy vector reservation "@ + crate::text::decimal(id as nat)
                                + " has inconsistent physical ownership"@,
                        )
                    ||| (forall|id: u64| !#[trigger] self@.is_inconsistent(id)) && exists|id: u64|
                        #![trigger self@.collides(id)]
                        is_least(id, |id: u64| self@.collides(id)) && error.is_migration_required(
                            "legacy vector namespace "@ + crate::text::decimal(id as nat)
                                + " collides with existing V2 ownership"@,
                        )
                },
            },
    {
        let reserved_ids = sorted_ids(&self.reservations);
        let count: usize = reserved_ids.len();
        let ghost reserved = reserved_ids@;
        let mut position: usize = 0;
        while position < count
            invariant
                position <= count == reserved.len(),
                reserved == reserved_ids@,
                crate::id_map::ascending(reserved),
                forall|id: u64| reserved.contains(id) <==> self.reservations@.contains_key(id),
                forall|i: int|
                    0 <= i < position ==> !self@.is_inconsistent(#[trigger] reserved[i]),
            decreases count - position,
        {
            let physical_id: u64 = reserved_ids[position];
            assert(reserved.contains(physical_id));
            let agrees = match self.reservations.get(&physical_id) {
                Some(reservation) => self.reservation_agrees(physical_id, reservation),
                None => true,
            };
            if !agrees {
                proof {
                    let has = |id: u64| self@.is_inconsistent(id);
                    assert forall|smaller: u64| smaller < physical_id implies !#[trigger] has(
                        smaller,
                    ) by {
                        if self@.is_inconsistent(smaller) {
                            let place = reserved.index_of(smaller);
                            assert(reserved.contains(smaller));
                            assert(reserved[place] == smaller);
                            assert(place < position) by {
                                if position < place {
                                    assert(reserved[position as int] < reserved[place]);
                                }
                            }
                        }
                    }
                    assert(has(physical_id));
                    assert(self@.is_inconsistent(physical_id));
                }
                return Err(
                    HelixDbError::MigrationRequired {
                        reason: joined3(
                            "legacy vector reservation ",
                            decimal_text(physical_id).as_str(),
                            " has inconsistent physical ownership",
                        ),
                    },
                );
            }
            position = position + 1;
        }
        assert forall|id: u64| !#[trigger] self@.is_inconsistent(id) by {
            if self@.is_inconsistent(id) {
                assert(reserved.contains(id));
                assert(!self@.is_inconsistent(reserved[reserved.index_of(id)]));
            }
        }
        let source_ids = self.sources.ids();
        let source_count: usize = source_ids.len();
        let ghost owned = source_ids@;
        let mut ids: Vec<u64> = Vec::new();
        let mut next: usize = 0;
        while next < source_count
            invariant
                next <= source_count == owned.len(),
                owned == source_ids@,
                crate::id_map::ascending(owned),
                forall|id: u64| owned.contains(id) <==> self.sources.sources@.contains_key(id),
                forall|id: u64| !#[trigger] self@.is_inconsistent(id),
                forall|i: int| 0 <= i < next ==> !self@.collides(#[trigger] owned[i]),
                crate::id_map::ascending(ids@),
                forall|i: int|
                    0 <= i < ids@.len() ==> self@.is_unreserved(#[trigger] ids@[i]) && exists|
                        j: int,
                    |
                        0 <= j < next && owned[j] == ids@[i],
                forall|i: int|
                    0 <= i < next && self@.is_unreserved(#[trigger] owned[i]) ==> ids@.contains(
                        owned[i],
                    ),
            decreases source_count - next,
        {
            let physical_id: u64 = source_ids[next];
            assert(owned.contains(physical_id));
            if !self.reservations.contains_key(&physical_id) {
                if self.owners.contains_key(&physical_id) || self.partitioned.contains_key(&physical_id) {
                    proof {
                        let has = |id: u64| self@.collides(id);
                        assert forall|smaller: u64| smaller < physical_id implies !#[trigger] has(
                            smaller,
                        ) by {
                            if self@.collides(smaller) {
                                let place = owned.index_of(smaller);
                                assert(owned.contains(smaller));
                                assert(owned[place] == smaller);
                                assert(place < next) by {
                                    if next < place {
                                        assert(owned[next as int] < owned[place]);
                                    }
                                }
                            }
                        }
                        assert(has(physical_id));
                        assert(self@.collides(physical_id));
                    }
                    return Err(
                        HelixDbError::MigrationRequired {
                            reason: joined3(
                                "legacy vector namespace ",
                                decimal_text(physical_id).as_str(),
                                " collides with existing V2 ownership",
                            ),
                        },
                    );
                }
                proof {
                    assert forall|i: int| 0 <= i < ids@.len() implies ids@[i] < physical_id by {
                        let j = choose|j: int| 0 <= j < next && owned[j] == ids@[i];
                        assert(owned[j] < owned[next as int]);
                    }
                }
                let ghost before = ids@;
                ids.push(physical_id);
                proof {
                    assert(ids@[before.len() as int] == physical_id);
                    assert forall|i: int|
                        0 <= i < next + 1 && self@.is_unreserved(
                            #[trigger] owned[i],
                        ) implies ids@.contains(owned[i]) by {
                        if i < next {
                            let at = before.index_of(owned[i]);
                            assert(before.contains(owned[i]));
                            assert(ids@[at] == owned[i]);
                        }
                    }
                    assert forall|i: int| 0 <= i < ids@.len() implies self@.is_unreserved(
                        #[trigger] ids@[i],
                    ) && exists|j: int| 0 <= j < next + 1 && owned[j] == ids@[i] by {
                        if i < before.len() {
                            let j = choose|j: int| 0 <= j < next && owned[j] == before[i];
                            assert(owned[j] == ids@[i]);
                        } else {
                            assert(owned[next as int] == ids@[i]);
                        }
                    }
                }
            }
            next = next + 1;
        }
        proof {
            assert forall|id: u64| !#[trigger] self@.collides(id) by {
                if self@.collides(id) {
                    assert(owned.contains(id));
                    assert(!self@.collides(owned[owned.index_of(id)]));
                }
            }
            assert forall|id: u64| #[trigger] ids@.contains(id) <==> self@.is_unreserved(id) by {
                if ids@.contains(id) {
                    assert(self@.is_unreserved(ids@[ids@.index_of(id)]));
                }
                if self@.is_unreserved(id) {
                    assert(owned.contains(id));
                    assert(self@.is_unreserved(owned[owned.index_of(id)]));
                }
            }
        }
        Ok(ids)
    }
}

/// The owner state of a record that still holds physical rows.
pub open spec fn owner_state(state: IndexState) -> Option<OwnerState> {
    match state {
        IndexState::Building { build_operation_id } => Some(
            OwnerState::Building(build_operation_id),
        ),
        IndexState::Aborting { build_operation_id } => Some(
            OwnerState::Aborting(build_operation_id),
        ),
        IndexState::Active => Some(OwnerState::Active),
        IndexState::Dropping { .. } => Some(OwnerState::Dropping),
        IndexState::Dropped => None,
    }
}

/// Claimed namespaces as mathematical values.
pub open spec fn claimed_views(claimed: Seq<SourceCandidate>) -> Seq<(Seq<char>, u64)> {
    claimed.map_values(|candidate: SourceCandidate| (candidate.name@, candidate.name_hash))
}

/// A reservation whose owner is not there, and a legacy source that lies where a record
/// already lives, each stop the preflight as a whole.
pub proof fn law_conflicting_ownership_stops_everything(shape: PreflightShape, id: u64)
    requires
        (shape.reservations.contains_key(id) && shape.reservations[id] is AdoptedActive
            && !shape.owners.contains_key(id)) || (shape.sources.contains_key(id)
            && !shape.reservations.contains_key(id) && shape.owners.contains_key(id)),
    ensures
        !shape.is_clear(),
{
    if shape.reservations.contains_key(id) {
        assert(shape.is_inconsistent(id));
    } else {
        assert(shape.collides(id));
    }
}

/// Installing the decided reservations leaves every legacy source reserved for
/// itself, keeps every existing reservation, adds none but those of legacy sources, and
/// makes a second pass decide nothing.
pub proof fn law_preflight_converges(shape: PreflightShape, ids: Seq<u64>)
    requires
        shape.is_clear(),
        forall|id: u64| #[trigger] ids.contains(id) <==> shape.is_unreserved(id),
    ensures
        forall|id: u64|
            shape.sources.contains_key(id) ==> #[trigger] shape.with_reserved(
                ids,
            ).reservations.contains_key(id),
        forall|id: u64|
            shape.reservations.contains_key(id) ==> #[trigger] shape.with_reserved(
                ids,
            ).reservations[id] == shape.reservations[id],
        forall|id: u64| #[trigger]
            shape.with_reserved(ids).reservations.contains_key(id) ==> shape.reservations.contains_key(
                id,
            ) || (shape.sources.contains_key(id) && shape.with_reserved(ids).reservations[id]
                == LegacyVectorPhysicalReservation::LegacySource),
        shape.with_reserved(ids).is_clear(),
        forall|id: u64| !#[trigger] shape.with_reserved(ids).is_unreserved(id),
{
    let after = shape.with_reserved(ids);
    assert forall|id: u64| shape.sources.contains_key(id) implies #[trigger] after.reservations.contains_key(
        id,
    ) by {
        if !shape.reservations.contains_key(id) {
            assert(shape.is_unreserved(id));
            assert(ids.contains(id));
        }
    }
    assert forall|id: u64| !#[trigger] after.is_unreserved(id) by {
        if after.sources.contains_key(id) {
            assert(after.reservations.contains_key(id));
        }
    }
    assert forall|id: u64| !#[trigger] after.collides(id) by {
        assert(!after.is_unreserved(id));
    }
    assert forall|id: u64| !#[trigger] after.is_inconsistent(id) by {
        assert(!shape.collides(id));
        assert(!shape.is_inconsistent(id));
        if after.is_inconsistent(id) {
            if !shape.reservations.contains_key(id) {
                assert(ids.contains(id));
                assert(shape.is_unreserved(id));
            }
        }
    }
}

/// A namespace is reserved only where nothing of the current catalog lies.
pub proof fn law_reserved_namespaces_are_free(shape: PreflightShape, id: u64)
    requires
        shape.is_clear(),
        shape.is_unreserved(id),
    ensures
        !shape.owners.contains_key(id),
        !shape.partitioned.contains_key(id),
        !shape.reservations.contains_key(id),
{
    assert(!shape.collides(id));
}

/// A reservation for the legacy source alone stands exactly where there is such a source
/// and no record has the namespace.
pub proof fn law_legacy_reservations_stand_with_their_source(shape: PreflightShape, id: u64)
    requires
        shape.reservations.contains_key(id),
        shape.reservations[id] is LegacySource,
    ensures
        !shape.is_inconsistent(id) <==> shape.sources.contains_key(id)
            && !shape.owners.contains_key(id) && !shape.partitioned.contains_key(id),
{
}

/// A reservation for an adoption stands exactly while its source is there and the record
/// that takes it over, of the same index, generation and definition, is being built or given
/// up by that very operation.
pub proof fn law_adoptions_stand_while_they_are_built(
    shape: PreflightShape,
    id: u64,
    index_id: u64,
    generation: u64,
    operation_id: IndexOperationId,
)
    requires
        shape.reservations.contains_key(id),
        shape.reservations[id] == (LegacyVectorPhysicalReservation::AdoptionBuilding {
            index_id,
            generation,
            operation_id,
        }),
        !shape.partitioned.contains_key(id),
    ensures
        (shape.sources.contains_key(id) && shape.owners.contains_key(id)
            && shape.owners[id].index_id == index_id && shape.owners[id].generation == generation
            && shape.owners[id].definition@ == shape.sources[id].definition@ && (
        shape.owners[id].state == OwnerState::Building(operation_id) || shape.owners[id].state
            == OwnerState::Aborting(operation_id))) <==> !shape.is_inconsistent(id),
{
}

/// A reservation of an adopted namespace stands exactly once its source is gone and the
/// record that took it over, of the same index and generation, is active or being dropped.
pub proof fn law_adopted_namespaces_stand_without_their_source(
    shape: PreflightShape,
    id: u64,
    index_id: u64,
    generation: u64,
)
    requires
        shape.reservations.contains_key(id),
        shape.reservations[id] == (LegacyVectorPhysicalReservation::AdoptedActive {
            index_id,
            generation,
        }),
        !shape.partitioned.contains_key(id),
    ensures
        (!shape.sources.contains_key(id) && shape.owners.contains_key(id)
            && shape.owners[id].index_id == index_id && shape.owners[id].generation == generation
            && (shape.owners[id].state == OwnerState::Active || shape.owners[id].state
            == OwnerState::Dropping)) <==> !shape.is_inconsistent(id),
{
}

/// A reservation that is being retired stands exactly where neither a source nor a record
/// has the namespace and the generation on whose behalf it is retired is active.
pub proof fn law_retirements_stand_behind_an_active_generation(
    shape: PreflightShape,
    id: u64,
    index_id: u64,
    generation: u64,
)
    requires
        shape.reservations.contains_key(id),
        shape.reservations[id] == (LegacyVectorPhysicalReservation::RetiringSource {
            index_id,
            generation,
        }),
        !shape.partitioned.contains_key(id),
    ensures
        (!shape.sources.contains_key(id) && !shape.owners.contains_key(id)
            && shape.active.contains((index_id, generation))) <==> !shape.is_inconsistent(id),
{
}

/// No reservation stands where a partition of the current catalog lies.
pub proof fn law_partitions_are_never_reserved(shape: PreflightShape, id: u64)
    requires
        shape.reservations.contains_key(id),
        shape.partitioned.contains_key(id),
    ensures
        shape.is_inconsistent(id),
        !shape.is_clear(),
{
    assert(shape.is_inconsistent(id));
}

/// A preflight is refused for nothing but a reservation that does not stand and a source
/// without a reservation that lies where the current catalog has rows.
pub proof fn law_preflight_is_refused_only_for_conflicts(shape: PreflightShape)
    requires
        forall|id: u64| #[trigger] shape.reservations.contains_key(id) ==> {
            &&& !shape.partitioned.contains_key(id)
            &&& match shape.reservations[id] {
                LegacyVectorPhysicalReservation::LegacySource => shape.sources.contains_key(id)
                    && !shape.owners.contains_key(id),
                LegacyVectorPhysicalReservation::AdoptionBuilding {
                    index_id,
                    generation,
                    operation_id,
                } => shape.sources.contains_key(id) && shape.owners.contains_key(id)
                    && shape.owners[id].index_id == index_id && shape.owners[id].generation
                    == generation && shape.owners[id].definition@ == shape.sources[id].definition@
                    && (shape.owners[id].state == OwnerState::Building(operation_id)
                    || shape.owners[id].state == OwnerState::Aborting(operation_id)),
                LegacyVectorPhysicalReservation::AdoptedActive { index_id, generation } =>
                    !shape.sources.contains_key(id) && shape.owners.contains_key(id)
                    && shape.owners[id].index_id == index_id && shape.owners[id].generation
                    == generation && (shape.owners[id].state is Active
                    || shape.owners[id].state is Dropping),
                LegacyVectorPhysicalReservation::RetiringSource { index_id, generation } =>
                    !shape.sources.contains_key(id) && !shape.owners.contains_key(id)
                    && shape.active.contains((index_id, generation)),
            }
        },
        forall|id: u64|
            #[trigger] shape.sources.contains_key(id) && !shape.reservations.contains_key(id)
                ==> !shape.owners.contains_key(id) && !shape.partitioned.contains_key(id),
    ensures
        shape.is_clear(),
{
    assert forall|id: u64| !#[trigger] shape.is_inconsistent(id) by {
        if shape.reservations.contains_key(id) {
            assert(shape.agrees(id, shape.reservations[id]));
        }
    }
    assert forall|id: u64| !#[trigger] shape.collides(id) by {
        if shape.sources.contains_key(id) {
        }
    }
}

/// Exactly the sources without a reservation are reserved, and one of them collides exactly
/// where a record or a partition lies.
pub proof fn law_unreserved_sources_are_reserved(shape: PreflightShape, id: u64)
    ensures
        shape.is_unreserved(id) <==> shape.sources.contains_key(id)
            && !shape.reservations.contains_key(id),
        (shape.sources.contains_key(id) && !shape.reservations.contains_key(id)) ==> (
        shape.collides(id) <==> shape.owners.contains_key(id) || shape.partitioned.contains_key(id)),
        !shape.sources.contains_key(id) ==> !shape.collides(id),
        shape.reservations.contains_key(id) ==> !shape.collides(id),
{
}

/// A record holds physical rows until it is dropped, and what builds or gives it up is
/// remembered.
pub proof fn law_records_own_rows_until_dropped(state: IndexState)
    ensures
        owner_state(state) is None <==> state is Dropped,
        state matches IndexState::Building { build_operation_id } ==> owner_state(state) == Some(
            OwnerState::Building(build_operation_id),
        ),
        state matches IndexState::Aborting { build_operation_id } ==> owner_state(state) == Some(
            OwnerState::Aborting(build_operation_id),
        ),
        state is Active ==> owner_state(state) == Some(OwnerState::Active),
        state is Dropping ==> owner_state(state) == Some(OwnerState::Dropping),
{
}

proof fn lemma_position_of_name(shape: PreflightShape, name: Seq<char>, from: int)
    requires
        0 <= from,
    ensures
        match shape.position_of_name(name, from) {
            Some(position) => from <= position < shape.names.len() && shape.names[position].name
                == name && forall|i: int| from <= i < position ==> (#[trigger] shape.names[i]).name
                != name,
            None => forall|i: int|
                from <= i < shape.names.len() ==> (#[trigger] shape.names[i]).name != name,
        },
    decreases shape.names.len() - from,
{
    if from < shape.names.len() && shape.names[from].name != name {
        lemma_position_of_name(shape, name, from + 1);
    }
}

/// A name has the namespace that legacy metadata gives it, and its hash where no metadata
/// has the name.
pub proof fn law_names_have_one_namespace(
    shape: PreflightShape,
    name: Seq<char>,
    name_hash: u64,
    position: int,
)
    requires
        0 <= position < shape.names.len() ==> shape.names[position].name == name && forall|i: int|
            0 <= i < position ==> (#[trigger] shape.names[i]).name != name,
        !(0 <= position < shape.names.len()) ==> forall|i: int|
            0 <= i < shape.names.len() ==> (#[trigger] shape.names[i]).name != name,
    ensures
        shape.has_name(name) <==> 0 <= position < shape.names.len(),
        0 <= position < shape.names.len() ==> shape.namespace_of(name, name_hash)
            == shape.names[position].index_id,
        !(0 <= position < shape.names.len()) ==> shape.namespace_of(name, name_hash) == name_hash,
{
    lemma_position_of_name(shape, name, 0);
    if 0 <= position < shape.names.len() {
        assert(shape.names[position].name == name);
    }
}

/// A namespace is being retired exactly where a retirement was collected for its hash; the
/// hash zero names no namespace.
pub proof fn law_retiring_namespaces_are_those_collected(shape: PreflightShape, name_hash: u64)
    ensures
        name_hash != 0 ==> (shape.is_retiring(name_hash) <==> shape.retiring.contains_key(name_hash)),
        !shape.is_retiring(0),
{
}

/// A tenant prefix claims a name of the legacy metadata exactly where the name starts with
/// it and its namespace is not being retired.
pub proof fn law_tenants_claim_the_names_with_their_prefix(
    shape: PreflightShape,
    prefix: Seq<char>,
    count: int,
    claim: (Seq<char>, u64),
)
    requires
        0 <= count <= shape.names.len(),
    ensures
        shape.tenant_names(prefix, count).contains(claim) <==> exists|i: int|
            0 <= i < count && (#[trigger] shape.names[i]).name == claim.0
                && shape.names[i].name_hash == claim.1 && starts_with(claim.0, prefix)
                && !shape.is_retiring(claim.1),
    decreases count,
{
    if count > 0 {
        law_tenants_claim_the_names_with_their_prefix(shape, prefix, count - 1, claim);
        let earlier = shape.tenant_names(prefix, count - 1);
        let all = shape.tenant_names(prefix, count);
        let name = shape.names[count - 1];
        if all.len() > earlier.len() {
            assert(all[earlier.len() as int] == (name.name, name.name_hash));
            if earlier.contains(claim) {
                let at = earlier.index_of(claim);
                assert(all[at] == claim);
            }
            if all.contains(claim) {
                let at = all.index_of(claim);
                if at < earlier.len() {
                    assert(earlier[at] == claim);
                }
            }
        }
    }
}

/// A definition without tenants claims the one namespace of its name, unless that is being
/// retired; one with tenants claims nothing but what its prefix claims.
pub proof fn law_claims_follow_the_naming(
    shape: PreflightShape,
    naming: PhysicalNaming,
    claimed: Seq<(Seq<char>, u64)>,
    claim: (Seq<char>, u64),
)
    requires
        shape.claims(naming, claimed),
    ensures
        naming matches PhysicalNaming::Single { name, name_hash } ==> {
            &&& claimed.len() <= 1
            &&& claimed.len() == 0 <==> name_hash != 0 && shape.retiring.contains_key(name_hash)
            &&& claimed.len() == 1 ==> claimed[0] == (name@, name_hash)
        },
        naming matches PhysicalNaming::PerTenant { name_prefix } ==> (claimed.contains(claim)
            <==> exists|i: int|
            0 <= i < shape.names.len() && (#[trigger] shape.names[i]).name == claim.0
                && shape.names[i].name_hash == claim.1 && starts_with(claim.0, name_prefix@)
                && !shape.is_retiring(claim.1)),
{
    if let PhysicalNaming::PerTenant { name_prefix } = naming {
        let names = shape.tenant_names(name_prefix@, shape.names.len() as int);
        law_tenants_claim_the_names_with_their_prefix(
            shape,
            name_prefix@,
            shape.names.len() as int,
            claim,
        );
        claimed.to_multiset_ensures();
        names.to_multiset_ensures();
        assert(claimed.contains(claim) <==> claimed.to_multiset().count(claim) > 0);
        assert(names.contains(claim) <==> names.to_multiset().count(claim) > 0);
    }
}

/// Text starts with other text exactly where its bytes are those of the other text and
/// some more.
pub proof fn law_starting_with_is_a_prefix_of_bytes(text: Seq<char>, start: Seq<char>)
    ensures
        starts_with(text, start) <==> exists|rest: Seq<u8>|
            vstd::utf8::encode_utf8(text) == vstd::utf8::encode_utf8(start) + rest,
        starts_with(text, text),
{
    let bytes = vstd::utf8::encode_utf8(text);
    let head = vstd::utf8::encode_utf8(start);
    if starts_with(text, start) {
        let rest = bytes.skip(head.len() as int);
        assert(bytes =~= head + rest);
    }
    if exists|rest: Seq<u8>| bytes == head + rest {
        let rest = choose|rest: Seq<u8>| bytes == head + rest;
        assert(head =~= bytes.subrange(0, head.len() as int));
    }
    assert(bytes =~= bytes.subrange(0, bytes.len() as int));
}

/// A row that is no reservation is reported by its key first, then by its value.
pub proof fn law_foreign_rows_are_reported(error: HelixDbError, row: ReservationRow)
    requires
        reports_foreign_row(error, row),
    ensures
        row.physical_id is None ==> error.is_corruption(
            "legacy vector reservation prefix yielded another key"@,
        ),
        row.physical_id is Some ==> error.is_corruption(
            "legacy vector reservation contains another value kind"@,
        ),
{
}

/// At most one id is the least with a property, and it has the property.
pub proof fn law_one_id_is_the_least(left: u64, right: u64, has: spec_fn(u64) -> bool)
    requires
        is_least(left, has),
        has(right),
    ensures
        has(left),
        left <= right,
        is_least(right, has) ==> left == right,
{
}

/// Names that ascend stand with none behind one that it comes before.
pub proof fn law_claimed_names_ascend(claimed: Seq<(Seq<char>, u64)>, left: int, right: int)
    requires
        names_ascend(claimed),
        0 <= left < right < claimed.len(),
    ensures
        claimed[left].0 == claimed[right].0 || crate::names::name_precedes(
            claimed[left].0,
            claimed[right].0,
        ),
{
    crate::names::law_names_are_ordered(claimed[left].0, claimed[right].0, claimed[left].0);
}

/// A claim is seen with its name and its hash.
pub proof fn law_claims_are_seen_as_they_are(claimed: Seq<SourceCandidate>, position: int)
    requires
        0 <= position < claimed.len(),
    ensures
        claimed_views(claimed).len() == claimed.len(),
        claimed_views(claimed)[position] == (claimed[position].name@, claimed[position].name_hash),
{
}

} // verus!
