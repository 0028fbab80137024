//! Rewriting legacy edges into current edge rows.
use vstd::prelude::*;

use super::batch::{MigrationSourceBatch, MigrationTuning, SourceRow};
use super::controller::MigrationBatch;
use crate::error::{EncodingError, HelixDbError};

verus! {

/// The number that eight bytes from `at` on stand for, most significant first.
pub open spec fn be_u64(bytes: Seq<u8>, at: int) -> int {
    bytes[at] * 0x100_0000_0000_0000 + bytes[at + 1] * 0x1_0000_0000_0000 + bytes[at + 2]
        * 0x100_0000_0000 + bytes[at + 3] * 0x1_0000_0000 + bytes[at + 4] * 0x100_0000 + bytes[at
        + 5] * 0x1_0000 + bytes[at + 6] * 0x100 + bytes[at + 7]
}

/// The eight bytes of a number, most significant first.
pub open spec fn be_bytes(value: u64) -> Seq<u8> {
    seq![
        (value / 0x100_0000_0000_0000) as u8,
        (value / 0x1_0000_0000_0000 % 256) as u8,
        (value / 0x100_0000_0000 % 256) as u8,
        (value / 0x1_0000_0000 % 256) as u8,
        (value / 0x100_0000 % 256) as u8,
        (value / 0x1_0000 % 256) as u8,
        (value / 0x100 % 256) as u8,
        (value % 256) as u8,
    ]
}

/// Reading the bytes of a number gives the number back.
pub proof fn law_big_endian_round_trip(value: u64)
    ensures
        be_bytes(value).len() == 8,
        be_u64(be_bytes(value), 0) == value,
{
    assert(value / 0x1_0000 == value / 0x100 / 256);
    assert(value / 0x100_0000 == value / 0x1_0000 / 256);
    assert(value / 0x1_0000_0000 == value / 0x100_0000 / 256);
    assert(value / 0x100_0000_0000 == value / 0x1_0000_0000 / 256);
    assert(value / 0x1_0000_0000_0000 == value / 0x100_0000_0000 / 256);
    assert(value / 0x100_0000_0000_0000 == value / 0x1_0000_0000_0000 / 256);
}

fn read_be_u64(bytes: &[u8], at: usize) -> (value: u64)
    requires
        at + 8 <= bytes@.len(),
    ensures
        value == be_u64(bytes@, at as int),
{
    let high: u64 = bytes[at] as u64 * 0x100_0000 + bytes[at + 1] as u64 * 0x1_0000 + bytes[at
        + 2] as u64 * 0x100 + bytes[at + 3] as u64;
    let low: u64 = bytes[at + 4] as u64 * 0x100_0000 + bytes[at + 5] as u64 * 0x1_0000 + bytes[at
        + 6] as u64 * 0x100 + bytes[at + 7] as u64;
    high * 0x1_0000_0000 + low
}

/// Decodes the source and the target of an edge; bytes behind them are ignored.
pub fn decode_edge_endpoints(value: &[u8]) -> (endpoints: Result<(u64, u64), HelixDbError>)
    ensures
        if value@.len() < 16 {
            endpoints == Err::<(u64, u64), HelixDbError>(
                HelixDbError::Encoding(
                    EncodingError::BufferTooShort { expected: 16, actual: value@.len() as usize },
                ),
            )
        } else {
            endpoints matches Ok((from, to)) && from == be_u64(value@, 0) && to == be_u64(
                value@,
                8,
            )
        },
{
    if value.len() < 16 {
        return Err(
            HelixDbError::Encoding(
                EncodingError::BufferTooShort { expected: 16, actual: value.len() },
            ),
        );
    }
    Ok((read_be_u64(value, 0), read_be_u64(value, 8)))
}

/// A property as the label lookup reads it: its name, and its value where that is text.
#[derive(Debug, PartialEq, Eq)]
pub struct LabelledProperty {
    pub name: String,
    pub text: Option<String>,
}

/// Position of the first property that bears the label.
pub open spec fn label_position(properties: Seq<LabelledProperty>, from: int) -> Option<int>
    decreases properties.len() - from,
{
    if from >= properties.len() {
        None
    } else if properties[from].name@ == "$label"@ {
        Some(from)
    } else {
        label_position(properties, from + 1)
    }
}

/// The label that properties carry: the text of the first property named `$label`.
pub open spec fn label_spec(properties: Seq<LabelledProperty>) -> Option<Seq<char>> {
    match label_position(properties, 0) {
        Some(position) => match properties[position].text {
            Some(text) => Some(text@),
            None => None,
        },
        None => None,
    }
}

/// Finds the label that properties carry.
pub fn label_of(properties: &Vec<LabelledProperty>) -> (label: Option<&str>)
    ensures
        match label {
            Some(label) => label_spec(properties@) == Some(label@),
            None => label_spec(properties@) is None,
        },
{
    let label_name = "$label".to_owned();
    let mut position: usize = 0;
    while position < properties.len()
        invariant
            position <= properties.len(),
            label_name@ == "$label"@,
            label_position(properties@, 0) == label_position(properties@, position as int),
        decreases properties.len() - position,
    {
        if properties[position].name == label_name {
            return match &properties[position].text {
                Some(text) => Some(text.as_str()),
                None => None,
            };
        }
        position = position + 1;
    }
    None
}

/// Side of an adjacency row that a neighbor is added to.
#[derive(Debug, Clone, Copy, PartialEq, Eq, Structural)]
pub enum EdgeAdjacencyDirection {
    Out,
    In,
}

/// Tag of an operand that adds an outgoing neighbor.
pub const ADD_OUT: u8 = 0x00;

/// Tag of an operand that adds an incoming neighbor.
pub const ADD_IN: u8 = 0x02;

/// The merge operand that adds a neighbor.
pub open spec fn adjacency_operand(neighbor: u64, direction: EdgeAdjacencyDirection) -> Seq<u8> {
    seq![
        match direction {
            EdgeAdjacencyDirection::Out => ADD_OUT,
            EdgeAdjacencyDirection::In => ADD_IN,
        },
    ] + be_bytes(neighbor)
}

/// Builds the merge operand that adds a neighbor to an adjacency row.
pub fn add_adjacency(neighbor: u64, direction: EdgeAdjacencyDirection) -> (operand: Vec<u8>)
    ensures
        operand@ == adjacency_operand(neighbor, direction),
{
    let mut operand: Vec<u8> = Vec::new();
    operand.push(
        match direction {
            EdgeAdjacencyDirection::Out => ADD_OUT,
            EdgeAdjacencyDirection::In => ADD_IN,
        },
    );
    operand.push((neighbor / 0x100_0000_0000_0000) as u8);
    operand.push((neighbor / 0x1_0000_0000_0000 % 256) as u8);
    operand.push((neighbor / 0x100_0000_0000 % 256) as u8);
    operand.push((neighbor / 0x1_0000_0000 % 256) as u8);
    operand.push((neighbor / 0x100_0000 % 256) as u8);
    operand.push((neighbor / 0x1_0000 % 256) as u8);
    operand.push((neighbor / 0x100 % 256) as u8);
    operand.push((neighbor % 256) as u8);
    operand
}

/// One current row of an edge.
#[derive(Debug)]
pub enum EdgeRow {
    /// The endpoints of the edge.
    Endpoints { edge_id: u64, from: u64, to: u64 },
    /// The properties of the edge.
    Properties { edge_id: u64 },
    /// The entry of the edge under its endpoint pair.
    PairIndex { from: u64, to: u64, edge_id: u64 },
    /// An operand that is merged into the adjacency row of a node.
    Adjacency { node: u64, operand: Vec<u8> },
    /// The entry of the endpoint pair under the label.
    LabelIndex { from: u64, to: u64, label: String },
    /// The entry of the edge under the label.
    GlobalLabelIndex { label: String, edge_id: u64 },
}

/// Whether rows are those of one edge, in the order in which they are written.
pub open spec fn are_edge_rows(
    rows: Seq<EdgeRow>,
    edge_id: u64,
    from: u64,
    to: u64,
    properties: Option<Seq<LabelledProperty>>,
) -> bool {
    let stored: int = if properties is Some {
        2
    } else {
        0
    };
    let label = match properties {
        Some(properties) => label_spec(properties),
        None => None,
    };
    &&& rows.len() == stored + 3 + (if label is Some {
        2int
    } else {
        0int
    })
    &&& properties is Some ==> rows[0] == (EdgeRow::Endpoints { edge_id, from, to }) && rows[1]
        == (EdgeRow::Properties { edge_id })
    &&& rows[stored] == (EdgeRow::PairIndex { from, to, edge_id })
    &&& rows[stored + 1] matches EdgeRow::Adjacency { node, operand } && node == from && operand@
        == adjacency_operand(to, EdgeAdjacencyDirection::Out)
    &&& rows[stored + 2] matches EdgeRow::Adjacency { node, operand } && node == to && operand@
        == adjacency_operand(from, EdgeAdjacencyDirection::In)
    &&& label is Some ==> {
        &&& rows[stored + 3] matches EdgeRow::LabelIndex { from: start, to: end, label: name }
            && start == from && end == to && name@ == label->0
        &&& rows[stored + 4] matches EdgeRow::GlobalLabelIndex { label: name, edge_id: labelled }
            && name@ == label->0 && labelled == edge_id
    }
}

/// Lists the current rows of an edge in the order in which they are written.
pub fn maintain_current_edge_rows(
    edge_id: u64,
    from: u64,
    to: u64,
    properties: Option<&Vec<LabelledProperty>>,
) -> (rows: Vec<EdgeRow>)
    ensures
        are_edge_rows(
            rows@,
            edge_id,
            from,
            to,
            match properties {
                Some(properties) => Some(properties@),
                None => None,
            },
        ),
{
    let mut rows: Vec<EdgeRow> = Vec::new();
    if properties.is_some() {
        rows.push(EdgeRow::Endpoints { edge_id, from, to });
        rows.push(EdgeRow::Properties { edge_id });
    }
    rows.push(EdgeRow::PairIndex { from, to, edge_id });
    rows.push(
        EdgeRow::Adjacency { node: from, operand: add_adjacency(to, EdgeAdjacencyDirection::Out) },
    );
    rows.push(
        EdgeRow::Adjacency { node: to, operand: add_adjacency(from, EdgeAdjacencyDirection::In) },
    );
    if let Some(properties) = properties {
        if let Some(label) = label_of(properties) {
            rows.push(EdgeRow::LabelIndex { from, to, label: label.to_owned() });
            rows.push(EdgeRow::GlobalLabelIndex { label: label.to_owned(), edge_id });
        }
    }
    rows
}

/// One legacy edge pair of a batch, with the edges that may already stand for it.
#[derive(Debug)]
pub struct LegacyEdgePairMigrationRow {
    pub from: u64,
    pub to: u64,
    pub candidates: Vec<u64>,
    pub equivalent: bool,
}

/// The candidates that are still to be looked at from a position on: those of every row
/// that no edge has been found for.
pub open spec fn pending(
    rows: Seq<LegacyEdgePairMigrationRow>,
    row: int,
    offset: int,
) -> Seq<(int, u64)>
    decreases rows.len() - row, rows[row].candidates@.len() - offset,
{
    if row >= rows.len() {
        Seq::empty()
    } else if rows[row].equivalent || offset >= rows[row].candidates@.len() {
        pending(rows, row + 1, 0)
    } else {
        seq![(row, rows[row].candidates@[offset])] + pending(rows, row, offset + 1)
    }
}

/// A list of candidates as a mathematical value.
pub open spec fn probe_view(probe: Seq<(usize, u64)>) -> Seq<(int, u64)> {
    Seq::new(probe.len(), |i: int| (probe[i].0 as int, probe[i].1))
}

/// The search for current edges that already stand for legacy edge pairs.
#[derive(Debug)]
pub struct EquivalenceScan {
    rows: Vec<LegacyEdgePairMigrationRow>,
    row: usize,
    offset: usize,
    limit: usize,
}

impl EquivalenceScan {
    #[verifier::type_invariant]
    spec fn is_bounded(self) -> bool {
        self.limit > 0
    }

    /// The edge pairs of the batch.
    pub closed spec fn rows(self) -> Seq<LegacyEdgePairMigrationRow> {
        self.rows@
    }

    /// The row that the search has come to.
    pub closed spec fn row(self) -> int {
        self.row as int
    }

    /// The candidate of that row that the search has come to.
    pub closed spec fn offset(self) -> int {
        self.offset as int
    }

    /// Most candidates that one probe holds.
    pub closed spec fn limit(self) -> nat {
        self.limit as nat
    }

    /// The candidates that are still to be looked at.
    pub open spec fn pending(self) -> Seq<(int, u64)> {
        pending(self.rows(), self.row(), self.offset())
    }

    /// Starts the search for the edge pairs of one batch.
    pub fn new(rows: Vec<LegacyEdgePairMigrationRow>, tuning: MigrationTuning) -> (scan: Self)
        ensures
            scan.rows() == rows@,
            scan.row() == 0,
            scan.offset() == 0,
            scan.limit() == tuning.row_cap(),
    {
        let limit: usize = tuning.batch_rows();
        EquivalenceScan { rows, row: 0, offset: 0, limit }
    }

    /// Hands out the next candidates, each with the position of its row; an empty list
    /// ends the search.
    pub fn next_probe(&mut self) -> (probe: Vec<(usize, u64)>)
        ensures
            final(self).rows() == old(self).rows(),
            final(self).limit() == old(self).limit(),
            probe_view(probe@) + final(self).pending() == old(self).pending(),
            probe@.len() == old(self).limit() || final(self).pending().len() == 0,
            probe@.len() <= old(self).limit(),
            old(self).limit() > 0,
            forall|i: int|
                0 <= i < probe@.len() ==> (#[trigger] probe@[i]).0 < old(self).rows().len(),
    {
        proof {
            use_type_invariant(&*self);
        }
        let mut probe: Vec<(usize, u64)> = Vec::new();
        let mut row: usize = self.row;
        let mut offset: usize = self.offset;
        let limit: usize = self.limit;
        let ghost start = pending(self.rows@, self.row as int, self.offset as int);
        assert(probe_view(probe@) + start =~= start);
        while row < self.rows.len() && probe.len() < limit
            invariant
                limit == self.limit,
                limit > 0,
                probe.len() <= limit,
                self.rows@ == old(self).rows(),
                self.limit() == old(self).limit(),
                start == probe_view(probe@) + pending(self.rows@, row as int, offset as int),
                forall|i: int|
                    0 <= i < probe@.len() ==> (#[trigger] probe@[i]).0 < self.rows@.len(),
            decreases self.rows.len() - row, self.rows@[row as int].candidates@.len() - offset,
        {
            let current = &self.rows[row];
            if current.equivalent || offset >= current.candidates.len() {
                row = row + 1;
                offset = 0;
            } else {
                let ghost before = probe@;
                let ghost rest = pending(self.rows@, row as int, offset + 1);
                probe.push((row, current.candidates[offset]));
                offset = offset + 1;
                assert(probe_view(probe@) + rest =~= probe_view(before) + (seq![
                    (row as int, self.rows@[row as int].candidates@[offset - 1]),
                ] + rest));
            }
        }
        self.row = row;
        self.offset = offset;
        probe
    }

    /// Whether the stored endpoints of a candidate call for a look at its properties: its
    /// row has no equivalent yet, and the candidate connects the same nodes.
    pub fn weigh_endpoints(&self, row: usize, endpoints: Option<&[u8]>) -> (look: Result<
        bool,
        HelixDbError,
    >)
        requires
            row < self.rows().len(),
        ensures
            match endpoints {
                Some(bytes) => if self.rows()[row as int].equivalent {
                    look == Ok::<bool, HelixDbError>(false)
                } else if bytes@.len() < 16 {
                    look == Err::<bool, HelixDbError>(
                        HelixDbError::Encoding(
                            EncodingError::BufferTooShort {
                                expected: 16,
                                actual: bytes@.len() as usize,
                            },
                        ),
                    )
                } else {
                    look == Ok::<bool, HelixDbError>(
                        be_u64(bytes@, 0) == self.rows()[row as int].from && be_u64(bytes@, 8)
                            == self.rows()[row as int].to,
                    )
                },
                None => look == Ok::<bool, HelixDbError>(false),
            },
    {
        let current = &self.rows[row];
        if current.equivalent {
            return Ok(false);
        }
        match endpoints {
            Some(bytes) => match decode_edge_endpoints(bytes) {
                Ok((from, to)) => Ok(from == current.from && to == current.to),
                Err(error) => Err(error),
            },
            None => Ok(false),
        }
    }

    /// Records whether the properties of a candidate are those of its row. A row that has
    /// an equivalent keeps it.
    pub fn record(&mut self, row: usize, equal: bool)
        requires
            row < old(self).rows().len(),
        ensures
            final(self).rows() == old(self).rows().update(
                row as int,
                (LegacyEdgePairMigrationRow {
                    equivalent: old(self).rows()[row as int].equivalent || equal,
                    ..old(self).rows()[row as int]
                }),
            ),
            final(self).row() == old(self).row(),
            final(self).offset() == old(self).offset(),
            final(self).limit() == old(self).limit(),
    {
        proof {
            use_type_invariant(&*self);
        }
        let mut whole = EquivalenceScan { rows: Vec::new(), row: 0, offset: 0, limit: 1 };
        std::mem::swap(&mut whole, self);
        let EquivalenceScan { mut rows, row: at, offset, limit } = whole;
        if equal {
            rows[row].equivalent = true;
        }
        *self = EquivalenceScan { rows, row: at, offset, limit };
    }

    /// Positions of the edge pairs that need a new edge, in order.
    pub fn unmatched(&self) -> (positions: Vec<usize>)
        ensures
            forall|i: int|
                0 <= i < positions@.len() ==> (#[trigger] positions@[i]) < self.rows().len()
                    && !self.rows()[positions@[i] as int].equivalent,
            forall|i: int, j: int| 0 <= i < j < positions@.len() ==> positions@[i] < positions@[j],
            forall|row: usize|
                row < self.rows().len() && !(#[trigger] self.rows()[row as int]).equivalent
                    ==> positions@.contains(row),
    {
        let mut positions: Vec<usize> = Vec::new();
        let mut row: usize = 0;
        while row < self.rows.len()
            invariant
                row <= self.rows.len(),
                forall|i: int|
                    0 <= i < positions@.len() ==> (#[trigger] positions@[i]) < row
                        && !self.rows@[positions@[i] as int].equivalent,
                forall|i: int, j: int|
                    0 <= i < j < positions@.len() ==> positions@[i] < positions@[j],
                forall|done: usize|
                    done < row && !(#[trigger] self.rows@[done as int]).equivalent
                        ==> positions@.contains(done),
            decreases self.rows.len() - row,
        {
            if !self.rows[row].equivalent {
                let ghost before = positions@;
                positions.push(row);
                assert forall|done: usize|
                    done < row + 1 && !(#[trigger] self.rows@[done as int]).equivalent implies
                    positions@.contains(done) by {
                    if done < row {
                        let at = before.index_of(done);
                        assert(positions@[at] == done);
                    } else {
                        assert(positions@[before.len() as int] == row);
                    }
                }
            }
            row = row + 1;
        }
        positions
    }
}

/// Marking a row takes its own candidates out of the search and no others.
pub proof fn law_marking_drops_only_own_candidates(
    rows: Seq<LegacyEdgePairMigrationRow>,
    marked: int,
    row: int,
    offset: int,
)
    requires
        0 <= marked < rows.len(),
        0 <= row,
        0 <= offset,
    ensures
        pending(
            rows.update(
                marked,
                (LegacyEdgePairMigrationRow { equivalent: true, ..rows[marked] }),
            ),
            row,
            offset,
        ) == pending(rows, row, offset).filter(|candidate: (int, u64)| candidate.0 != marked),
    decreases rows.len() - row, rows[row].candidates@.len() - offset,
{
    broadcast use vstd::seq_lib::group_filter_ensures;

    let after = rows.update(
        marked,
        (LegacyEdgePairMigrationRow { equivalent: true, ..rows[marked] }),
    );
    let others = |candidate: (int, u64)| candidate.0 != marked;
    if row >= rows.len() {
        reveal(Seq::filter);
        assert(pending(rows, row, offset) =~= Seq::empty());
    } else if rows[row].equivalent || offset >= rows[row].candidates@.len() {
        law_marking_drops_only_own_candidates(rows, marked, row + 1, 0);
    } else {
        let head = seq![(row, rows[row].candidates@[offset])];
        let rest = pending(rows, row, offset + 1);
        law_marking_drops_only_own_candidates(rows, marked, row, offset + 1);
        Seq::filter_distributes_over_add(head, rest, others);
        assert(head.drop_last() =~= Seq::empty());
        reveal_with_fuel(Seq::filter, 2);
        if row == marked {
            assert(head.filter(others) =~= Seq::empty());
            lemma_marked_row_has_nothing_pending(after, row, offset, offset + 1);
            assert(pending(after, row, offset) =~= head.filter(others) + rest.filter(others));
        } else {
            assert(head.filter(others) =~= head);
        }
    }
}

proof fn lemma_marked_row_has_nothing_pending(
    rows: Seq<LegacyEdgePairMigrationRow>,
    row: int,
    left: int,
    right: int,
)
    requires
        0 <= row < rows.len(),
        rows[row].equivalent,
    ensures
        pending(rows, row, left) == pending(rows, row, right),
{
}

/// When nothing is pending any more, every candidate of every row without an equivalent
/// has been handed out.
pub proof fn law_exhausted_scan_has_looked_at_every_candidate(
    rows: Seq<LegacyEdgePairMigrationRow>,
    row: int,
    offset: int,
    unmatched: int,
)
    requires
        pending(rows, row, offset).len() == 0,
        0 <= row <= unmatched < rows.len(),
        !rows[unmatched].equivalent,
    ensures
        unmatched == row ==> offset >= rows[row].candidates@.len(),
        unmatched > row ==> rows[unmatched].candidates@.len() == 0,
    decreases rows.len() - row,
{
    if unmatched > row {
        law_exhausted_scan_has_looked_at_every_candidate(rows, row + 1, 0, unmatched);
    }
}

/// Whether a list of candidates holds an equivalent of a row.
pub open spec fn found_in(
    probe: Seq<(int, u64)>,
    row: int,
    equal: spec_fn(int, u64) -> bool,
) -> bool {
    exists|i: int| 0 <= i < probe.len() && (#[trigger] probe[i]).0 == row && equal(row, probe[i].1)
}

/// Whether a row has an equivalent among its candidates.
pub open spec fn has_equivalent(
    rows: Seq<LegacyEdgePairMigrationRow>,
    row: int,
    equal: spec_fn(int, u64) -> bool,
) -> bool {
    exists|k: int|
        0 <= k < rows[row].candidates@.len() && equal(row, #[trigger] rows[row].candidates@[k])
}

/// The rows after every candidate of a list was recorded.
pub open spec fn recorded(
    rows: Seq<LegacyEdgePairMigrationRow>,
    probe: Seq<(int, u64)>,
    equal: spec_fn(int, u64) -> bool,
) -> Seq<LegacyEdgePairMigrationRow> {
    Seq::new(
        rows.len(),
        |row: int|
            LegacyEdgePairMigrationRow {
                equivalent: rows[row].equivalent || found_in(probe, row, equal),
                ..rows[row]
            },
    )
}

/// Recording candidates one after the other records the list of them.
pub proof fn law_records_add_up(
    rows: Seq<LegacyEdgePairMigrationRow>,
    probe: Seq<(int, u64)>,
    candidate: (int, u64),
    equal: spec_fn(int, u64) -> bool,
)
    requires
        0 <= candidate.0 < rows.len(),
    ensures
        recorded(rows, Seq::empty(), equal) == rows,
        recorded(rows, probe.push(candidate), equal) == recorded(rows, probe, equal).update(
            candidate.0,
            (LegacyEdgePairMigrationRow {
                equivalent: recorded(rows, probe, equal)[candidate.0].equivalent || equal(
                    candidate.0,
                    candidate.1,
                ),
                ..recorded(rows, probe, equal)[candidate.0]
            }),
        ),
{
    let more = probe.push(candidate);
    assert forall|row: int| #[trigger] found_in(more, row, equal) <==> found_in(probe, row, equal)
        || (row == candidate.0 && equal(row, candidate.1)) by {
        if found_in(probe, row, equal) {
            let i = choose|i: int|
                0 <= i < probe.len() && (#[trigger] probe[i]).0 == row && equal(row, probe[i].1);
            assert(more[i] == probe[i]);
        }
        if found_in(more, row, equal) {
            let i = choose|i: int|
                0 <= i < more.len() && (#[trigger] more[i]).0 == row && equal(row, more[i].1);
            if i < probe.len() {
                assert(probe[i] == more[i]);
            }
        }
        assert(more[probe.len() as int] == candidate);
    }
    assert(recorded(rows, Seq::empty(), equal) =~= rows);
    let before = recorded(rows, probe, equal);
    let after = recorded(rows, more, equal);
    assert forall|row: int| 0 <= row < rows.len() implies #[trigger] after[row] == before.update(
        candidate.0,
        (LegacyEdgePairMigrationRow {
            equivalent: before[candidate.0].equivalent || equal(candidate.0, candidate.1),
            ..before[candidate.0]
        }),
    )[row] by {
        assert(found_in(more, row, equal) <==> found_in(probe, row, equal) || (row == candidate.0
            && equal(row, candidate.1)));
    }
    assert(after =~= before.update(
        candidate.0,
        (LegacyEdgePairMigrationRow {
            equivalent: before[candidate.0].equivalent || equal(candidate.0, candidate.1),
            ..before[candidate.0]
        }),
    ));
}

/// One round of a search: a list of candidates is handed out, and each of them is recorded.
pub open spec fn is_round(
    before: EquivalenceScan,
    probe: Seq<(int, u64)>,
    handed: EquivalenceScan,
    after: EquivalenceScan,
    equal: spec_fn(int, u64) -> bool,
) -> bool {
    &&& handed.rows() == before.rows()
    &&& probe + handed.pending() == before.pending()
    &&& after.rows() == recorded(handed.rows(), probe, equal)
    &&& after.row() == handed.row()
    &&& after.offset() == handed.offset()
}

/// Whether every equivalent of every row without a mark is still to be looked at, and
/// every mark since the start stands for an equivalent.
spec fn misses_nothing(
    start: Seq<LegacyEdgePairMigrationRow>,
    scan: EquivalenceScan,
    equal: spec_fn(int, u64) -> bool,
) -> bool {
    &&& scan.rows().len() == start.len()
    &&& forall|row: int|
        0 <= row < start.len() ==> {
            &&& (#[trigger] scan.rows()[row]).candidates == start[row].candidates
            &&& start[row].equivalent ==> scan.rows()[row].equivalent
            &&& scan.rows()[row].equivalent ==> start[row].equivalent || has_equivalent(
                start,
                row,
                equal,
            )
        }
    &&& forall|row: int, k: int|
        0 <= row < start.len() && 0 <= k < start[row].candidates@.len()
            && !scan.rows()[row].equivalent && equal(
            row,
            #[trigger] start[row].candidates@[k],
        ) ==> scan.pending().contains((row, start[row].candidates@[k]))
}

proof fn lemma_first_or_later(
    rows: Seq<LegacyEdgePairMigrationRow>,
    row: int,
    offset: int,
    entry: (int, u64),
)
    requires
        0 <= row < rows.len(),
        0 <= offset < rows[row].candidates@.len(),
        !rows[row].equivalent,
    ensures
        pending(rows, row, offset).contains(entry) <==> entry == (
            row,
            rows[row].candidates@[offset],
        ) || pending(rows, row, offset + 1).contains(entry),
{
    let head = seq![(row, rows[row].candidates@[offset])];
    let rest = pending(rows, row, offset + 1);
    let all = pending(rows, row, offset);
    assert(all == head + rest);
    if all.contains(entry) {
        let i = choose|i: int| 0 <= i < all.len() && all[i] == entry;
        if i > 0 {
            assert(rest[i - 1] == entry);
        }
    }
    if rest.contains(entry) {
        let i = choose|i: int| 0 <= i < rest.len() && rest[i] == entry;
        assert(all[i + 1] == entry);
    }
    assert(all[0] == head[0]);
}

proof fn lemma_candidates_are_pending(
    rows: Seq<LegacyEdgePairMigrationRow>,
    row: int,
    offset: int,
    sought: int,
    k: int,
)
    requires
        0 <= row <= sought < rows.len(),
        0 <= offset,
        0 <= k < rows[sought].candidates@.len(),
        row == sought ==> offset <= k,
        !rows[sought].equivalent,
    ensures
        pending(rows, row, offset).contains((sought, rows[sought].candidates@[k])),
    decreases rows.len() - row, rows[row].candidates@.len() - offset,
{
    if rows[row].equivalent || offset >= rows[row].candidates@.len() {
        lemma_candidates_are_pending(rows, row + 1, 0, sought, k);
    } else {
        let entry = (sought, rows[sought].candidates@[k]);
        lemma_first_or_later(rows, row, offset, entry);
        if row < sought || offset < k {
            lemma_candidates_are_pending(rows, row, offset + 1, sought, k);
        }
    }
}

proof fn lemma_unmarked_stay_pending(
    rows: Seq<LegacyEdgePairMigrationRow>,
    after: Seq<LegacyEdgePairMigrationRow>,
    row: int,
    offset: int,
    entry: (int, u64),
)
    requires
        0 <= row,
        0 <= offset,
        after.len() == rows.len(),
        forall|i: int|
            0 <= i < rows.len() ==> (#[trigger] after[i]).candidates == rows[i].candidates && (
            rows[i].equivalent ==> after[i].equivalent),
        pending(rows, row, offset).contains(entry),
        0 <= entry.0 < rows.len(),
        !after[entry.0].equivalent,
    ensures
        pending(after, row, offset).contains(entry),
    decreases rows.len() - row, rows[row].candidates@.len() - offset,
{
    if row < rows.len() {
        assert(after[row].candidates == rows[row].candidates);
        if rows[row].equivalent || offset >= rows[row].candidates@.len() {
            lemma_unmarked_stay_pending(rows, after, row + 1, 0, entry);
        } else {
            lemma_first_or_later(rows, row, offset, entry);
            if entry != (row, rows[row].candidates@[offset]) {
                lemma_unmarked_stay_pending(rows, after, row, offset + 1, entry);
            }
            if after[row].equivalent {
                lemma_marked_row_has_nothing_pending(after, row, offset, offset + 1);
            } else {
                lemma_first_or_later(after, row, offset, entry);
            }
        }
    }
}

proof fn lemma_pending_are_candidates(
    rows: Seq<LegacyEdgePairMigrationRow>,
    row: int,
    offset: int,
    entry: (int, u64),
)
    requires
        0 <= row,
        0 <= offset,
        pending(rows, row, offset).contains(entry),
    ensures
        0 <= entry.0 < rows.len(),
        rows[entry.0].candidates@.contains(entry.1),
    decreases rows.len() - row, rows[row].candidates@.len() - offset,
{
    if row < rows.len() {
        if rows[row].equivalent || offset >= rows[row].candidates@.len() {
            lemma_pending_are_candidates(rows, row + 1, 0, entry);
        } else {
            lemma_first_or_later(rows, row, offset, entry);
            if entry != (row, rows[row].candidates@[offset]) {
                lemma_pending_are_candidates(rows, row, offset + 1, entry);
            }
        }
    }
}

proof fn lemma_round_misses_nothing(
    start: Seq<LegacyEdgePairMigrationRow>,
    before: EquivalenceScan,
    probe: Seq<(int, u64)>,
    handed: EquivalenceScan,
    after: EquivalenceScan,
    equal: spec_fn(int, u64) -> bool,
)
    requires
        misses_nothing(start, before, equal),
        is_round(before, probe, handed, after, equal),
    ensures
        misses_nothing(start, after, equal),
{
    let rows = handed.rows();
    let marked = after.rows();
    assert forall|row: int| 0 <= row < start.len() implies {
        &&& (#[trigger] marked[row]).candidates == start[row].candidates
        &&& start[row].equivalent ==> marked[row].equivalent
        &&& marked[row].equivalent ==> start[row].equivalent || has_equivalent(start, row, equal)
    } by {
        assert(rows[row].candidates == start[row].candidates);
        if found_in(probe, row, equal) {
            let i = choose|i: int|
                0 <= i < probe.len() && (#[trigger] probe[i]).0 == row && equal(row, probe[i].1);
            assert(before.pending()[i] == probe[i]);
            lemma_pending_are_candidates(before.rows(), before.row(), before.offset(), probe[i]);
            let k = choose|k: int|
                0 <= k < start[row].candidates@.len() && start[row].candidates@[k] == probe[i].1;
            assert(equal(row, start[row].candidates@[k]));
        }
    }
    assert forall|row: int, k: int|
        0 <= row < start.len() && 0 <= k < start[row].candidates@.len() && !marked[row].equivalent
            && equal(row, #[trigger] start[row].candidates@[k]) implies after.pending().contains(
        (row, start[row].candidates@[k]),
    ) by {
        let entry = (row, start[row].candidates@[k]);
        assert(marked[row].candidates == start[row].candidates);
        assert(!rows[row].equivalent && !found_in(probe, row, equal));
        assert(before.pending().contains(entry));
        let i = choose|i: int| 0 <= i < before.pending().len() && before.pending()[i] == entry;
        if i < probe.len() {
            assert(probe[i] == entry);
            assert(found_in(probe, row, equal));
        } else {
            assert(handed.pending()[i - probe.len()] == entry);
            lemma_unmarked_stay_pending(rows, marked, handed.row(), handed.offset(), entry);
        }
    }
}

proof fn lemma_rounds_miss_nothing(
    scans: Seq<EquivalenceScan>,
    probes: Seq<Seq<(int, u64)>>,
    handed: Seq<EquivalenceScan>,
    equal: spec_fn(int, u64) -> bool,
    count: int,
)
    requires
        scans.len() == probes.len() + 1,
        0 <= count <= probes.len(),
        misses_nothing(scans[0].rows(), scans[0], equal),
        forall|k: int|
            0 <= k < probes.len() ==> #[trigger] is_round(
                scans[k],
                probes[k],
                handed[k],
                scans[k + 1],
                equal,
            ),
    ensures
        misses_nothing(scans[0].rows(), scans[count], equal),
    decreases count,
{
    if count > 0 {
        let k = count - 1;
        lemma_rounds_miss_nothing(scans, probes, handed, equal, k);
        assert(is_round(scans[k], probes[k], handed[k], scans[k + 1], equal));
        lemma_round_misses_nothing(
            scans[0].rows(),
            scans[k],
            probes[k],
            handed[k],
            scans[count],
            equal,
        );
    }
}

/// A search that was carried on until no candidate was left finds exactly the rows that
/// have an equivalent: whatever the size of the lists, a row is left without a mark at the
/// end if and only if it had none at the start and none of its candidates is an equivalent.
pub proof fn law_search_finds_every_equivalent(
    scans: Seq<EquivalenceScan>,
    probes: Seq<Seq<(int, u64)>>,
    handed: Seq<EquivalenceScan>,
    equal: spec_fn(int, u64) -> bool,
    row: int,
)
    requires
        scans.len() == probes.len() + 1,
        handed.len() == probes.len(),
        scans[0].row() == 0,
        scans[0].offset() == 0,
        forall|k: int|
            0 <= k < probes.len() ==> #[trigger] is_round(
                scans[k],
                probes[k],
                handed[k],
                scans[k + 1],
                equal,
            ),
        scans.last().pending().len() == 0,
        0 <= row < scans[0].rows().len(),
    ensures
        scans.last().rows().len() == scans[0].rows().len(),
        !scans.last().rows()[row].equivalent <==> !scans[0].rows()[row].equivalent
            && !has_equivalent(scans[0].rows(), row, equal),
{
    let start = scans[0].rows();
    assert(misses_nothing(start, scans[0], equal)) by {
        assert forall|row: int, k: int|
            0 <= row < start.len() && 0 <= k < start[row].candidates@.len()
                && !start[row].equivalent && equal(
                row,
                #[trigger] start[row].candidates@[k],
            ) implies scans[0].pending().contains((row, start[row].candidates@[k])) by {
            lemma_candidates_are_pending(start, 0, 0, row, k);
        }
    }
    lemma_rounds_miss_nothing(scans, probes, handed, equal, probes.len() as int);
    let last = scans.last();
    assert(last.rows()[row].candidates == start[row].candidates);
    if !last.rows()[row].equivalent && has_equivalent(start, row, equal) {
        let k = choose|k: int|
            0 <= k < start[row].candidates@.len() && equal(
                row,
                #[trigger] start[row].candidates@[k],
            );
        assert(last.pending().contains((row, start[row].candidates@[k])));
    }
}

/// Takes a source batch apart: the rows to process, and what the batch then reports.
pub fn open_batch(source: MigrationSourceBatch) -> (opened: (Vec<SourceRow>, MigrationBatch))
    ensures
        match source {
            MigrationSourceBatch::Advanced { rows, resume_after_key, source_bytes } => {
                &&& opened.0@ == rows@
                &&& opened.1 == (MigrationBatch::Advanced {
                    resume_after_key,
                    rows: rows@.len() as u64,
                    source_bytes,
                })
                &&& rows@.len() <= u64::MAX
            },
            MigrationSourceBatch::StageComplete => {
                &&& opened.0@.len() == 0
                &&& opened.1 == MigrationBatch::StageComplete
            },
        },
{
    match source {
        MigrationSourceBatch::Advanced { rows, resume_after_key, source_bytes } => {
            let count: usize = rows.len();
            (rows, MigrationBatch::Advanced { resume_after_key, rows: count as u64, source_bytes })
        },
        MigrationSourceBatch::StageComplete => (Vec::new(), MigrationBatch::StageComplete),
    }
}

/// One endpoint row of a batch: the edge that its key names, and its value.
#[derive(Debug)]
pub struct EndpointSource {
    /// Nothing where the key is of another kind.
    pub edge_id: Option<u64>,
    pub value: Vec<u8>,
}

/// Whether a row of an endpoint batch can be decoded.
pub open spec fn endpoint_decodes(source: EndpointSource) -> bool {
    source.edge_id is Some && source.value@.len() >= 16
}

/// Decodes the edges of an endpoint batch; the first malformed row fails the batch.
pub fn decode_endpoint_rows(sources: &Vec<EndpointSource>) -> (edges: Result<
    Vec<(u64, u64, u64)>,
    HelixDbError,
>)
    ensures
        match edges {
            Ok(edges) => {
                &&& edges@.len() == sources@.len()
                &&& forall|i: int|
                    0 <= i < sources@.len() ==> endpoint_decodes(#[trigger] sources@[i])
                &&& forall|i: int|
                    0 <= i < edges@.len() ==> sources@[i].edge_id == Some((#[trigger] edges@[i]).0)
                        && edges@[i].1 == be_u64(sources@[i].value@, 0) && edges@[i].2 == be_u64(
                        sources@[i].value@,
                        8,
                    )
            },
            Err(error) => exists|i: int|
                #![trigger sources@[i]]
                0 <= i < sources@.len() && !endpoint_decodes(sources@[i]) && (forall|j: int|
                    0 <= j < i ==> endpoint_decodes(#[trigger] sources@[j])) && if sources@[i].edge_id
                    is None {
                    error.is_invariant_violation(
                        "edge endpoint migration scan returned a different key kind"@,
                    )
                } else {
                    error == HelixDbError::Encoding(
                        EncodingError::BufferTooShort {
                            expected: 16,
                            actual: sources@[i].value@.len() as usize,
                        },
                    )
                },
        },
{
    let mut edges: Vec<(u64, u64, u64)> = Vec::new();
    let mut position: usize = 0;
    while position < sources.len()
        invariant
            position <= sources.len(),
            edges@.len() == position,
            forall|i: int| 0 <= i < position ==> endpoint_decodes(#[trigger] sources@[i]),
            forall|i: int|
                0 <= i < edges@.len() ==> sources@[i].edge_id == Some((#[trigger] edges@[i]).0)
                    && edges@[i].1 == be_u64(sources@[i].value@, 0) && edges@[i].2 == be_u64(
                    sources@[i].value@,
                    8,
                ),
        decreases sources.len() - position,
    {
        let source = &sources[position];
        let edge_id: u64 = match source.edge_id {
            Some(edge_id) => edge_id,
            None => {
                assert(!endpoint_decodes(sources@[position as int]));
                return Err(
                    HelixDbError::InvariantViolation(
                        "edge endpoint migration scan returned a different key kind".to_owned(),
                    ),
                );
            },
        };
        match decode_edge_endpoints(source.value.as_slice()) {
            Ok((from, to)) => {
                edges.push((edge_id, from, to));
            },
            Err(error) => {
                assert(!endpoint_decodes(sources@[position as int]));
                return Err(error);
            },
        }
        position = position + 1;
    }
    Ok(edges)
}

proof fn lemma_first_byte_decides(left: Seq<u8>, right: Seq<u8>, at: int)
    requires
        left.len() == right.len() == 8,
        0 <= at < 8,
    ensures
        super::keys::key_precedes(left.skip(at), right.skip(at)) == if left[at] != right[at] {
            left[at] < right[at]
        } else {
            super::keys::key_precedes(left.skip(at + 1), right.skip(at + 1))
        },
{
    assert(left.skip(at)[0] == left[at] && right.skip(at)[0] == right[at]);
    assert(left.skip(at).drop_first() =~= left.skip(at + 1));
    assert(right.skip(at).drop_first() =~= right.skip(at + 1));
}

/// Numbers are written most significant byte first: their bytes are ordered as keys exactly
/// as the numbers are.
pub proof fn law_bytes_are_ordered_as_numbers(left: Seq<u8>, right: Seq<u8>)
    requires
        left.len() == right.len() == 8,
    ensures
        super::keys::key_precedes(left, right) <==> be_u64(left, 0) < be_u64(right, 0),
{
    assert(left.skip(0) =~= left && right.skip(0) =~= right);
    lemma_first_byte_decides(left, right, 0);
    lemma_first_byte_decides(left, right, 1);
    lemma_first_byte_decides(left, right, 2);
    lemma_first_byte_decides(left, right, 3);
    lemma_first_byte_decides(left, right, 4);
    lemma_first_byte_decides(left, right, 5);
    lemma_first_byte_decides(left, right, 6);
    lemma_first_byte_decides(left, right, 7);
    assert(!super::keys::key_precedes(left.skip(8), right.skip(8)));
}

/// Eight bytes have one number wherever they stand.
pub proof fn law_numbers_do_not_depend_on_their_place(bytes: Seq<u8>, at: int)
    requires
        0 <= at,
        at + 8 <= bytes.len(),
    ensures
        be_u64(bytes, at) == be_u64(bytes.subrange(at, at + 8), 0),
{
}

/// Properties carry the text of their first `$label`, whatever stands behind it; without
/// such a property, or where it is no text, they carry none.
pub proof fn law_the_first_label_counts(properties: Seq<LabelledProperty>, position: int)
    requires
        0 <= position < properties.len(),
        properties[position].name@ == "$label"@,
        forall|i: int| 0 <= i < position ==> (#[trigger] properties[i]).name@ != "$label"@,
    ensures
        match properties[position].text {
            Some(text) => label_spec(properties) == Some(text@),
            None => label_spec(properties) is None,
        },
{
    lemma_label_is_found(properties, 0, position);
}

proof fn lemma_label_is_found(properties: Seq<LabelledProperty>, from: int, position: int)
    requires
        0 <= from <= position < properties.len(),
        properties[position].name@ == "$label"@,
        forall|i: int| 0 <= i < position ==> (#[trigger] properties[i]).name@ != "$label"@,
    ensures
        label_position(properties, from) == Some(position),
    decreases position - from,
{
    if from < position {
        lemma_label_is_found(properties, from + 1, position);
    }
}

proof fn lemma_label_is_missed(properties: Seq<LabelledProperty>, from: int)
    requires
        0 <= from,
        forall|i: int| 0 <= i < properties.len() ==> (#[trigger] properties[i]).name@ != "$label"@,
    ensures
        label_position(properties, from) is None,
    decreases properties.len() - from,
{
    if from < properties.len() {
        lemma_label_is_missed(properties, from + 1);
    }
}

/// Properties without a `$label` carry no label.
pub proof fn law_labels_need_their_property(properties: Seq<LabelledProperty>)
    requires
        forall|i: int| 0 <= i < properties.len() ==> (#[trigger] properties[i]).name@ != "$label"@,
    ensures
        label_spec(properties) is None,
{
    lemma_label_is_missed(properties, 0);
}

/// An adjacency operand is one byte for its side, zero for outgoing and two for incoming, and
/// the neighbor behind it.
pub proof fn law_operands_hold_side_and_neighbor(
    neighbor: u64,
    direction: EdgeAdjacencyDirection,
)
    ensures
        adjacency_operand(neighbor, direction).len() == 9,
        adjacency_operand(neighbor, direction)[0] == if direction is Out {
            0u8
        } else {
            2u8
        },
        be_u64(adjacency_operand(neighbor, direction), 1) == neighbor,
{
    law_big_endian_round_trip(neighbor);
    let operand = adjacency_operand(neighbor, direction);
    assert(operand.subrange(1, 9) =~= be_bytes(neighbor));
    law_numbers_do_not_depend_on_their_place(operand, 1);
}

/// The rows of an edge: its pair entry and one adjacency entry for each end, always; its
/// endpoints and its properties where it has properties; and both label entries where these
/// carry a label.
pub proof fn law_edges_have_their_rows(
    rows: Seq<EdgeRow>,
    edge_id: u64,
    from: u64,
    to: u64,
    properties: Option<Seq<LabelledProperty>>,
)
    requires
        are_edge_rows(rows, edge_id, from, to, properties),
    ensures
        rows.contains(EdgeRow::PairIndex { from, to, edge_id }),
        exists|i: int|
            0 <= i < rows.len() && (#[trigger] rows[i] matches EdgeRow::Adjacency { node, operand }
                && node == from && operand@ == adjacency_operand(to, EdgeAdjacencyDirection::Out)),
        exists|i: int|
            0 <= i < rows.len() && (#[trigger] rows[i] matches EdgeRow::Adjacency { node, operand }
                && node == to && operand@ == adjacency_operand(from, EdgeAdjacencyDirection::In)),
        rows.contains(EdgeRow::Endpoints { edge_id, from, to }) <==> properties is Some,
        rows.contains(EdgeRow::Properties { edge_id }) <==> properties is Some,
        properties is None ==> rows.len() == 3,
        properties matches Some(properties) ==> match label_spec(properties) {
            None => rows.len() == 5,
            Some(label) => {
                &&& rows.len() == 7
                &&& rows[5] matches EdgeRow::LabelIndex { from: start, to: end, label: name }
                    && start == from && end == to && name@ == label
                &&& rows[6] matches EdgeRow::GlobalLabelIndex { label: name, edge_id: labelled }
                    && name@ == label && labelled == edge_id
            },
        },
{
    let stored: int = if properties is Some {
        2
    } else {
        0
    };
    assert(rows[stored] == (EdgeRow::PairIndex { from, to, edge_id }));
    assert(rows[stored + 1] is Adjacency && rows[stored + 2] is Adjacency);
    if properties is Some {
        assert(rows[0] is Endpoints && rows[1] is Properties);
    }
}

/// An endpoint row is decoded exactly where its key names an edge and both ends are there.
pub proof fn law_endpoints_need_an_edge_and_both_ends(source: EndpointSource)
    ensures
        endpoint_decodes(source) <==> source.edge_id is Some && source.value@.len() >= 16,
{
}

/// A list of candidates is seen candidate by candidate, each with its row.
pub proof fn law_probes_are_seen_as_they_are(probe: Seq<(usize, u64)>, position: int)
    requires
        0 <= position < probe.len(),
    ensures
        probe_view(probe).len() == probe.len(),
        probe_view(probe)[position].0 == probe[position].0,
        probe_view(probe)[position].1 == probe[position].1,
{
}

/// The candidates of the first row come first, and a row with an equivalent has none left.
pub proof fn law_candidates_come_row_by_row(
    rows: Seq<LegacyEdgePairMigrationRow>,
    row: int,
    offset: int,
)
    requires
        0 <= row < rows.len(),
        0 <= offset,
    ensures
        !rows[row].equivalent && offset < rows[row].candidates@.len() ==> pending(rows, row, offset)
            == seq![(row, rows[row].candidates@[offset])] + pending(rows, row, offset + 1),
        rows[row].equivalent || offset >= rows[row].candidates@.len() ==> pending(rows, row, offset)
            == pending(rows, row + 1, 0),
        pending(rows, rows.len() as int, 0).len() == 0,
{
}

} // verus!
