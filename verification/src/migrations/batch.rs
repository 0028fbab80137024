//! Bounded batches of source rows.
use vstd::prelude::*;

use super::job::{MigrationJobState, MigrationResumeKey};
use crate::error::HelixDbError;
use crate::text::{decimal_text, joined, joined3};

verus! {

/// Limits of one migration batch; both are positive.
#[derive(Debug, Clone, Copy, PartialEq, Eq, Structural)]
pub struct MigrationTuning {
    batch_rows: usize,
    batch_bytes: usize,
}

impl MigrationTuning {
    #[verifier::type_invariant]
    spec fn is_positive(self) -> bool {
        self.batch_rows > 0 && self.batch_bytes > 0
    }

    /// Rows that a batch holds at most.
    pub closed spec fn row_cap(self) -> nat {
        self.batch_rows as nat
    }

    /// Key and value bytes that a batch holds at most.
    pub closed spec fn byte_cap(self) -> nat {
        self.batch_bytes as nat
    }

    /// Sets both limits; neither may be zero.
    pub fn new(batch_rows: usize, batch_bytes: usize) -> (tuning: Option<Self>)
        ensures
            tuning is Some <==> batch_rows > 0 && batch_bytes > 0,
            tuning matches Some(tuning) ==> tuning.row_cap() == batch_rows && tuning.byte_cap()
                == batch_bytes,
    {
        if batch_rows > 0 && batch_bytes > 0 {
            Some(MigrationTuning { batch_rows, batch_bytes })
        } else {
            None
        }
    }

    /// Rows that a batch holds at most.
    pub fn batch_rows(&self) -> (rows: usize)
        ensures
            rows == self.row_cap(),
            rows > 0,
    {
        proof {
            use_type_invariant(self);
        }
        self.batch_rows
    }

    /// Key and value bytes that a batch holds at most.
    pub fn batch_bytes(&self) -> (bytes: usize)
        ensures
            bytes == self.byte_cap(),
            bytes > 0,
    {
        proof {
            use_type_invariant(self);
        }
        self.batch_bytes
    }
}

/// Which limits bound the number of rows of a batch.
#[derive(Debug, Clone, Copy, PartialEq, Eq, Structural)]
pub enum MigrationRowLimit {
    /// The configured row limit and the byte limit.
    Tuned,
    /// The byte limit alone.
    ByteBudgetOnly,
}

impl MigrationRowLimit {
    /// Whether a batch with this many rows may take another one.
    pub open spec fn leaves_room(self, rows: int, tuning: MigrationTuning) -> bool {
        self is Tuned ==> rows < tuning.row_cap()
    }

    /// Whether a batch with this many rows may take another one.
    pub fn admits(self, scanned_rows: u64, tuning: MigrationTuning) -> (admitted: bool)
        ensures
            admitted == self.leaves_room(scanned_rows as int, tuning),
    {
        match self {
            MigrationRowLimit::Tuned => scanned_rows < tuning.batch_rows() as u64,
            MigrationRowLimit::ByteBudgetOnly => true,
        }
    }
}

/// One source row.
#[derive(Debug, PartialEq, Eq)]
pub struct SourceRow {
    pub key: Vec<u8>,
    pub value: Vec<u8>,
}

impl SourceRow {
    /// Key and value bytes of the row.
    pub open spec fn size(self) -> nat {
        self.key@.len() + self.value@.len()
    }
}

/// Key and value bytes of the first `count` rows.
pub open spec fn bytes_of_first(rows: Seq<SourceRow>, count: int) -> nat
    decreases count,
{
    if count <= 0 {
        0
    } else {
        bytes_of_first(rows, count - 1) + rows[count - 1].size()
    }
}

/// Whether a batch that holds the first `count` rows takes the next one too.
pub open spec fn takes_next(
    rows: Seq<SourceRow>,
    count: int,
    limit: MigrationRowLimit,
    tuning: MigrationTuning,
) -> bool {
    &&& count < rows.len()
    &&& limit.leaves_room(count, tuning)
    &&& bytes_of_first(rows, count + 1) <= tuning.byte_cap()
}

/// How many rows a batch takes that already holds the first `count`.
pub open spec fn batch_end(
    rows: Seq<SourceRow>,
    count: int,
    limit: MigrationRowLimit,
    tuning: MigrationTuning,
) -> int
    decreases rows.len() - count,
{
    if takes_next(rows, count, limit, tuning) {
        batch_end(rows, count + 1, limit, tuning)
    } else {
        count
    }
}

/// Why a batch over `rows` cannot be formed, judged by the row at which it stops.
pub open spec fn batch_refusal(
    rows: Seq<SourceRow>,
    count: int,
    limit: MigrationRowLimit,
    tuning: MigrationTuning,
) -> Option<BatchRefusal> {
    if count >= rows.len() || !limit.leaves_room(count, tuning) {
        None
    } else if rows[count].size() > usize::MAX {
        Some(BatchRefusal::RowLengthOverflow)
    } else if rows[count].size() > tuning.byte_cap() {
        Some(BatchRefusal::OversizedRow(rows[count].size()))
    } else if bytes_of_first(rows, count + 1) > usize::MAX {
        Some(BatchRefusal::BatchLengthOverflow)
    } else {
        None
    }
}

/// Why a batch cannot be formed.
pub enum BatchRefusal {
    RowLengthOverflow,
    OversizedRow(nat),
    BatchLengthOverflow,
}

impl BatchRefusal {
    /// Whether a failure reports this refusal.
    pub open spec fn is_reported_by(self, error: HelixDbError, tuning: MigrationTuning) -> bool {
        match self {
            BatchRefusal::RowLengthOverflow => error.is_invariant_violation(
                "migration source row byte length overflowed usize"@,
            ),
            BatchRefusal::OversizedRow(size) => error.is_config(
                "migration source row is "@ + crate::text::decimal(size)
                    + " bytes, exceeding the "@ + crate::text::decimal(tuning.byte_cap())
                    + " byte batch limit"@,
            ),
            BatchRefusal::BatchLengthOverflow => error.is_invariant_violation(
                "migration batch source byte length overflowed usize"@,
            ),
        }
    }
}

/// A batch of source rows read for one stage.
#[derive(Debug, PartialEq, Eq)]
pub enum MigrationSourceBatch {
    /// Rows to process, and where the next batch starts.
    Advanced { rows: Vec<SourceRow>, resume_after_key: MigrationResumeKey, source_bytes: u64 },
    /// The keyspace of the stage has no further row.
    StageComplete,
}

/// Counts the rows and bytes that a batch holds.
#[derive(Debug)]
pub struct BatchMeter {
    rows: u64,
    bytes: usize,
    limit: MigrationRowLimit,
    tuning: MigrationTuning,
}

impl BatchMeter {
    /// Rows taken so far.
    pub closed spec fn rows_taken(self) -> nat {
        self.rows as nat
    }

    /// Bytes taken so far.
    pub closed spec fn bytes_taken(self) -> nat {
        self.bytes as nat
    }

    /// The row limit in force.
    pub closed spec fn limit(self) -> MigrationRowLimit {
        self.limit
    }

    /// The limits in force.
    pub closed spec fn tuning(self) -> MigrationTuning {
        self.tuning
    }

    /// Whether the bytes taken respect the limit.
    pub open spec fn within_limits(self) -> bool {
        self.bytes_taken() <= self.tuning().byte_cap()
    }

    /// A meter for an empty batch.
    pub fn new(limit: MigrationRowLimit, tuning: MigrationTuning) -> (meter: Self)
        ensures
            meter.rows_taken() == 0,
            meter.bytes_taken() == 0,
            meter.limit() == limit,
            meter.tuning() == tuning,
            meter.within_limits(),
    {
        BatchMeter { rows: 0, bytes: 0, limit, tuning }
    }

    /// Whether the batch may take another row.
    pub fn wants_row(&self) -> (wanted: bool)
        ensures
            wanted == self.limit().leaves_room(self.rows_taken() as int, self.tuning()),
    {
        self.limit.admits(self.rows, self.tuning)
    }

    /// Bytes taken so far.
    pub fn source_bytes(&self) -> (bytes: u64)
        ensures
            bytes == self.bytes_taken(),
    {
        self.bytes as u64
    }

    /// Weighs one row: `true` takes it, `false` leaves it to the next batch.
    ///
    /// A row that no batch could hold is refused.
    pub fn weigh(&mut self, row: &SourceRow) -> (admitted: Result<bool, HelixDbError>)
        requires
            old(self).rows_taken() < u64::MAX,
            old(self).within_limits(),
        ensures
            final(self).limit() == old(self).limit(),
            final(self).tuning() == old(self).tuning(),
            final(self).within_limits(),
            match admitted {
                Ok(true) => {
                    &&& old(self).bytes_taken() + row.size() <= old(self).tuning().byte_cap()
                    &&& final(self).rows_taken() == old(self).rows_taken() + 1
                    &&& final(self).bytes_taken() == old(self).bytes_taken() + row.size()
                },
                Ok(false) => {
                    &&& row.size() <= old(self).tuning().byte_cap() < old(self).bytes_taken()
                        + row.size() <= usize::MAX
                    &&& *final(self) == *old(self)
                },
                Err(error) => {
                    &&& *final(self) == *old(self)
                    &&& if row.size() > usize::MAX {
                        BatchRefusal::RowLengthOverflow.is_reported_by(error, old(self).tuning())
                    } else if row.size() > old(self).tuning().byte_cap() {
                        BatchRefusal::OversizedRow(row.size()).is_reported_by(
                            error,
                            old(self).tuning(),
                        )
                    } else {
                        &&& old(self).bytes_taken() + row.size() > usize::MAX
                        &&& BatchRefusal::BatchLengthOverflow.is_reported_by(
                            error,
                            old(self).tuning(),
                        )
                    }
                },
            },
    {
        let row_bytes: usize = match row.key.len().checked_add(row.value.len()) {
            Some(row_bytes) => row_bytes,
            None => {
                return Err(
                    HelixDbError::InvariantViolation(
                        "migration source row byte length overflowed usize".to_owned(),
                    ),
                );
            },
        };
        let budget: usize = self.tuning.batch_bytes();
        if row_bytes > budget {
            let found = joined("migration source row is ", decimal_text(row_bytes as u64).as_str());
            let limit = joined3(
                found.as_str(),
                " bytes, exceeding the ",
                decimal_text(budget as u64).as_str(),
            );
            return Err(HelixDbError::Config(joined(limit.as_str(), " byte batch limit")));
        }
        let next_bytes: usize = match self.bytes.checked_add(row_bytes) {
            Some(next_bytes) => next_bytes,
            None => {
                return Err(
                    HelixDbError::InvariantViolation(
                        "migration batch source byte length overflowed usize".to_owned(),
                    ),
                );
            },
        };
        if next_bytes > budget {
            return Ok(false);
        }
        self.rows = self.rows + 1;
        self.bytes = next_bytes;
        Ok(true)
    }
}

/// Whether a batch read from `source` is the right one for a running job.
pub open spec fn is_batch_of(
    batch: Result<MigrationSourceBatch, HelixDbError>,
    source: Seq<SourceRow>,
    limit: MigrationRowLimit,
    tuning: MigrationTuning,
) -> bool {
    let count = batch_end(source, 0, limit, tuning);
    match batch_refusal(source, count, limit, tuning) {
        Some(refusal) => batch matches Err(error) && refusal.is_reported_by(error, tuning),
        None => if count == 0 {
            batch matches Ok(MigrationSourceBatch::StageComplete)
        } else if source[count - 1].key@.len() == 0 {
            batch matches Err(error) && error.is_invariant_violation(
                "migration batch processed rows without a resume key"@,
            )
        } else {
            batch matches Ok(
                MigrationSourceBatch::Advanced { rows, resume_after_key, source_bytes },
            ) && {
                &&& rows@ == source.take(count)
                &&& resume_after_key@ == source[count - 1].key@
                &&& source_bytes == bytes_of_first(source, count)
            }
        },
    }
}

fn copy_bytes(bytes: &Vec<u8>) -> (copy: Vec<u8>)
    ensures
        copy@ == bytes@,
{
    let copy = bytes.clone();
    assert(copy@ =~= bytes@);
    copy
}

/// Reads the next batch of a stage from the rows that its scan yields.
pub fn read_stage_batch(
    state: &MigrationJobState,
    source: Vec<SourceRow>,
    limit: MigrationRowLimit,
    tuning: MigrationTuning,
) -> (batch: Result<MigrationSourceBatch, HelixDbError>)
    ensures
        if state@ is Running {
            is_batch_of(batch, source@, limit, tuning)
        } else {
            batch matches Ok(MigrationSourceBatch::StageComplete)
        },
{
    match state {
        MigrationJobState::Running { .. } => {},
        _ => return Ok(MigrationSourceBatch::StageComplete),
    }
    let mut meter = BatchMeter::new(limit, tuning);
    let mut count: usize = 0;
    while count < source.len() && meter.wants_row()
        invariant_except_break
            batch_end(source@, 0, limit, tuning) == batch_end(source@, count as int, limit, tuning),
        invariant
            count <= source.len(),
            meter.limit() == limit,
            meter.tuning() == tuning,
            meter.within_limits(),
            meter.rows_taken() == count,
            meter.bytes_taken() == bytes_of_first(source@, count as int),
            state@ is Running,
        ensures
            batch_end(source@, 0, limit, tuning) == count,
            batch_refusal(source@, count as int, limit, tuning) is None,
        decreases source@.len() - count,
    {
        match meter.weigh(&source[count]) {
            Err(error) => {
                return Err(error);
            },
            Ok(false) => {
                break;
            },
            Ok(true) => {
                count = count + 1;
            },
        }
    }
    if count == 0 {
        return Ok(MigrationSourceBatch::StageComplete);
    }
    let resume_after_key = match MigrationResumeKey::new(copy_bytes(&source[count - 1].key)) {
        Some(key) => key,
        None => {
            return Err(
                HelixDbError::InvariantViolation(
                    "migration batch processed rows without a resume key".to_owned(),
                ),
            );
        },
    };
    let source_bytes: u64 = meter.source_bytes();
    let mut rows = source;
    rows.truncate(count);
    assert(rows@ =~= source@.take(count as int));
    Ok(MigrationSourceBatch::Advanced { rows, resume_after_key, source_bytes })
}

proof fn lemma_batch_end_bounds(
    rows: Seq<SourceRow>,
    count: int,
    limit: MigrationRowLimit,
    tuning: MigrationTuning,
)
    requires
        0 <= count <= rows.len(),
        bytes_of_first(rows, count) <= tuning.byte_cap(),
        limit is Tuned ==> count <= tuning.row_cap(),
    ensures
        count <= batch_end(rows, count, limit, tuning) <= rows.len(),
        bytes_of_first(rows, batch_end(rows, count, limit, tuning)) <= tuning.byte_cap(),
        limit is Tuned ==> batch_end(rows, count, limit, tuning) <= tuning.row_cap(),
        !takes_next(rows, batch_end(rows, count, limit, tuning), limit, tuning),
    decreases rows.len() - count,
{
    if takes_next(rows, count, limit, tuning) {
        lemma_batch_end_bounds(rows, count + 1, limit, tuning);
    }
}

/// No batch goes past its limits, and none stops before a limit or the end of the
/// keyspace forces it to.
pub proof fn law_batch_is_the_longest_within_limits(
    source: Seq<SourceRow>,
    limit: MigrationRowLimit,
    tuning: MigrationTuning,
)
    ensures
        ({
            let count = batch_end(source, 0, limit, tuning);
            &&& 0 <= count <= source.len()
            &&& bytes_of_first(source, count) <= tuning.byte_cap()
            &&& limit is Tuned ==> count <= tuning.row_cap()
            &&& count == source.len() || (limit is Tuned && count == tuning.row_cap())
                || bytes_of_first(source, count + 1) > tuning.byte_cap()
        }),
{
    lemma_batch_end_bounds(source, 0, limit, tuning);
}

/// Bytes of the row at which an index-migration scan stands, as the key parser saw it.
#[derive(Debug)]
pub enum VectorKeyShape {
    /// The key lies outside the vector keyspaces.
    OutsideVectorKeyspace,
    /// The key is a well-formed vector key.
    Vector,
    /// The key lies in a vector keyspace and is no vector key; why not.
    Malformed(String),
}

/// Checks one row of the property-index stage, which keeps every row it visits.
///
/// `logical` is the key without its scope, `None` where it lies outside the scope;
/// `property_index_prefix` opens the keys of that keyspace.
pub fn check_property_index_row(
    logical: Option<&[u8]>,
    shape: &VectorKeyShape,
    property_index_prefix: u8,
) -> (checked: Result<(), HelixDbError>)
    ensures
        match logical {
            None => checked matches Err(error) && error.is_invariant_violation(
                "property-index migration key does not match its tenant scope"@,
            ),
            Some(logical) => {
                let dedicated = logical@.len() > 0 && (logical@[0] == 0xF0 || logical@[0] == 0xF1);
                if *shape is Vector {
                    checked is Ok
                } else if *shape is Malformed && dedicated {
                    checked matches Err(error) && error.is_config(
                        "malformed dedicated vector key during migration: "@
                            + shape->Malformed_0@,
                    )
                } else if logical@.len() > 0 && logical@[0] == property_index_prefix {
                    checked is Ok
                } else {
                    checked matches Err(error) && error.is_invariant_violation(
                        "property-index migration scan returned a non-index key"@,
                    )
                }
            },
        },
{
    let logical = match logical {
        Some(logical) => logical,
        None => {
            return Err(
                HelixDbError::InvariantViolation(
                    "property-index migration key does not match its tenant scope".to_owned(),
                ),
            );
        },
    };
    match shape {
        VectorKeyShape::Vector => {
            return Ok(());
        },
        VectorKeyShape::Malformed(error) => {
            if logical.len() > 0 && (logical[0] == 0xF0 || logical[0] == 0xF1) {
                return Err(
                    HelixDbError::Config(
                        joined("malformed dedicated vector key during migration: ", error.as_str()),
                    ),
                );
            }
        },
        VectorKeyShape::OutsideVectorKeyspace => {},
    }
    if logical.len() > 0 && logical[0] == property_index_prefix {
        Ok(())
    } else {
        Err(
            HelixDbError::InvariantViolation(
                "property-index migration scan returned a non-index key".to_owned(),
            ),
        )
    }
}

/// A tuned batch has room below its row limit, and a batch bounded by bytes alone always.
pub proof fn law_row_limits_bound_tuned_batches(rows: int, tuning: MigrationTuning)
    ensures
        MigrationRowLimit::Tuned.leaves_room(rows, tuning) <==> rows < tuning.row_cap(),
        MigrationRowLimit::ByteBudgetOnly.leaves_room(rows, tuning),
{
}

/// A batch weighs the keys and the values of its rows, each row once.
pub proof fn law_batches_weigh_keys_and_values(rows: Seq<SourceRow>, count: int)
    requires
        0 <= count < rows.len(),
    ensures
        bytes_of_first(rows, 0) == 0,
        bytes_of_first(rows, count + 1) == bytes_of_first(rows, count) + rows[count].key@.len()
            + rows[count].value@.len(),
        rows[count].size() == rows[count].key@.len() + rows[count].value@.len(),
{
}

/// A stage is complete only where no row is left: with room for rows, the first row of a
/// source is either taken or refused.
pub proof fn law_stages_end_without_rows(
    batch: Result<MigrationSourceBatch, HelixDbError>,
    source: Seq<SourceRow>,
    limit: MigrationRowLimit,
    tuning: MigrationTuning,
)
    requires
        is_batch_of(batch, source, limit, tuning),
        tuning.row_cap() > 0,
    ensures
        batch == Ok::<MigrationSourceBatch, HelixDbError>(MigrationSourceBatch::StageComplete)
            <==> source.len() == 0,
{
    law_batch_is_the_longest_within_limits(source, limit, tuning);
    let count = batch_end(source, 0, limit, tuning);
    if source.len() > 0 && count == 0 {
        assert(bytes_of_first(source, 1) == bytes_of_first(source, 0) + source[0].size());
    }
}

/// A batch that advances holds the first rows of its source, resumes behind the last of them
/// and reports their bytes; what is left starts behind that row.
pub proof fn law_batches_resume_behind_their_last_row(
    rows: Vec<SourceRow>,
    resume_after_key: MigrationResumeKey,
    source_bytes: u64,
    source: Seq<SourceRow>,
    limit: MigrationRowLimit,
    tuning: MigrationTuning,
)
    requires
        is_batch_of(
            Ok(MigrationSourceBatch::Advanced { rows, resume_after_key, source_bytes }),
            source,
            limit,
            tuning,
        ),
    ensures
        0 < rows@.len() <= source.len(),
        forall|i: int| 0 <= i < rows@.len() ==> #[trigger] rows@[i] == source[i],
        resume_after_key@ == rows@.last().key@,
        source_bytes == bytes_of_first(source, rows@.len() as int),
        source_bytes <= tuning.byte_cap(),
        limit is Tuned ==> rows@.len() <= tuning.row_cap(),
{
    law_batch_is_the_longest_within_limits(source, limit, tuning);
    let count = batch_end(source, 0, limit, tuning);
    assert(rows@.len() == count);
    assert(rows@[count - 1] == source[count - 1]);
}

/// A batch fails only for a row that it meets within its row limit: one that no batch could
/// hold, or one whose bytes cannot be counted.
pub proof fn law_batches_refuse_only_rows_they_meet(
    source: Seq<SourceRow>,
    count: int,
    limit: MigrationRowLimit,
    tuning: MigrationTuning,
)
    requires
        0 <= count < source.len(),
        tuning.byte_cap() <= usize::MAX,
    ensures
        ({
            let refusal = batch_refusal(source, count, limit, tuning);
            let meets = limit.leaves_room(count, tuning);
            let size = source[count].key@.len() + source[count].value@.len();
            &&& refusal == Some(BatchRefusal::RowLengthOverflow) <==> meets && size > usize::MAX
            &&& refusal == Some(BatchRefusal::OversizedRow(size)) <==> meets && tuning.byte_cap()
                < size <= usize::MAX
            &&& refusal == Some(BatchRefusal::BatchLengthOverflow) <==> meets && size
                <= tuning.byte_cap() && bytes_of_first(source, count + 1) > usize::MAX
            &&& !meets ==> refusal is None
        }),
        batch_refusal(source, source.len() as int, limit, tuning) is None,
{
}

/// A refusal is reported in its own words, an oversized row with its size and the limit.
pub proof fn law_refusals_are_reported(error: HelixDbError, tuning: MigrationTuning, size: nat)
    ensures
        BatchRefusal::RowLengthOverflow.is_reported_by(error, tuning) <==> (error matches
            HelixDbError::InvariantViolation(text) && text@
            == "migration source row byte length overflowed usize"@),
        BatchRefusal::BatchLengthOverflow.is_reported_by(error, tuning) <==> (error matches
            HelixDbError::InvariantViolation(text) && text@
            == "migration batch source byte length overflowed usize"@),
        BatchRefusal::OversizedRow(size).is_reported_by(error, tuning) <==> (error matches
            HelixDbError::Config(text) && text@ == "migration source row is "@
            + crate::text::decimal(size) + " bytes, exceeding the "@ + crate::text::decimal(
            tuning.byte_cap(),
        ) + " byte batch limit"@),
{
}

} // verus!
