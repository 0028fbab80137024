//! Physical keys of migration metadata and bounds of resumable scans.
use vstd::prelude::*;

use super::job::{MigrationId, MigrationResumeKey};

verus! {

/// Byte that opens every metadata key inside its scope.
pub const METADATA_PREFIX: u8 = 0xFF;

/// Whether a key comes before another in the order of the store.
pub open spec fn key_precedes(left: Seq<u8>, right: Seq<u8>) -> bool
    decreases left.len(),
{
    if right.len() == 0 {
        false
    } else if left.len() == 0 {
        true
    } else if left[0] != right[0] {
        left[0] < right[0]
    } else {
        key_precedes(left.drop_first(), right.drop_first())
    }
}

/// The least key above every key with a prefix, unless there is none.
pub open spec fn prefix_upper(prefix: Seq<u8>) -> Option<Seq<u8>>
    decreases prefix.len(),
{
    if prefix.len() == 0 {
        None
    } else if prefix.last() != 0xFF {
        Some(prefix.drop_last().push((prefix.last() + 1) as u8))
    } else {
        prefix_upper(prefix.drop_last())
    }
}

/// The physical key of a metadata row: its scope, the metadata byte, its name.
pub open spec fn metadata_key(scope_prefix: Seq<u8>, name: Seq<u8>) -> Seq<u8> {
    scope_prefix.push(METADATA_PREFIX) + name
}

/// The name shared by the keys of all migration jobs.
pub open spec fn job_prefix_name() -> Seq<u8> {
    vstd::utf8::encode_utf8("kv_migration_job:"@)
}

/// The physical key of a migration job.
pub open spec fn job_key(scope_prefix: Seq<u8>, id: MigrationId) -> Seq<u8> {
    metadata_key(scope_prefix, job_prefix_name() + vstd::utf8::encode_utf8(id.name()))
}

fn append_bytes(target: &mut Vec<u8>, bytes: &[u8])
    ensures
        final(target)@ == old(target)@ + bytes@,
{
    target.extend_from_slice(bytes);
    assert(target@ =~= old(target)@ + bytes@);
}

/// Builds the physical key of a metadata row inside the scope that owns it.
///
/// The rows written before tenants had a namespace have an empty scope prefix.
pub fn scoped_metadata_key(scope_prefix: &[u8], name: &[u8]) -> (key: Vec<u8>)
    ensures
        key@ == metadata_key(scope_prefix@, name@),
{
    let mut key: Vec<u8> = Vec::new();
    append_bytes(&mut key, scope_prefix);
    key.push(METADATA_PREFIX);
    append_bytes(&mut key, name);
    assert(key@ =~= metadata_key(scope_prefix@, name@));
    key
}

/// Metadata key for one migration job.
#[derive(Debug, PartialEq, Eq)]
pub struct MigrationJobKey(Vec<u8>);

impl View for MigrationJobKey {
    type V = Seq<u8>;

    closed spec fn view(&self) -> Seq<u8> {
        self.0@
    }
}

impl MigrationJobKey {
    /// Builds the key of a job inside the scope that owns it.
    pub fn new(scope_prefix: &[u8], id: MigrationId) -> (key: Self)
        ensures
            key@ == job_key(scope_prefix@, id),
    {
        let mut name: Vec<u8> = Vec::new();
        append_bytes(&mut name, "kv_migration_job:".as_bytes());
        append_bytes(&mut name, id.storage_name());
        assert(name@ =~= job_prefix_name() + vstd::utf8::encode_utf8(id.name()));
        MigrationJobKey(scoped_metadata_key(scope_prefix, name.as_slice()))
    }

    /// The physical key.
    pub fn as_bytes(&self) -> (bytes: &[u8])
        ensures
            bytes@ == self@,
    {
        self.0.as_slice()
    }

    /// Gives the physical key.
    pub fn into_bytes(self) -> (bytes: Vec<u8>)
        ensures
            bytes@ == self@,
    {
        self.0
    }
}

/// Builds the prefix under which all migration jobs of a scope are found.
pub fn migration_job_scan_prefix_scoped(scope_prefix: &[u8]) -> (prefix: Vec<u8>)
    ensures
        prefix@ == metadata_key(scope_prefix@, job_prefix_name()),
{
    scoped_metadata_key(scope_prefix, "kv_migration_job:".as_bytes())
}

/// One end of a key range.
#[derive(Debug, PartialEq, Eq)]
pub enum ScanBound {
    Included(Vec<u8>),
    Excluded(Vec<u8>),
    Unbounded,
}

impl ScanBound {
    /// Whether a key lies on the inner side of a lower end.
    pub open spec fn admits_above(self, key: Seq<u8>) -> bool {
        match self {
            ScanBound::Included(bound) => !key_precedes(key, bound@),
            ScanBound::Excluded(bound) => key_precedes(bound@, key),
            ScanBound::Unbounded => true,
        }
    }

    /// Whether a key lies on the inner side of an upper end.
    pub open spec fn admits_below(self, key: Seq<u8>) -> bool {
        match self {
            ScanBound::Included(bound) => !key_precedes(bound@, key),
            ScanBound::Excluded(bound) => key_precedes(key, bound@),
            ScanBound::Unbounded => true,
        }
    }
}

/// Computes the least key above every key with a prefix.
pub fn increment_prefix(prefix: &[u8]) -> (upper: Option<Vec<u8>>)
    ensures
        match upper {
            Some(upper) => prefix_upper(prefix@) == Some(upper@),
            None => prefix_upper(prefix@) is None,
        },
{
    let mut index: usize = prefix.len();
    assert(prefix@.take(index as int) =~= prefix@);
    while index > 0
        invariant
            index <= prefix@.len(),
            prefix_upper(prefix@) == prefix_upper(prefix@.take(index as int)),
        decreases index,
    {
        index = index - 1;
        let ghost head = prefix@.take(index + 1);
        assert(head.drop_last() =~= prefix@.take(index as int));
        if prefix[index] != 0xFF {
            let mut upper: Vec<u8> = Vec::new();
            let mut position: usize = 0;
            while position < index
                invariant
                    position <= index < prefix@.len(),
                    upper@ == prefix@.take(position as int),
                decreases index - position,
            {
                upper.push(prefix[position]);
                position = position + 1;
                assert(upper@ =~= prefix@.take(position as int));
            }
            upper.push(prefix[index] + 1);
            assert(upper@ =~= head.drop_last().push((head.last() + 1) as u8));
            return Some(upper);
        }
    }
    None
}

/// Computes the range of rows that a stage has still to visit.
pub fn scan_bounds_for_prefix(
    prefix: &[u8],
    resume_after: Option<&MigrationResumeKey>,
) -> (bounds: (ScanBound, ScanBound))
    ensures
        match resume_after {
            Some(key) => bounds.0 matches ScanBound::Excluded(start) && start@ == key@,
            None => bounds.0 matches ScanBound::Included(start) && start@ == prefix@,
        },
        match prefix_upper(prefix@) {
            Some(upper) => bounds.1 matches ScanBound::Excluded(end) && end@ == upper,
            None => bounds.1 is Unbounded,
        },
{
    let start = match resume_after {
        Some(key) => {
            let mut bytes: Vec<u8> = Vec::new();
            append_bytes(&mut bytes, key.as_bytes());
            assert(bytes@ =~= key@);
            ScanBound::Excluded(bytes)
        },
        None => {
            let mut bytes: Vec<u8> = Vec::new();
            append_bytes(&mut bytes, prefix);
            assert(bytes@ =~= prefix@);
            ScanBound::Included(bytes)
        },
    };
    let end = match increment_prefix(prefix) {
        Some(upper) => ScanBound::Excluded(upper),
        None => ScanBound::Unbounded,
    };
    (start, end)
}

proof fn lemma_upper_from_front(prefix: Seq<u8>)
    requires
        prefix.len() > 0,
    ensures
        prefix_upper(prefix) == match prefix_upper(prefix.drop_first()) {
            Some(rest) => Some(seq![prefix[0]] + rest),
            None => if prefix[0] != 0xFF {
                Some(seq![(prefix[0] + 1) as u8])
            } else {
                None
            },
        },
    decreases prefix.len(),
{
    let rest = prefix.drop_first();
    if prefix.len() == 1 {
        assert(rest =~= Seq::<u8>::empty());
        assert(prefix.drop_last() =~= Seq::<u8>::empty());
        assert(prefix_upper(rest) is None);
        if prefix[0] != 0xFF {
            assert(prefix.drop_last().push((prefix.last() + 1) as u8) =~= seq![
                (prefix[0] + 1) as u8,
            ]);
        } else {
            assert(prefix_upper(prefix) == prefix_upper(prefix.drop_last()));
        }
    } else {
        assert(rest.last() == prefix.last());
        assert(rest.drop_last() =~= prefix.drop_last().drop_first());
        if prefix.last() != 0xFF {
            let bumped = (prefix.last() + 1) as u8;
            assert(prefix.drop_last().push(bumped) =~= seq![prefix[0]] + rest.drop_last().push(
                bumped,
            ));
        } else {
            lemma_upper_from_front(prefix.drop_last());
            assert(prefix.drop_last()[0] == prefix[0]);
        }
    }
}

/// A key has a prefix exactly when it lies between the prefix and the least
/// key above all keys with that prefix.
pub proof fn law_prefix_is_a_key_range(prefix: Seq<u8>, key: Seq<u8>)
    ensures
        prefix.is_prefix_of(key) <==> (!key_precedes(key, prefix) && (prefix_upper(
            prefix,
        ) matches Some(upper) ==> key_precedes(key, upper))),
    decreases prefix.len(),
{
    if prefix.len() == 0 {
        assert(prefix.is_prefix_of(key)) by {
            assert(key.subrange(0, 0) =~= prefix);
        }
    } else {
        lemma_upper_from_front(prefix);
        if key.len() > 0 {
            let rest = prefix.drop_first();
            let tail = key.drop_first();
            law_prefix_is_a_key_range(rest, tail);
            assert(prefix.is_prefix_of(key) <==> (prefix[0] == key[0] && rest.is_prefix_of(tail)))
                by {
                if prefix.is_prefix_of(key) {
                    assert(prefix == key.subrange(0, prefix.len() as int));
                    assert(prefix[0] == key.subrange(0, prefix.len() as int)[0]);
                    assert(rest =~= tail.subrange(0, rest.len() as int)) by {
                        assert forall|i: int| 0 <= i < rest.len() implies rest[i]
                            == tail.subrange(0, rest.len() as int)[i] by {
                            assert(rest[i] == prefix[i + 1]);
                            assert(prefix[i + 1] == key.subrange(0, prefix.len() as int)[i + 1]);
                        }
                    }
                }
                if prefix[0] == key[0] && rest.is_prefix_of(tail) {
                    assert(prefix =~= key.subrange(0, prefix.len() as int)) by {
                        assert forall|i: int| 0 <= i < prefix.len() implies prefix[i]
                            == key.subrange(0, prefix.len() as int)[i] by {
                            if i > 0 {
                                assert(prefix[i] == rest[i - 1]);
                                assert(rest[i - 1] == tail.subrange(0, rest.len() as int)[i - 1]);
                            }
                        }
                    }
                }
            }
            assert(key_precedes(key, prefix) == (if key[0] != prefix[0] {
                key[0] < prefix[0]
            } else {
                key_precedes(tail, rest)
            }));
            if let Some(upper) = prefix_upper(prefix) {
                assert(key_precedes(key, upper) == (if key[0] != upper[0] {
                    key[0] < upper[0]
                } else {
                    key_precedes(tail, upper.drop_first())
                }));
                match prefix_upper(rest) {
                    Some(rest_upper) => {
                        assert(upper.drop_first() =~= rest_upper);
                        assert(upper[0] == prefix[0]);
                    },
                    None => {
                        assert(upper[0] == prefix[0] + 1);
                        assert(upper.drop_first() =~= Seq::<u8>::empty());
                    },
                }
            }
        }
    }
}

/// A key that a resume point precedes is not below the start of the range that
/// the resume point lies in.
proof fn lemma_precedes_transitive(low: Seq<u8>, middle: Seq<u8>, high: Seq<u8>)
    requires
        !key_precedes(middle, low),
        key_precedes(middle, high),
    ensures
        !key_precedes(high, low),
    decreases low.len(),
{
    if low.len() > 0 {
        assert(middle.len() > 0);
        assert(high.len() > 0);
        if middle[0] == low[0] && middle[0] == high[0] {
            lemma_precedes_transitive(low.drop_first(), middle.drop_first(), high.drop_first());
        }
    }
}

/// The scan of a stage visits exactly the rows of its keyspace that come after
/// the last committed one.
pub proof fn law_scan_visits_exactly_the_remaining_rows(
    prefix: Seq<u8>,
    resume_after: Option<Seq<u8>>,
    start: ScanBound,
    end: ScanBound,
    key: Seq<u8>,
)
    requires
        resume_after matches Some(resume) ==> prefix.is_prefix_of(resume),
        match resume_after {
            Some(resume) => start matches ScanBound::Excluded(bound) && bound@ == resume,
            None => start matches ScanBound::Included(bound) && bound@ == prefix,
        },
        match prefix_upper(prefix) {
            Some(upper) => end matches ScanBound::Excluded(bound) && bound@ == upper,
            None => end is Unbounded,
        },
    ensures
        (start.admits_above(key) && end.admits_below(key)) <==> (prefix.is_prefix_of(key) && (
        resume_after matches Some(resume) ==> key_precedes(resume, key))),
{
    law_prefix_is_a_key_range(prefix, key);
    if let Some(resume) = resume_after {
        law_prefix_is_a_key_range(prefix, resume);
        if key_precedes(resume, key) {
            lemma_precedes_transitive(prefix, resume, key);
        }
    }
}

/// The jobs of one scope have different keys, and all of them start with the
/// scan prefix of that scope.
pub proof fn law_job_keys_are_distinct(scope_prefix: Seq<u8>, left: MigrationId, right: MigrationId)
    ensures
        job_key(scope_prefix, left) == job_key(scope_prefix, right) ==> left == right,
        metadata_key(scope_prefix, job_prefix_name()).is_prefix_of(job_key(scope_prefix, left)),
{
    let scan = metadata_key(scope_prefix, job_prefix_name());
    let left_name = vstd::utf8::encode_utf8(left.name());
    let right_name = vstd::utf8::encode_utf8(right.name());
    assert(job_key(scope_prefix, left) =~= scan + left_name);
    assert(job_key(scope_prefix, right) =~= scan + right_name);
    assert(scan =~= (scan + left_name).subrange(0, scan.len() as int));
    if scan + left_name == scan + right_name {
        assert(left_name =~= (scan + left_name).subrange(
            scan.len() as int,
            (scan + left_name).len() as int,
        ));
        assert(right_name =~= (scan + right_name).subrange(
            scan.len() as int,
            (scan + right_name).len() as int,
        ));
        lemma_names_are_distinct(left, right);
    }
}

proof fn lemma_names_are_distinct(left: MigrationId, right: MigrationId)
    requires
        vstd::utf8::encode_utf8(left.name()) == vstd::utf8::encode_utf8(right.name()),
    ensures
        left == right,
{
    reveal_strlit("graph_format_v1_rewrite");
    reveal_strlit("legacy_vector_property_materialization");
    reveal_strlit("legacy_vector_physical_cleanup");
    reveal_strlit("graph_format_v1_cleanup");
    vstd::utf8::is_ascii_chars_encode_utf8(left.name());
    vstd::utf8::is_ascii_chars_encode_utf8(right.name());
    let left_bytes = vstd::utf8::encode_utf8(left.name());
    let right_bytes = vstd::utf8::encode_utf8(right.name());
    assert(left_bytes.len() == left.name().len());
    assert(right_bytes.len() == right.name().len());
    if left.name().len() == 23 && right.name().len() == 23 {
        assert(left_bytes[16] == right_bytes[16]);
    }
}

/// The jobs of a scope cannot be taken for jobs of another scope whose prefix is
/// as long.
pub proof fn law_job_keys_are_scoped(left: Seq<u8>, right: Seq<u8>, id: MigrationId)
    requires
        left.len() == right.len(),
        left != right,
    ensures
        job_key(left, id) != job_key(right, id),
        !metadata_key(right, job_prefix_name()).is_prefix_of(job_key(left, id)),
{
    let scan = metadata_key(right, job_prefix_name());
    let key = job_key(left, id);
    assert(key.subrange(0, left.len() as int) =~= left);
    assert(job_key(right, id).subrange(0, right.len() as int) =~= right);
    if scan.is_prefix_of(key) {
        assert(scan.subrange(0, right.len() as int) =~= right);
        assert(key.subrange(0, scan.len() as int).subrange(0, right.len() as int)
            =~= key.subrange(0, right.len() as int));
    }
}

/// Keys are ordered by their first different byte.
pub proof fn law_keys_are_ordered_by_the_first_difference(
    start: Seq<u8>,
    left: u8,
    right: u8,
    left_rest: Seq<u8>,
    right_rest: Seq<u8>,
)
    requires
        left < right,
    ensures
        key_precedes(start + seq![left] + left_rest, start + seq![right] + right_rest),
        !key_precedes(start + seq![right] + right_rest, start + seq![left] + left_rest),
    decreases start.len(),
{
    let low = start + seq![left] + left_rest;
    let high = start + seq![right] + right_rest;
    if start.len() > 0 {
        let rest = start.drop_first();
        law_keys_are_ordered_by_the_first_difference(rest, left, right, left_rest, right_rest);
        assert(low.drop_first() =~= rest + seq![left] + left_rest);
        assert(high.drop_first() =~= rest + seq![right] + right_rest);
        assert(low[0] == start[0] && high[0] == start[0]);
    } else {
        assert(low[0] == left && high[0] == right);
    }
}

/// A key comes before every longer key that starts with it, and no key before itself.
pub proof fn law_keys_come_before_their_extensions(key: Seq<u8>, more: Seq<u8>)
    ensures
        key_precedes(key, key + more) <==> more.len() > 0,
        !key_precedes(key + more, key),
    decreases key.len(),
{
    let longer = key + more;
    if key.len() > 0 {
        law_keys_come_before_their_extensions(key.drop_first(), more);
        assert(longer.drop_first() =~= key.drop_first() + more);
        assert(longer[0] == key[0]);
    }
}

/// A metadata key is its scope, one byte of ones, and its name.
pub proof fn law_metadata_keys_hold_scope_and_name(scope_prefix: Seq<u8>, name: Seq<u8>)
    ensures
        metadata_key(scope_prefix, name).len() == scope_prefix.len() + 1 + name.len(),
        metadata_key(scope_prefix, name)[scope_prefix.len() as int] == 0xFF,
        metadata_key(scope_prefix, name).take(scope_prefix.len() as int) == scope_prefix,
        metadata_key(scope_prefix, name).skip(scope_prefix.len() as int + 1) == name,
{
    let key = metadata_key(scope_prefix, name);
    assert(key.take(scope_prefix.len() as int) =~= scope_prefix);
    assert(key.skip(scope_prefix.len() as int + 1) =~= name);
}

/// The name of a job in its key is its own name behind the one that all jobs share.
pub proof fn law_job_keys_hold_the_name(scope_prefix: Seq<u8>, id: MigrationId)
    ensures
        job_key(scope_prefix, id) == scope_prefix + seq![0xFFu8] + vstd::utf8::encode_utf8(
            "kv_migration_job:"@,
        ) + vstd::utf8::encode_utf8(id.name()),
{
    assert(job_key(scope_prefix, id) =~= scope_prefix + seq![0xFFu8] + vstd::utf8::encode_utf8(
        "kv_migration_job:"@,
    ) + vstd::utf8::encode_utf8(id.name()));
}

/// A bound that is included admits its own key, one that is excluded does not, and an open
/// end admits every key.
pub proof fn law_bounds_admit_their_own_side(bound: Vec<u8>, key: Seq<u8>)
    ensures
        ScanBound::Included(bound).admits_above(key) <==> !key_precedes(key, bound@),
        ScanBound::Included(bound).admits_below(key) <==> !key_precedes(bound@, key),
        ScanBound::Excluded(bound).admits_above(key) <==> key_precedes(bound@, key),
        ScanBound::Excluded(bound).admits_below(key) <==> key_precedes(key, bound@),
        ScanBound::Unbounded.admits_above(key) && ScanBound::Unbounded.admits_below(key),
        ScanBound::Included(bound).admits_above(bound@) && ScanBound::Included(bound).admits_below(
            bound@,
        ),
        !ScanBound::Excluded(bound).admits_above(bound@) && !ScanBound::Excluded(
            bound,
        ).admits_below(bound@),
{
    law_keys_come_before_their_extensions(bound@, Seq::empty());
    assert(bound@ + Seq::<u8>::empty() =~= bound@);
}

} // verus!
