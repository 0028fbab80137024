//! Digest of the physical rows of a vector namespace.
use vstd::prelude::*;

verus! {

/// What a physical row of a vector namespace holds.
#[derive(Debug, Clone, Copy, PartialEq, Eq, Structural)]
pub enum VectorRowKind {
    /// Metadata of the index, which an adoption rewrites.
    IndexMetadata,
    /// Directory of the hash layout, which is derived.
    SimHashDirectory,
    /// A vector, its hash or its links.
    Graph,
}

/// One physical row of a vector namespace.
#[derive(Debug)]
pub struct VectorRow {
    pub kind: VectorRowKind,
    pub key: Vec<u8>,
    pub value: Vec<u8>,
}

/// Key and value of each row that the digest covers, in scan order.
pub open spec fn covered(rows: Seq<VectorRow>) -> Seq<(Seq<u8>, Seq<u8>)>
    decreases rows.len(),
{
    if rows.len() == 0 {
        Seq::empty()
    } else if rows.last().kind is Graph {
        covered(rows.drop_last()).push((rows.last().key@, rows.last().value@))
    } else {
        covered(rows.drop_last())
    }
}

/// The bytes of one row: both of its parts behind their lengths.
#[verifier::opaque]
pub open spec fn row_frame(row: (Seq<u8>, Seq<u8>)) -> Seq<u8> {
    super::edges::be_bytes(row.0.len() as u64) + row.0 + super::edges::be_bytes(
        row.1.len() as u64,
    ) + row.1
}

/// The bytes of all rows.
pub open spec fn framed(rows: Seq<(Seq<u8>, Seq<u8>)>) -> Seq<u8>
    decreases rows.len(),
{
    if rows.len() == 0 {
        Seq::empty()
    } else {
        row_frame(rows[0]) + framed(rows.drop_first())
    }
}

proof fn lemma_joined_in_turn(first: Seq<u8>, second: Seq<u8>, third: Seq<u8>)
    ensures
        first + (second + third) == first + second + third,
{
    assert(first + (second + third) =~= first + second + third);
}

proof fn lemma_framed_push(rows: Seq<(Seq<u8>, Seq<u8>)>, row: (Seq<u8>, Seq<u8>))
    ensures
        framed(rows.push(row)) == framed(rows) + row_frame(row),
    decreases rows.len(),
{
    let all = rows.push(row);
    if rows.len() == 0 {
        assert(all.drop_first() =~= Seq::empty());
        assert(framed(all.drop_first()) =~= Seq::empty());
        assert(framed(all) =~= framed(rows) + row_frame(row));
    } else {
        assert(all.drop_first() =~= rows.drop_first().push(row));
        lemma_framed_push(rows.drop_first(), row);
        lemma_joined_in_turn(row_frame(rows[0]), framed(rows.drop_first()), row_frame(row));
    }
}

/// The SHA-256 digest of bytes.
pub uninterp spec fn sha256(bytes: Seq<u8>) -> Seq<u8>;

/// `sha2::Sha256::digest`: a function of the bytes alone that gives 32 bytes.
#[verifier::external_body]
fn sha256_digest(bytes: &[u8]) -> (digest: Vec<u8>)
    ensures
        digest@ == sha256(bytes@),
        digest@.len() == 32,
{
    <sha2::Sha256 as sha2::Digest>::digest(bytes).to_vec()
}

fn append_number(bytes: &mut Vec<u8>, value: u64)
    ensures
        final(bytes)@ == old(bytes)@ + super::edges::be_bytes(value),
{
    bytes.push((value / 0x100_0000_0000_0000) as u8);
    bytes.push((value / 0x1_0000_0000_0000 % 256) as u8);
    bytes.push((value / 0x100_0000_0000 % 256) as u8);
    bytes.push((value / 0x1_0000_0000 % 256) as u8);
    bytes.push((value / 0x100_0000 % 256) as u8);
    bytes.push((value / 0x1_0000 % 256) as u8);
    bytes.push((value / 0x100 % 256) as u8);
    bytes.push((value % 256) as u8);
    assert(bytes@ =~= old(bytes)@ + super::edges::be_bytes(value));
}

fn append_row(bytes: &mut Vec<u8>, row: &VectorRow)
    ensures
        final(bytes)@ == old(bytes)@ + row_frame((row.key@, row.value@)),
{
    proof {
        reveal(row_frame);
    }
    append_number(bytes, row.key.len() as u64);
    bytes.extend_from_slice(row.key.as_slice());
    append_number(bytes, row.value.len() as u64);
    bytes.extend_from_slice(row.value.as_slice());
    assert(bytes@ =~= old(bytes)@ + row_frame((row.key@, row.value@)));
}

/// Writes the bytes that the digest is taken of.
pub fn frame_rows(rows: &Vec<VectorRow>) -> (bytes: Vec<u8>)
    ensures
        bytes@ == framed(covered(rows@)),
{
    let mut bytes: Vec<u8> = Vec::new();
    let mut position: usize = 0;
    assert(rows@.take(0) =~= Seq::empty());
    while position < rows.len()
        invariant
            position <= rows.len(),
            bytes@ == framed(covered(rows@.take(position as int))),
        decreases rows.len() - position,
    {
        let row = &rows[position];
        let ghost before = rows@.take(position as int);
        proof {
            let after = rows@.take(position + 1);
            assert(after.drop_last() =~= before);
            assert(after.last() == *row);
            lemma_framed_push(covered(before), (row.key@, row.value@));
        }
        match row.kind {
            VectorRowKind::Graph => {
                append_row(&mut bytes, row);
            },
            VectorRowKind::IndexMetadata | VectorRowKind::SimHashDirectory => {},
        }
        position = position + 1;
    }
    assert(rows@.take(rows@.len() as int) =~= rows@);
    bytes
}

/// Digest of every row of a namespace that an adoption leaves as it is.
pub fn non_metadata_vector_digest(rows: &Vec<VectorRow>) -> (digest: Vec<u8>)
    ensures
        digest@ == sha256(framed(covered(rows@))),
        digest@.len() == 32,
{
    let bytes = frame_rows(rows);
    sha256_digest(bytes.as_slice())
}

/// Whether the lengths of a row fit in its frame.
pub open spec fn fits(row: (Seq<u8>, Seq<u8>)) -> bool {
    row.0.len() <= u64::MAX && row.1.len() <= u64::MAX
}

proof fn lemma_same_number(left: u64, right: u64)
    requires
        super::edges::be_bytes(left) == super::edges::be_bytes(right),
    ensures
        left == right,
{
    super::edges::law_big_endian_round_trip(left);
    super::edges::law_big_endian_round_trip(right);
}

/// Two parts behind numbers of eight bytes each.
spec fn parts(
    first_number: Seq<u8>,
    first: Seq<u8>,
    second_number: Seq<u8>,
    second: Seq<u8>,
    rest: Seq<u8>,
) -> Seq<u8> {
    first_number + first + second_number + second + rest
}

proof fn lemma_take_parts(
    first_number: Seq<u8>,
    first: Seq<u8>,
    second_number: Seq<u8>,
    second: Seq<u8>,
    rest: Seq<u8>,
)
    requires
        first_number.len() == 8,
        second_number.len() == 8,
    ensures
        ({
            let all = parts(first_number, first, second_number, second, rest);
            let at = 8 + first.len() as int;
            let end = at + 8 + second.len() as int;
            &&& all.len() == end + rest.len()
            &&& all.subrange(0, 8) == first_number
            &&& all.subrange(8, at) == first
            &&& all.subrange(at, at + 8) == second_number
            &&& all.subrange(at + 8, end) == second
            &&& all.subrange(end, all.len() as int) == rest
        }),
{
    let all = parts(first_number, first, second_number, second, rest);
    let at = 8 + first.len() as int;
    let end = at + 8 + second.len() as int;
    assert(all.subrange(0, 8) =~= first_number);
    assert(all.subrange(8, at) =~= first);
    assert(all.subrange(at, at + 8) =~= second_number);
    assert(all.subrange(at + 8, end) =~= second);
    assert(all.subrange(end, all.len() as int) =~= rest);
}

proof fn lemma_number_length(value: u64)
    ensures
        super::edges::be_bytes(value).len() == 8,
{
}

proof fn lemma_first_frame(
    left: (Seq<u8>, Seq<u8>),
    left_rest: Seq<u8>,
    right: (Seq<u8>, Seq<u8>),
    right_rest: Seq<u8>,
)
    requires
        fits(left),
        fits(right),
        row_frame(left) + left_rest == row_frame(right) + right_rest,
    ensures
        left == right,
        left_rest == right_rest,
{
    reveal(row_frame);
    let left_key = super::edges::be_bytes(left.0.len() as u64);
    let right_key = super::edges::be_bytes(right.0.len() as u64);
    let left_value = super::edges::be_bytes(left.1.len() as u64);
    let right_value = super::edges::be_bytes(right.1.len() as u64);
    lemma_number_length(left.0.len() as u64);
    lemma_number_length(right.0.len() as u64);
    lemma_number_length(left.1.len() as u64);
    lemma_number_length(right.1.len() as u64);
    lemma_take_parts(left_key, left.0, left_value, left.1, left_rest);
    lemma_take_parts(right_key, right.0, right_value, right.1, right_rest);
    lemma_same_number(left.0.len() as u64, right.0.len() as u64);
    lemma_same_number(left.1.len() as u64, right.1.len() as u64);
}

proof fn lemma_frame_is_not_empty(rows: Seq<(Seq<u8>, Seq<u8>)>)
    requires
        rows.len() > 0,
    ensures
        framed(rows).len() > 0,
{
    reveal(row_frame);
    lemma_number_length(rows[0].0.len() as u64);
}

/// Different rows are never framed alike, so equal digests of different rows would be a
/// collision of the digest itself.
pub proof fn law_frames_identify_rows(
    left: Seq<(Seq<u8>, Seq<u8>)>,
    right: Seq<(Seq<u8>, Seq<u8>)>,
)
    requires
        forall|i: int| 0 <= i < left.len() ==> fits(#[trigger] left[i]),
        forall|i: int| 0 <= i < right.len() ==> fits(#[trigger] right[i]),
        framed(left) == framed(right),
    ensures
        left == right,
    decreases left.len(),
{
    if left.len() == 0 {
        if right.len() > 0 {
            lemma_frame_is_not_empty(right);
        }
        assert(left =~= right);
    } else if right.len() == 0 {
        lemma_frame_is_not_empty(left);
    } else {
        lemma_first_frame(
            left[0],
            framed(left.drop_first()),
            right[0],
            framed(right.drop_first()),
        );
        law_frames_identify_rows(left.drop_first(), right.drop_first());
        assert forall|i: int| 0 <= i < left.len() implies left[i] == right[i] by {
            if i > 0 {
                assert(left.drop_first()[i - 1] == right.drop_first()[i - 1]);
            }
        }
        assert(left =~= right);
    }
}

/// The digest covers the graph rows and no others, in the order of the scan.
pub proof fn law_the_digest_covers_graph_rows(rows: Seq<VectorRow>)
    ensures
        covered(rows) == rows.filter(|row: VectorRow| row.kind is Graph).map_values(
            |row: VectorRow| (row.key@, row.value@),
        ),
    decreases rows.len(),
{
    reveal(Seq::filter);
    let is_graph = |row: VectorRow| row.kind is Graph;
    let parts_of = |row: VectorRow| (row.key@, row.value@);
    if rows.len() > 0 {
        let before = rows.drop_last();
        law_the_digest_covers_graph_rows(before);
        if rows.last().kind is Graph {
            assert(rows.filter(is_graph) == before.filter(is_graph).push(rows.last()));
            assert(before.filter(is_graph).push(rows.last()).map_values(parts_of)
                =~= before.filter(is_graph).map_values(parts_of).push(parts_of(rows.last())));
        }
    } else {
        assert(rows.filter(is_graph).map_values(parts_of) =~= Seq::empty());
    }
}

/// A row is framed as the length of its key, its key, the length of its value and its value,
/// each length in eight bytes, and rows follow one another.
pub proof fn law_frames_hold_lengths_and_parts(
    row: (Seq<u8>, Seq<u8>),
    rest: Seq<(Seq<u8>, Seq<u8>)>,
)
    requires
        row.0.len() <= u64::MAX,
        row.1.len() <= u64::MAX,
    ensures
        framed(seq![row] + rest) == super::edges::be_bytes(row.0.len() as u64) + row.0
            + super::edges::be_bytes(row.1.len() as u64) + row.1 + framed(rest),
        framed(Seq::empty()) == Seq::<u8>::empty(),
{
    reveal(row_frame);
    let all = seq![row] + rest;
    assert(all[0] == row);
    assert(all.drop_first() =~= rest);
}

} // verus!
