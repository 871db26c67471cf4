use vstd::prelude::*;

use crate::errors::EmbeddingError;
use crate::tokens::TokenSequence;

verus! {

/// Three parallel dense grids of shape (batch_size x max_len), one row per
/// input text, right-padded with the sentinel value 0. The model invocation
/// collaborator consumes all three together.
pub struct Batch {
    pub input_ids: Vec<Vec<i64>>,
    pub attention_mask: Vec<Vec<i64>>,
    pub token_type_ids: Vec<Vec<i64>>,
    pub batch_size: usize,
    pub max_len: usize,
}

/// Length of the longest sequence in the list (0 for an empty list).
pub open spec fn max_raw_len(seqs: Seq<TokenSequence>) -> nat
    decreases seqs.len(),
{
    if seqs.len() == 0 {
        0
    } else {
        let rest = max_raw_len(seqs.drop_last());
        let last = seqs.last().len_spec();
        if last > rest {
            last
        } else {
            rest
        }
    }
}

/// The batch's common width: the longest sequence, capped at the configured
/// maximum sequence length.
pub open spec fn batch_width(seqs: Seq<TokenSequence>, cap: nat) -> nat {
    if max_raw_len(seqs) > cap {
        cap
    } else {
        max_raw_len(seqs)
    }
}

/// The value a padded row holds at position `c`: the row's own entry while
/// `c` is inside both the row and the batch width, and the padding sentinel 0
/// beyond it.
pub open spec fn padded_cell(row: Seq<u32>, width: nat, c: int) -> i64 {
    if 0 <= c < row.len() && c < width {
        row[c] as i64
    } else {
        0
    }
}

/// One grid row: the first min(len, width) entries of `row` in original
/// order — later entries are silently dropped — then 0 up to exactly `width`.
pub open spec fn padded_row(row: Seq<u32>, width: nat) -> Seq<i64> {
    Seq::new(width, |c: int| padded_cell(row, width, c))
}

impl Batch {
    /// All three grids hold exactly batch_size rows of exactly max_len
    /// entries each.
    pub open spec fn wf(self) -> bool {
        &&& self.input_ids@.len() == self.batch_size
        &&& self.attention_mask@.len() == self.batch_size
        &&& self.token_type_ids@.len() == self.batch_size
        &&& forall|r: int|
            0 <= r < self.batch_size ==> (#[trigger] self.input_ids@[r])@.len() == self.max_len
        &&& forall|r: int|
            0 <= r < self.batch_size ==> (#[trigger] self.attention_mask@[r])@.len()
                == self.max_len
        &&& forall|r: int|
            0 <= r < self.batch_size ==> (#[trigger] self.token_type_ids@[r])@.len()
                == self.max_len
    }
}

/// `b` is precisely the batch that laying out `seqs` under cap `cap` must
/// produce: right shape, width = min(longest, cap), every row its sequence's
/// own tokens while they last and the padding sentinel 0 beyond them, in all
/// three grids alike.
pub open spec fn batch_of(b: Batch, seqs: Seq<TokenSequence>, cap: nat) -> bool {
    &&& b.batch_size == seqs.len()
    &&& b.max_len == batch_width(seqs, cap)
    &&& b.wf()
    &&& forall|r: int|
        0 <= r < seqs.len() ==> (#[trigger] b.input_ids@[r])@ == padded_row(
            seqs[r].ids@,
            b.max_len as nat,
        )
    &&& forall|r: int|
        0 <= r < seqs.len() ==> (#[trigger] b.attention_mask@[r])@ == padded_row(
            seqs[r].attention_mask@,
            b.max_len as nat,
        )
    &&& forall|r: int|
        0 <= r < seqs.len() ==> (#[trigger] b.token_type_ids@[r])@ == padded_row(
            seqs[r].type_ids@,
            b.max_len as nat,
        )
}

/// Copy the first min(len, width) values of `vals` in order, widened to i64,
/// then pad with 0 to exactly `width` entries.
#[verifier::loop_isolation(false)]
fn pad_row(vals: &Vec<u32>, width: usize) -> (r: Vec<i64>)
    ensures
        r@ == padded_row(vals@, width as nat),
{
    let mut row: Vec<i64> = Vec::new();
    for c in 0..width
        invariant
            row@.len() == c,
            forall|cc: int| 0 <= cc < c ==> row@[cc] == padded_cell(vals@, width as nat, cc),
    {
        if c < vals.len() {
            row.push(vals[c] as i64);
        } else {
            row.push(0);
        }
    }
    proof {
        assert(row@ =~= padded_row(vals@, width as nat));
    }
    row
}

/// Lay N token sequences into three same-shaped grids: the width is the
/// longest sequence capped at `cap`, longer sequences are silently truncated,
/// shorter rows are right-padded with 0 in all three grids. Fails with
/// `ShapeMismatch` exactly when some sequence's id, mask and segment lists
/// disagree in length, carrying the first such index.
#[verifier::loop_isolation(false)]
pub fn build_batch(seqs: &Vec<TokenSequence>, cap: usize) -> (r: Result<
    Batch,
    EmbeddingError,
>)
    ensures
        match r {
            Ok(b) => {
                &&& batch_of(b, seqs@, cap as nat)
                &&& forall|i: int| 0 <= i < seqs@.len() ==> (#[trigger] seqs@[i]).wf()
            },
            Err(e) => match e {
                EmbeddingError::ShapeMismatch(i) => {
                    &&& 0 <= i < seqs@.len()
                    &&& !seqs@[i as int].wf()
                    &&& forall|j: int| 0 <= j < i ==> (#[trigger] seqs@[j]).wf()
                },
                _ => false,
            },
        },
{
    let n = seqs.len();

    // Reject any sequence whose parallel lists disagree: an invariant
    // violation from the tokenization adapter, never silently corrected.
    for i in 0..n
        invariant
            forall|j: int| 0 <= j < i ==> (#[trigger] seqs@[j]).wf(),
    {
        let s = &seqs[i];
        if s.attention_mask.len() != s.ids.len() || s.type_ids.len() != s.ids.len() {
            return Err(EmbeddingError::ShapeMismatch(i));
        }
    }

    // Longest sequence in the batch.
    let mut longest: usize = 0;
    for i in 0..n
        invariant
            longest == max_raw_len(seqs@.take(i as int)),
    {
        let l = seqs[i].ids.len();
        if l > longest {
            longest = l;
        }
        proof {
            assert(seqs@.take(i + 1).drop_last() =~= seqs@.take(i as int));
            assert(seqs@.take(i + 1).last() == seqs@[i as int]);
        }
    }
    proof {
        assert(seqs@.take(n as int) =~= seqs@);
    }

    let width: usize = if longest > cap {
        cap
    } else {
        longest
    };

    let mut input_ids: Vec<Vec<i64>> = Vec::new();
    let mut attention_mask: Vec<Vec<i64>> = Vec::new();
    let mut token_type_ids: Vec<Vec<i64>> = Vec::new();

    for row in 0..n
        invariant
            width as nat == batch_width(seqs@, cap as nat),
            input_ids@.len() == row,
            attention_mask@.len() == row,
            token_type_ids@.len() == row,
            forall|rr: int|
                0 <= rr < row ==> (#[trigger] input_ids@[rr])@ == padded_row(
                    seqs@[rr].ids@,
                    width as nat,
                ),
            forall|rr: int|
                0 <= rr < row ==> (#[trigger] attention_mask@[rr])@ == padded_row(
                    seqs@[rr].attention_mask@,
                    width as nat,
                ),
            forall|rr: int|
                0 <= rr < row ==> (#[trigger] token_type_ids@[rr])@ == padded_row(
                    seqs@[rr].type_ids@,
                    width as nat,
                ),
    {
        let s = &seqs[row];
        let row_ids = pad_row(&s.ids, width);
        let row_mask = pad_row(&s.attention_mask, width);
        let row_types = pad_row(&s.type_ids, width);
        input_ids.push(row_ids);
        attention_mask.push(row_mask);
        token_type_ids.push(row_types);
        proof {
            assert((input_ids@[row as int])@ == padded_row(seqs@[row as int].ids@, width as nat));
            assert((attention_mask@[row as int])@ == padded_row(
                seqs@[row as int].attention_mask@,
                width as nat,
            ));
            assert((token_type_ids@[row as int])@ == padded_row(
                seqs@[row as int].type_ids@,
                width as nat,
            ));
        }
    }

    let b = Batch { input_ids, attention_mask, token_type_ids, batch_size: n, max_len: width };
    Ok(b)
}

/// A grid's rows laid end to end in row-major order — the layout the model
/// invocation collaborator's tensor constructor consumes.
pub open spec fn flat_of(rows: Seq<Vec<i64>>) -> Seq<i64>
    decreases rows.len(),
{
    if rows.len() == 0 {
        Seq::empty()
    } else {
        flat_of(rows.drop_last()) + rows.last()@
    }
}

/// Lay a grid's rows end to end, first row first, each row in original
/// order: the row-major flattening the tensor constructor expects.
#[verifier::loop_isolation(false)]
pub fn flatten_grid(grid: &Vec<Vec<i64>>) -> (r: Vec<i64>)
    ensures
        r@ == flat_of(grid@),
{
    let mut out: Vec<i64> = Vec::new();
    let n = grid.len();
    for i in 0..n
        invariant
            out@ == flat_of(grid@.take(i as int)),
    {
        let row = &grid[i];
        let m = row.len();
        for c in 0..m
            invariant
                out@ == flat_of(grid@.take(i as int)) + row@.take(c as int),
        {
            out.push(row[c]);
            proof {
                assert(flat_of(grid@.take(i as int)) + row@.take(c + 1) =~= (flat_of(
                    grid@.take(i as int),
                ) + row@.take(c as int)).push(row@[c as int]));
            }
        }
        proof {
            assert(grid@.take(i + 1).drop_last() =~= grid@.take(i as int));
            assert(grid@.take(i + 1).last() == grid@[i as int]);
            assert(row@.take(m as int) =~= row@);
        }
    }
    proof {
        assert(grid@.take(n as int) =~= grid@);
    }
    out
}

/// How many positions of a mask row hold the flag 1 — the number of real
/// tokens, and the divisor mean pooling weighs each of them by.
pub open spec fn count_ones(s: Seq<i64>) -> nat
    decreases s.len(),
{
    if s.len() == 0 {
        0
    } else {
        count_ones(s.drop_last()) + if s.last() == 1 {
            1nat
        } else {
            0nat
        }
    }
}

/// Per-row count of real-token positions (mask flag 1). A count of zero
/// marks a degenerate all-padding row, whose mean-pooling divisor must be
/// clamped rather than divided by.
#[verifier::loop_isolation(false)]
pub fn row_token_counts(b: &Batch) -> (r: Vec<usize>)
    requires
        b.wf(),
    ensures
        r@.len() == b.batch_size,
        forall|i: int|
            0 <= i < b.batch_size ==> r@[i] == count_ones((#[trigger] b.attention_mask@[i])@),
{
    let mut counts: Vec<usize> = Vec::new();
    let n = b.attention_mask.len();
    for i in 0..n
        invariant
            counts@.len() == i,
            forall|j: int|
                0 <= j < i ==> counts@[j] == count_ones((#[trigger] b.attention_mask@[j])@),
    {
        let row = &b.attention_mask[i];
        let m = row.len();
        let mut cnt: usize = 0;
        for c in 0..m
            invariant
                cnt <= c,
                cnt == count_ones(row@.take(c as int)),
        {
            if row[c] == 1 {
                cnt = cnt + 1;
            }
            proof {
                assert(row@.take(c + 1).drop_last() =~= row@.take(c as int));
                assert(row@.take(c + 1).last() == row@[c as int]);
            }
        }
        proof {
            assert(row@.take(m as int) =~= row@);
        }
        counts.push(cnt);
    }
    counts
}

/// Zero entries at a row's tail never change its count of ones: padding
/// positions are invisible to the mean-pooling divisor.
pub proof fn lemma_count_ones_ignores_zero_tail(s: Seq<i64>, k: int)
    requires
        0 <= k <= s.len(),
        forall|c: int| k <= c < s.len() ==> #[trigger] s[c] == 0,
    ensures
        count_ones(s) == count_ones(s.take(k)),
    decreases s.len(),
{
    if s.len() == k {
        assert(s.take(k) =~= s);
    } else {
        assert(s.last() == s[s.len() - 1]);
        lemma_count_ones_ignores_zero_tail(s.drop_last(), k);
        assert(s.drop_last().take(k) =~= s.take(k));
    }
}

/// Determinism within one batch: two texts whose token sequences are
/// identical occupy bit-for-bit identical rows in all three grids, so the
/// model and the pooling stages see identical inputs for them.
pub proof fn lemma_duplicate_rows_equal(
    b: Batch,
    seqs: Seq<TokenSequence>,
    cap: nat,
    i: int,
    j: int,
)
    requires
        batch_of(b, seqs, cap),
        0 <= i < seqs.len(),
        0 <= j < seqs.len(),
        seqs[i] == seqs[j],
    ensures
        b.input_ids@[i]@ == b.input_ids@[j]@,
        b.attention_mask@[i]@ == b.attention_mask@[j]@,
        b.token_type_ids@[i]@ == b.token_type_ids@[j]@,
{
}

/// Padding invariance: once a batch is wide enough to hold a sequence whole,
/// the row it occupies does not depend on its batch companions — its real
/// tokens stand unchanged, everything beyond them is the 0 sentinel in grids
/// and mask alike, and the count of real-token positions is the same in both
/// batches. Mean pooling over such rows is therefore unaffected by how much
/// padding a longer companion forces.
pub proof fn lemma_padding_invariance(
    b1: Batch,
    seqs1: Seq<TokenSequence>,
    b2: Batch,
    seqs2: Seq<TokenSequence>,
    cap: nat,
    i: int,
    j: int,
)
    requires
        batch_of(b1, seqs1, cap),
        batch_of(b2, seqs2, cap),
        0 <= i < seqs1.len(),
        0 <= j < seqs2.len(),
        seqs1[i] == seqs2[j],
        seqs1[i].wf(),
        seqs1[i].len_spec() <= b1.max_len,
        seqs1[i].len_spec() <= b2.max_len,
    ensures
        forall|c: int|
            0 <= c < seqs1[i].len_spec() ==> {
                &&& #[trigger] b1.input_ids@[i]@[c] == b2.input_ids@[j]@[c]
                &&& b1.attention_mask@[i]@[c] == b2.attention_mask@[j]@[c]
                &&& b1.token_type_ids@[i]@[c] == b2.token_type_ids@[j]@[c]
            },
        forall|c: int|
            seqs1[i].len_spec() <= c < b1.max_len ==> {
                &&& #[trigger] b1.input_ids@[i]@[c] == 0
                &&& b1.attention_mask@[i]@[c] == 0
                &&& b1.token_type_ids@[i]@[c] == 0
            },
        forall|c: int|
            seqs2[j].len_spec() <= c < b2.max_len ==> {
                &&& #[trigger] b2.input_ids@[j]@[c] == 0
                &&& b2.attention_mask@[j]@[c] == 0
                &&& b2.token_type_ids@[j]@[c] == 0
            },
        count_ones(b1.attention_mask@[i]@) == count_ones(b2.attention_mask@[j]@),
{
    let len = seqs1[i].len_spec() as int;
    let m1 = b1.attention_mask@[i]@;
    let m2 = b2.attention_mask@[j]@;
    assert forall|c: int| len <= c < m1.len() implies #[trigger] m1[c] == 0 by {}
    assert forall|c: int| len <= c < m2.len() implies #[trigger] m2[c] == 0 by {}
    lemma_count_ones_ignores_zero_tail(m1, len);
    lemma_count_ones_ignores_zero_tail(m2, len);
    assert(m1.take(len) =~= m2.take(len));
}

/// Truncation: a sequence at least as wide as the batch fills its row with
/// exactly the first max_len of its tokens — in original order, with nothing
/// padded — in all three grids, so an over-long sequence can never cause a
/// shape error downstream.
pub proof fn lemma_truncation(b: Batch, seqs: Seq<TokenSequence>, cap: nat, i: int)
    requires
        batch_of(b, seqs, cap),
        0 <= i < seqs.len(),
        seqs[i].wf(),
        seqs[i].len_spec() >= b.max_len,
    ensures
        forall|c: int|
            0 <= c < b.max_len ==> {
                &&& #[trigger] b.input_ids@[i]@[c] == seqs[i].ids@[c] as i64
                &&& b.attention_mask@[i]@[c] == seqs[i].attention_mask@[c] as i64
                &&& b.token_type_ids@[i]@[c] == seqs[i].type_ids@[c] as i64
            },
{
}

} // verus!
