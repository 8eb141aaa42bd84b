//! Accuracy scoring for classification labels.
//!
//! The scorer compares two ordered sequences of unsigned integer labels
//! position by position and reports how many positions agree, together
//! with the total number of expected labels. Pairing stops at the length
//! of the shorter sequence; the divisor is always the number of expected
//! labels, so unpaired expected positions count as misses.

use vstd::prelude::*;

verus! {

/// The number of positions that are compared: the length of the shorter
/// of the two sequences.
pub open spec fn paired_len(expected: Seq<u32>, predicted: Seq<u32>) -> nat {
    if expected.len() <= predicted.len() {
        expected.len()
    } else {
        predicted.len()
    }
}

/// The number of positions `i < n` where `expected[i] == predicted[i]`.
pub open spec fn match_count_upto(expected: Seq<u32>, predicted: Seq<u32>, n: int) -> nat
    decreases n,
{
    if n <= 0 {
        0
    } else {
        match_count_upto(expected, predicted, n - 1) + (if expected[n - 1] == predicted[n - 1] {
            1nat
        } else {
            0nat
        })
    }
}

/// The number of paired positions where the two sequences agree.
pub open spec fn match_count(expected: Seq<u32>, predicted: Seq<u32>) -> nat {
    match_count_upto(expected, predicted, paired_len(expected, predicted) as int)
}

/// The single failure kind: the expected sequence was empty, so the
/// accuracy ratio has no defined divisor.
#[derive(Clone, Copy, Debug, PartialEq, Eq, Structural)]
pub enum AccuracyError {
    InvalidInput,
}

/// An accuracy score as an exact ratio: `matches` agreeing positions out
/// of `total` expected labels. Every score the scorer returns satisfies
/// `matches <= total` and `total > 0`, so the ratio lies in `[0, 1]`.
#[derive(Clone, Copy, Debug, PartialEq, Eq, Structural)]
pub struct Accuracy {
    pub matches: usize,
    pub total: usize,
}

/// Scores `y_preds` against `y_test`: counts the positions where the two
/// agree, pairing position by position up to the shorter length, and
/// reports that count over the length of `y_test`. An empty `y_test`
/// leaves the ratio undefined and is rejected.
pub fn accuracy(y_test: &[u32], y_preds: &[u32]) -> (r: Result<Accuracy, AccuracyError>)
    ensures
        r is Err <==> y_test@.len() == 0,
        r is Err ==> r == Err::<Accuracy, AccuracyError>(AccuracyError::InvalidInput),
        r matches Ok(score) ==> score.matches == match_count(y_test@, y_preds@),
        r matches Ok(score) ==> score.total == y_test@.len(),
        r matches Ok(score) ==> score.matches <= score.total,
{
    if y_test.len() == 0 {
        return Err(AccuracyError::InvalidInput);
    }
    let n: usize = if y_test.len() <= y_preds.len() {
        y_test.len()
    } else {
        y_preds.len()
    };
    let mut hits: usize = 0;
    let mut i: usize = 0;
    while i < n
        invariant
            i <= n,
            n == paired_len(y_test@, y_preds@),
            hits == match_count_upto(y_test@, y_preds@, i as int),
            hits <= i,
        decreases n - i,
    {
        if y_test[i] == y_preds[i] {
            hits = hits + 1;
        }
        i = i + 1;
    }
    Ok(Accuracy { matches: hits, total: y_test.len() })
}

proof fn lemma_match_count_upto_self(s: Seq<u32>, n: int)
    requires
        n <= s.len(),
    ensures
        match_count_upto(s, s, n) == if n <= 0 { 0int } else { n },
    decreases n,
{
    if n > 0 {
        lemma_match_count_upto_self(s, n - 1);
    }
}

/// Scoring a sequence against itself gives a perfect score: every paired
/// position agrees, so the match count equals the sequence's length and
/// the ratio over a non-empty sequence is one.
pub proof fn lemma_accuracy_of_self(s: Seq<u32>)
    ensures
        match_count(s, s) == s.len(),
{
    lemma_match_count_upto_self(s, s.len() as int);
}

proof fn lemma_match_count_upto_none(expected: Seq<u32>, predicted: Seq<u32>, n: int)
    requires
        forall|i: int| 0 <= i < n ==> expected[i] != predicted[i],
    ensures
        match_count_upto(expected, predicted, n) == 0,
    decreases n,
{
    if n > 0 {
        lemma_match_count_upto_none(expected, predicted, n - 1);
    }
}

/// When no paired position agrees, the match count is zero, so the
/// accuracy ratio is zero.
pub proof fn lemma_accuracy_no_matches(expected: Seq<u32>, predicted: Seq<u32>)
    requires
        forall|i: int| 0 <= i < paired_len(expected, predicted) ==> expected[i] != predicted[i],
    ensures
        match_count(expected, predicted) == 0,
{
    lemma_match_count_upto_none(expected, predicted, paired_len(expected, predicted) as int);
}

proof fn lemma_match_count_upto_le(expected: Seq<u32>, predicted: Seq<u32>, n: int)
    ensures
        match_count_upto(expected, predicted, n) <= if n <= 0 { 0int } else { n },
    decreases n,
{
    if n > 0 {
        lemma_match_count_upto_le(expected, predicted, n - 1);
    }
}

/// The match count never exceeds the number of expected labels, so the
/// accuracy ratio always lies between zero and one.
pub proof fn lemma_accuracy_bounded(expected: Seq<u32>, predicted: Seq<u32>)
    ensures
        match_count(expected, predicted) <= expected.len(),
{
    lemma_match_count_upto_le(expected, predicted, paired_len(expected, predicted) as int);
}

} // verus!
