//! Moving a selection through a list that wraps at both ends.
use vstd::prelude::*;

verus! {

/// The row after `idx` in a list of `len` rows; the first row follows the last.
pub open spec fn next_of(len: int, idx: int) -> int {
    if idx + 1 < len {
        idx + 1
    } else {
        0
    }
}

/// The row before `idx` in a list of `len` rows; the last row precedes the first.
/// An empty list has only row 0.
pub open spec fn prev_of(len: int, idx: int) -> int {
    if idx > 0 {
        idx - 1
    } else if len > 0 {
        len - 1
    } else {
        0
    }
}

/// Steps to the next row, from the last one to the first.
pub fn next_idx(len: usize, idx: usize) -> (next: usize)
    ensures
        next == next_of(len as int, idx as int),
{
    if idx < len && idx + 1 < len {
        idx + 1
    } else {
        0
    }
}

/// Steps to the previous row, from the first one to the last.
pub fn prev_idx(len: usize, idx: usize) -> (prev: usize)
    ensures
        prev == prev_of(len as int, idx as int),
{
    if idx > 0 {
        idx - 1
    } else if len > 0 {
        len - 1
    } else {
        0
    }
}

/// The row reached from `idx` by `n` steps to the next row.
pub open spec fn next_many(len: int, idx: int, n: nat) -> int
    decreases n,
{
    if n == 0 {
        idx
    } else {
        next_of(len, next_many(len, idx, (n - 1) as nat))
    }
}

/// A step forward and a step back, in either order, end where they began.
pub proof fn next_and_prev_undo_each_other(len: int, idx: int)
    requires
        0 <= idx < len,
    ensures
        prev_of(len, next_of(len, idx)) == idx,
        next_of(len, prev_of(len, idx)) == idx,
{
}

/// A step forward from the last row, or from beyond it, leads to the first row. A step
/// back from beyond the last row leads to the row before, and from the first row to the
/// last, or to row 0 of an empty list.
pub proof fn steps_wrap_at_the_ends(len: int, idx: int)
    requires
        len >= 0,
        idx >= 0,
    ensures
        idx + 1 >= len ==> next_of(len, idx) == 0,
        idx + 1 < len ==> next_of(len, idx) - idx == 1,
        idx > 0 ==> idx - prev_of(len, idx) == 1,
        idx == 0 && len > 0 ==> prev_of(len, idx) + 1 == len,
        idx == 0 && len == 0 ==> prev_of(len, idx) == 0,
{
}

/// `n` steps forward advance by `n` rows, counted modulo the length of the list.
pub proof fn next_many_counts_modulo(len: int, idx: int, n: nat)
    requires
        0 <= idx < len,
    ensures
        next_many(len, idx, n) == (idx + n) % len,
    decreases n,
{
    if n == 0 {
        vstd::arithmetic::div_mod::lemma_small_mod(idx as nat, len as nat);
    } else {
        let before = (idx + n - 1) % len;
        next_many_counts_modulo(len, idx, (n - 1) as nat);
        assert(0 <= before < len) by (nonlinear_arith)
            requires
                before == (idx + n - 1) % len,
                len > 0,
        ;
        vstd::arithmetic::div_mod::lemma_fundamental_div_mod(idx + n - 1, len);
        let q = (idx + n - 1) / len;
        vstd::arithmetic::mul::lemma_mul_is_commutative(len, q);
        if before + 1 < len {
            vstd::arithmetic::div_mod::lemma_fundamental_div_mod_converse(
                idx + n,
                len,
                q,
                before + 1,
            );
        } else {
            assert(idx + n == (q + 1) * len) by (nonlinear_arith)
                requires
                    idx + n - 1 == len * q + before,
                    before + 1 == len,
            ;
            vstd::arithmetic::div_mod::lemma_fundamental_div_mod_converse(idx + n, len, q + 1, 0);
        }
    }
}

/// Stepping forward as often as the list has rows comes back to the same row.
pub proof fn full_turn_returns(len: int, idx: int)
    requires
        0 <= idx < len,
    ensures
        next_many(len, idx, len as nat) == idx,
{
    next_many_counts_modulo(len, idx, len as nat);
    vstd::arithmetic::div_mod::lemma_fundamental_div_mod_converse(idx + len, len, 1, idx);
}

} // verus!
