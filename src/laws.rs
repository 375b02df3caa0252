//! Properties of the engine that span several operations or all inputs.
use vstd::prelude::*;
use crate::engine::{
    after_digit, after_dot, failed, initial, is_digit, starts_fresh, CalcState, Work,
    MAX_DISPLAY_LEN,
};
use crate::input::{after_key, Key};
use crate::ops::{applied, is_zero_bits, negated_bits, Applied, CalcError, Num, Op};

verus! {

/// The state after a run of digit and point keys.
pub open spec fn after_entry(s: CalcState, keys: Seq<Key>) -> CalcState
    decreases keys.len(),
{
    if keys.len() == 0 {
        s
    } else {
        let t = after_entry(s, keys.drop_last());
        match keys.last() {
            Key::Digit(d) => after_digit(t, d),
            _ => after_dot(t),
        }
    }
}

/// Whether a text holds at most one decimal point.
pub open spec fn one_point_at_most(t: Seq<char>) -> bool {
    forall|i: int, j: int| 0 <= i < t.len() && 0 <= j < t.len() && t[i] == '.' && t[j] == '.' ==> i == j
}

proof fn lemma_digit_keeps_points(s: CalcState, d: char)
    requires
        is_digit(d),
        one_point_at_most(s.display),
    ensures
        one_point_at_most(after_digit(s, d).display),
{
    let r = after_digit(s, d).display;
    assert forall|i: int, j: int|
        0 <= i < r.len() && 0 <= j < r.len() && r[i] == '.' && r[j] == '.' implies i == j by {
        if !starts_fresh(s) {
            assert(r[i] == s.display[i] && r[j] == s.display[j]);
        }
    }
}

proof fn lemma_dot_keeps_points(s: CalcState)
    requires
        one_point_at_most(s.display),
    ensures
        one_point_at_most(after_dot(s).display),
{
    let r = after_dot(s).display;
    let t = if s.reset_display { Seq::<char>::empty() } else { s.display };
    assert forall|i: int, j: int|
        0 <= i < r.len() && 0 <= j < r.len() && r[i] == '.' && r[j] == '.' implies i == j by {
        if !t.contains('.') && t.len() > 0 {
            if i < t.len() {
                assert(t[i] == '.');
            }
            if j < t.len() {
                assert(t[j] == '.');
            }
        }
    }
}

/// Any run of digit and point keys keeps the display within the length cap
/// and with at most one decimal point.
pub proof fn lemma_entry_bounded(s: CalcState, keys: Seq<Key>)
    requires
        s.display.len() <= MAX_DISPLAY_LEN,
        one_point_at_most(s.display),
        forall|i: int| 0 <= i < keys.len() ==> (#[trigger] keys[i] matches Key::Digit(d) && is_digit(d))
            || keys[i] == Key::Dot,
    ensures
        after_entry(s, keys).display.len() <= MAX_DISPLAY_LEN,
        one_point_at_most(after_entry(s, keys).display),
    decreases keys.len(),
{
    if keys.len() > 0 {
        let rest = keys.drop_last();
        assert forall|i: int| 0 <= i < rest.len() implies (#[trigger] rest[i] matches Key::Digit(d) && is_digit(d))
            || rest[i] == Key::Dot by {
            assert(rest[i] == keys[i]);
        }
        lemma_entry_bounded(s, rest);
        let k = keys[keys.len() - 1];
        match k {
            Key::Digit(d) => lemma_digit_keeps_points(after_entry(s, rest), d),
            _ => lemma_dot_keeps_points(after_entry(s, rest)),
        }
    }
}

/// With no operator pending, combining gives the right operand unchanged.
pub proof fn lemma_no_operator_identity(lhs: Num, rhs: Num)
    ensures
        applied(None, lhs, rhs) == Ok::<Applied, CalcError>(Applied::Value(rhs)),
{
}

/// Dividing by zero, of either sign, fails whatever the left operand.
pub proof fn lemma_divide_by_zero(lhs: Num, rhs: Num)
    requires
        is_zero_bits(rhs.bits),
    ensures
        applied(Some(Op::Divide), lhs, rhs) == Err::<Applied, CalcError>(CalcError::DivisionByZero),
{
}

/// Clearing yields the same initial state from any two states, and clearing
/// again changes nothing.
pub proof fn lemma_clear_fixed(s: CalcState, t: CalcState)
    ensures
        after_key(s, Key::Clear) == after_key(t, Key::Clear),
        after_key(s, Key::Clear) == (initial(), Work::Done),
        after_key(after_key(s, Key::Clear).0, Key::Clear) == after_key(s, Key::Clear),
{
}

/// After any failure the next digit starts a fresh number.
pub proof fn lemma_digit_after_failure(s: CalcState, e: CalcError, keep_op: bool, d: char)
    ensures
        after_digit(failed(s, e, keep_op), d).display == seq![d],
{
    assert(seq![].push(d) =~= seq![d]);
}

/// Negating twice gives back the same double.
pub proof fn lemma_negate_twice(bits: u64)
    ensures
        negated_bits(negated_bits(bits)) == bits,
{
    assert((bits ^ 0x8000_0000_0000_0000u64) ^ 0x8000_0000_0000_0000u64 == bits) by (bit_vector);
}

} // verus!
