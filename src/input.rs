//! Classification of user input into engine operations.
use vstd::prelude::*;
use crate::engine::{
    after_backspace, after_digit, after_dot, after_equals, after_plus_minus, after_set_op,
    initial, is_digit, CalcState, Calculator, Work,
};
use crate::ops::Op;

verus! {

/// One user action.
#[derive(Clone, Copy, Debug, PartialEq, Eq, Structural)]
pub enum Key {
    Digit(char),
    Dot,
    Operator(Op),
    Equals,
    Backspace,
    PlusMinus,
    Clear,
}

/// A key is well formed when a digit key carries a decimal digit.
pub open spec fn key_ok(k: Key) -> bool {
    match k {
        Key::Digit(d) => is_digit(d),
        _ => true,
    }
}

/// The key that a typed character stands for: digits, `.`, `+`, `-`, `/`
/// (divide) and `*` (multiply).
pub open spec fn key_of_char(c: char) -> Option<Key> {
    if is_digit(c) {
        Some(Key::Digit(c))
    } else if c == '.' {
        Some(Key::Dot)
    } else if c == '+' {
        Some(Key::Operator(Op::Add))
    } else if c == '-' {
        Some(Key::Operator(Op::Subtract))
    } else if c == '/' {
        Some(Key::Operator(Op::Divide))
    } else if c == '*' {
        Some(Key::Operator(Op::Multiply))
    } else {
        None
    }
}

/// The effect of a key on the state, and the first request to the host.
pub open spec fn after_key(s: CalcState, k: Key) -> (CalcState, Work) {
    match k {
        Key::Digit(d) => (after_digit(s, d), Work::Done),
        Key::Dot => (after_dot(s), Work::Done),
        Key::Operator(op) => after_set_op(s, op),
        Key::Equals => after_equals(s),
        Key::Backspace => (after_backspace(s), Work::Done),
        Key::PlusMinus => after_plus_minus(s),
        Key::Clear => (initial(), Work::Done),
    }
}

impl Key {
    /// The key for a typed character, or `None` where it means nothing.
    pub fn from_char(c: char) -> (r: Option<Key>)
        ensures
            r == key_of_char(c),
            r matches Some(k) ==> key_ok(k),
    {
        if '0' <= c && c <= '9' {
            Some(Key::Digit(c))
        } else if c == '.' {
            Some(Key::Dot)
        } else if c == '+' {
            Some(Key::Operator(Op::Add))
        } else if c == '-' {
            Some(Key::Operator(Op::Subtract))
        } else if c == '/' {
            Some(Key::Operator(Op::Divide))
        } else if c == '*' {
            Some(Key::Operator(Op::Multiply))
        } else {
            None
        }
    }
}

impl Calculator {
    /// Performs the operation of a key.
    pub fn press(&mut self, k: Key) -> (w: Work)
        requires
            key_ok(k),
        ensures
            (final(self)@, w) == after_key(old(self)@, k),
    {
        match k {
            Key::Digit(d) => {
                self.push_digit(d);
                Work::Done
            },
            Key::Dot => {
                self.push_dot();
                Work::Done
            },
            Key::Operator(op) => self.set_op(op),
            Key::Equals => self.equals(),
            Key::Backspace => {
                self.backspace();
                Work::Done
            },
            Key::PlusMinus => self.plus_minus(),
            Key::Clear => {
                self.clear_all();
                Work::Done
            },
        }
    }
}

} // verus!
