//! The calculator's state machine.
//!
//! Operations that need floating-point work do not finish on their own: they
//! return a [`Work`] item, and the host answers it with `supply_operand`,
//! `supply_result` or `supply_rendering` until `Work::Done` comes back.
use vstd::prelude::*;
use crate::ops::{applied, apply_op, Applied, CalcError, Num, Op};
use crate::render::{canonical, trim_fixed};

verus! {

/// The most characters that digit and point entry put on the display.
pub const MAX_DISPLAY_LEN: usize = 20;

/// What the engine is waiting for from the host.
#[derive(Clone, Copy, Debug, PartialEq, Eq, Structural)]
pub enum Stage {
    /// Nothing: the last operation is complete.
    Idle,
    /// `set_op(op)` waits for the display read as a double.
    ChainOperand(Op),
    /// `set_op(op)` waits for the result of the pending operation.
    ChainResult(Op),
    /// `equals` waits for the display read as a double.
    FinishOperand,
    /// `equals` waits for the result of the pending operation.
    FinishResult,
    /// `plus_minus` waits for the display read as a double.
    NegateOperand,
    /// A computed value waits for its fixed twelve-digit text.
    Rendering,
}

/// A request to the host, or the end of an operation.
#[derive(Clone, Copy, Debug, PartialEq, Eq, Structural)]
pub enum Work {
    /// The operation is complete.
    Done,
    /// Read `display_text()` as a double; answer with `supply_operand`
    /// (`None` when it does not parse).
    ReadDisplay,
    /// Compute `lhs op rhs` in double arithmetic; answer with `supply_result`.
    Compute { op: Op, lhs: Num, rhs: Num },
    /// Format the value with twelve fractional digits; answer with
    /// `supply_rendering`.
    Render(Num),
}

/// The engine's state as mathematical values.
pub struct CalcState {
    pub display: Seq<char>,
    pub accumulator: Num,
    pub pending_op: Option<Op>,
    pub reset_display: bool,
    pub error: Option<CalcError>,
    pub stage: Stage,
}

/// The state after a clear: nothing typed, a zero accumulator, no operator.
pub open spec fn initial() -> CalcState {
    CalcState {
        display: seq![],
        accumulator: Num { bits: 0 },
        pending_op: None,
        reset_display: false,
        error: None,
        stage: Stage::Idle,
    }
}

/// The text shown in place of a number after a failure.
pub open spec fn marker() -> Seq<char> {
    seq!['E', 'R', 'R']
}

/// Whether `c` is a decimal digit.
pub open spec fn is_digit(c: char) -> bool {
    '0' <= c && c <= '9'
}

/// Entry starts over when a fresh number is due or the display is a lone `0`.
pub open spec fn starts_fresh(s: CalcState) -> bool {
    s.reset_display || s.display == seq!['0']
}

pub open spec fn after_digit(s: CalcState, d: char) -> CalcState {
    let t = if starts_fresh(s) {
        CalcState { display: seq![], reset_display: false, stage: Stage::Idle, ..s }
    } else {
        CalcState { stage: Stage::Idle, ..s }
    };
    if t.display.len() < MAX_DISPLAY_LEN {
        CalcState { display: t.display.push(d), ..t }
    } else {
        t
    }
}

pub open spec fn after_dot(s: CalcState) -> CalcState {
    let t = if s.reset_display {
        CalcState { display: seq![], reset_display: false, stage: Stage::Idle, ..s }
    } else {
        CalcState { stage: Stage::Idle, ..s }
    };
    if t.display.contains('.') {
        t
    } else if t.display.len() == 0 {
        CalcState { display: seq!['0', '.'], ..t }
    } else if t.display.len() < MAX_DISPLAY_LEN {
        CalcState { display: t.display.push('.'), ..t }
    } else {
        t
    }
}

pub open spec fn after_backspace(s: CalcState) -> CalcState {
    if s.reset_display || s.display.len() == 0 {
        CalcState { stage: Stage::Idle, ..s }
    } else {
        CalcState { display: s.display.drop_last(), stage: Stage::Idle, ..s }
    }
}

/// A failure: the message is set and the marker shown. The next digit starts
/// a fresh number rather than extending the marker, so entry recovers; the
/// pending operator stays only where `keep_op` says so (an unreadable display
/// met by `set_op`).
pub open spec fn failed(s: CalcState, e: CalcError, keep_op: bool) -> CalcState {
    CalcState {
        display: marker(),
        error: Some(e),
        pending_op: if keep_op { s.pending_op } else { None },
        reset_display: true,
        stage: Stage::Idle,
        ..s
    }
}

pub open spec fn after_set_op(s: CalcState, op: Op) -> (CalcState, Work) {
    if s.pending_op.is_some() && s.reset_display {
        (CalcState { pending_op: Some(op), error: None, stage: Stage::Idle, ..s }, Work::Done)
    } else {
        (CalcState { error: None, stage: Stage::ChainOperand(op), ..s }, Work::ReadDisplay)
    }
}

pub open spec fn after_equals(s: CalcState) -> (CalcState, Work) {
    (CalcState { error: None, stage: Stage::FinishOperand, ..s }, Work::ReadDisplay)
}

pub open spec fn after_plus_minus(s: CalcState) -> (CalcState, Work) {
    (CalcState { stage: Stage::NegateOperand, ..s }, Work::ReadDisplay)
}

/// The value of the display: zero when it is empty, else what reading gave.
pub open spec fn value_of(display: Seq<char>, parsed: Option<Num>) -> Option<Num> {
    if display.len() == 0 {
        Some(Num { bits: 0 })
    } else {
        parsed
    }
}

/// A chain continues from `r` with `op` pending.
pub open spec fn chained(s: CalcState, op: Op, r: Num) -> (CalcState, Work) {
    (
        CalcState {
            accumulator: r,
            pending_op: Some(op),
            reset_display: true,
            stage: Stage::Rendering,
            ..s
        },
        Work::Render(r),
    )
}

/// A chain ends with result `r`.
pub open spec fn finished(s: CalcState, r: Num) -> (CalcState, Work) {
    (
        CalcState {
            accumulator: r,
            pending_op: None,
            reset_display: true,
            stage: Stage::Rendering,
            ..s
        },
        Work::Render(r),
    )
}

pub open spec fn after_operand(s: CalcState, parsed: Option<Num>) -> (CalcState, Work) {
    let v = value_of(s.display, parsed);
    match s.stage {
        Stage::ChainOperand(op) => match v {
            None => (failed(s, CalcError::InvalidNumber, true), Work::Done),
            Some(v) => match applied(s.pending_op, s.accumulator, v) {
                Err(e) => (failed(s, e, false), Work::Done),
                Ok(Applied::Value(r)) => chained(s, op, r),
                Ok(Applied::Arith { op: p, lhs, rhs }) => (
                    CalcState { stage: Stage::ChainResult(op), ..s },
                    Work::Compute { op: p, lhs, rhs },
                ),
            },
        },
        Stage::FinishOperand => match v {
            None => (failed(s, CalcError::InvalidNumber, false), Work::Done),
            Some(v) => match applied(s.pending_op, s.accumulator, v) {
                Err(e) => (failed(s, e, false), Work::Done),
                Ok(Applied::Value(r)) => finished(s, r),
                Ok(Applied::Arith { op: p, lhs, rhs }) => (
                    CalcState { stage: Stage::FinishResult, ..s },
                    Work::Compute { op: p, lhs, rhs },
                ),
            },
        },
        Stage::NegateOperand => match v {
            None => (CalcState { stage: Stage::Idle, ..s }, Work::Done),
            Some(v) => (
                CalcState { stage: Stage::Rendering, ..s },
                Work::Render(Num { bits: crate::ops::negated_bits(v.bits) }),
            ),
        },
        _ => (s, Work::Done),
    }
}

pub open spec fn after_result(s: CalcState, r: Num) -> (CalcState, Work) {
    match s.stage {
        Stage::ChainResult(op) => chained(s, op, r),
        Stage::FinishResult => finished(s, r),
        _ => (s, Work::Done),
    }
}

pub open spec fn after_rendering(s: CalcState, fixed: Seq<char>) -> CalcState {
    match s.stage {
        Stage::Rendering => CalcState { display: canonical(fixed), stage: Stage::Idle, ..s },
        _ => s,
    }
}

/// Relies on `String::from_iter`: the string of the given characters, in order.
#[verifier::external_body]
fn text_of(cs: &Vec<char>) -> (r: String)
    ensures
        r@ == cs@,
{
    String::from_iter(cs.iter())
}

/// The calculator engine.
pub struct Calculator {
    display: Vec<char>,
    accumulator: Num,
    pending_op: Option<Op>,
    reset_display: bool,
    error: Option<CalcError>,
    stage: Stage,
}

impl View for Calculator {
    type V = CalcState;

    closed spec fn view(&self) -> CalcState {
        CalcState {
            display: self.display@,
            accumulator: self.accumulator,
            pending_op: self.pending_op,
            reset_display: self.reset_display,
            error: self.error,
            stage: self.stage,
        }
    }
}

impl Calculator {
    /// A calculator in the cleared state.
    pub fn new() -> (r: Calculator)
        ensures
            r@ == initial(),
    {
        let r = Calculator {
            display: Vec::new(),
            accumulator: Num::zero(),
            pending_op: None,
            reset_display: false,
            error: None,
            stage: Stage::Idle,
        };
        assert(r@.display =~= seq![]);
        r
    }

    /// Resets every field to its initial value.
    pub fn clear_all(&mut self)
        ensures
            final(self)@ == initial(),
    {
        self.display.clear();
        self.accumulator = Num::zero();
        self.pending_op = None;
        self.reset_display = false;
        self.error = None;
        self.stage = Stage::Idle;
        assert(self@.display =~= seq![]);
    }

    /// Whether the display is exactly `0`.
    fn display_is_zero(&self) -> (r: bool)
        ensures
            r == (self@.display == seq!['0']),
    {
        if self.display.len() == 1 && self.display[0] == '0' {
            assert(self@.display =~= seq!['0']);
            true
        } else {
            false
        }
    }

    /// Appends a digit, starting a fresh number first where one is due;
    /// beyond the length cap the digit is dropped.
    pub fn push_digit(&mut self, d: char)
        requires
            is_digit(d),
        ensures
            final(self)@ == after_digit(old(self)@, d),
    {
        if self.reset_display || self.display_is_zero() {
            self.display.clear();
            self.reset_display = false;
        }
        self.stage = Stage::Idle;
        if self.display.len() < MAX_DISPLAY_LEN {
            self.display.push(d);
        }
        assert(self@ == after_digit(old(self)@, d)) by {
            assert(self@.display =~= after_digit(old(self)@, d).display);
        }
    }

    /// Appends a decimal point, unless the number has one or is at the
    /// length cap; an empty number becomes `0.`.
    pub fn push_dot(&mut self)
        ensures
            final(self)@ == after_dot(old(self)@),
    {
        if self.reset_display {
            self.display.clear();
            self.reset_display = false;
        }
        self.stage = Stage::Idle;
        if !crate::render::holds(&self.display, '.') {
            if self.display.len() == 0 {
                self.display.push('0');
                self.display.push('.');
            } else if self.display.len() < MAX_DISPLAY_LEN {
                self.display.push('.');
            }
        }
        assert(self@ == after_dot(old(self)@)) by {
            assert(self@.display =~= after_dot(old(self)@).display);
        }
    }

    /// Removes the last typed character, unless a fresh number is due.
    pub fn backspace(&mut self)
        ensures
            final(self)@ == after_backspace(old(self)@),
    {
        self.stage = Stage::Idle;
        if !self.reset_display {
            self.display.pop();
        }
        assert(self@ == after_backspace(old(self)@)) by {
            assert(self@.display =~= after_backspace(old(self)@).display);
        }
    }

    /// The value of the display, given what reading it as a double gave:
    /// an empty display is zero, and an unreadable one stays a failure.
    pub fn current_value(&self, parsed: Option<Num>) -> (r: Option<Num>)
        ensures
            r == value_of(self@.display, parsed),
    {
        if self.display.len() == 0 {
            Some(Num::zero())
        } else {
            parsed
        }
    }

    /// Combines the accumulator with `rhs` under the pending operator.
    pub fn apply_pending(&self, rhs: Num) -> (r: Result<Applied, CalcError>)
        ensures
            r == applied(self@.pending_op, self@.accumulator, rhs),
    {
        apply_op(self.pending_op, self.accumulator, rhs)
    }

    fn fail(&mut self, e: CalcError, keep_op: bool)
        ensures
            final(self)@ == failed(old(self)@, e, keep_op),
    {
        self.error = Some(e);
        self.display = vec!['E', 'R', 'R'];
        if !keep_op {
            self.pending_op = None;
        }
        self.reset_display = true;
        self.stage = Stage::Idle;
        assert(self@.display =~= marker());
    }

    fn chain(&mut self, op: Op, r: Num) -> (w: Work)
        ensures
            (final(self)@, w) == chained(old(self)@, op, r),
    {
        self.accumulator = r;
        self.pending_op = Some(op);
        self.reset_display = true;
        self.stage = Stage::Rendering;
        Work::Render(r)
    }

    fn finish(&mut self, r: Num) -> (w: Work)
        ensures
            (final(self)@, w) == finished(old(self)@, r),
    {
        self.accumulator = r;
        self.pending_op = None;
        self.reset_display = true;
        self.stage = Stage::Rendering;
        Work::Render(r)
    }

    /// Selects the pending operator, folding the display into the chain.
    /// Right after an operator, it only replaces that operator.
    pub fn set_op(&mut self, op: Op) -> (w: Work)
        ensures
            (final(self)@, w) == after_set_op(old(self)@, op),
    {
        self.error = None;
        if self.pending_op.is_some() && self.reset_display {
            self.pending_op = Some(op);
            self.stage = Stage::Idle;
            Work::Done
        } else {
            self.stage = Stage::ChainOperand(op);
            Work::ReadDisplay
        }
    }

    /// Ends the chain with the value of the display.
    pub fn equals(&mut self) -> (w: Work)
        ensures
            (final(self)@, w) == after_equals(old(self)@),
    {
        self.error = None;
        self.stage = Stage::FinishOperand;
        Work::ReadDisplay
    }

    /// Negates the displayed number in place; an unreadable display is left
    /// as it is, with no error.
    pub fn plus_minus(&mut self) -> (w: Work)
        ensures
            (final(self)@, w) == after_plus_minus(old(self)@),
    {
        self.stage = Stage::NegateOperand;
        Work::ReadDisplay
    }

    /// Answers `Work::ReadDisplay` with the display read as a double.
    pub fn supply_operand(&mut self, parsed: Option<Num>) -> (w: Work)
        ensures
            (final(self)@, w) == after_operand(old(self)@, parsed),
    {
        let v = self.current_value(parsed);
        match self.stage {
            Stage::ChainOperand(op) => match v {
                None => {
                    self.fail(CalcError::InvalidNumber, true);
                    Work::Done
                },
                Some(v) => match self.apply_pending(v) {
                    Err(e) => {
                        self.fail(e, false);
                        Work::Done
                    },
                    Ok(Applied::Value(r)) => self.chain(op, r),
                    Ok(Applied::Arith { op: p, lhs, rhs }) => {
                        self.stage = Stage::ChainResult(op);
                        Work::Compute { op: p, lhs, rhs }
                    },
                },
            },
            Stage::FinishOperand => match v {
                None => {
                    self.fail(CalcError::InvalidNumber, false);
                    Work::Done
                },
                Some(v) => match self.apply_pending(v) {
                    Err(e) => {
                        self.fail(e, false);
                        Work::Done
                    },
                    Ok(Applied::Value(r)) => self.finish(r),
                    Ok(Applied::Arith { op: p, lhs, rhs }) => {
                        self.stage = Stage::FinishResult;
                        Work::Compute { op: p, lhs, rhs }
                    },
                },
            },
            Stage::NegateOperand => match v {
                None => {
                    self.stage = Stage::Idle;
                    Work::Done
                },
                Some(v) => {
                    self.stage = Stage::Rendering;
                    Work::Render(v.negate())
                },
            },
            _ => Work::Done,
        }
    }

    /// Answers `Work::Compute` with the result of the operation.
    pub fn supply_result(&mut self, r: Num) -> (w: Work)
        ensures
            (final(self)@, w) == after_result(old(self)@, r),
    {
        match self.stage {
            Stage::ChainResult(op) => self.chain(op, r),
            Stage::FinishResult => self.finish(r),
            _ => Work::Done,
        }
    }

    /// Answers `Work::Render` with the value in fixed form with twelve
    /// fractional digits; the display takes its canonical text.
    pub fn supply_rendering(&mut self, fixed: &str) -> (w: Work)
        ensures
            final(self)@ == after_rendering(old(self)@, fixed@),
            w == Work::Done,
    {
        if self.stage == Stage::Rendering {
            self.display = trim_fixed(fixed);
            self.stage = Stage::Idle;
        }
        Work::Done
    }

    /// The edited number as typed (empty before any entry).
    pub fn display_text(&self) -> (r: String)
        ensures
            r@ == self@.display,
    {
        text_of(&self.display)
    }

    /// The text to show: the display, or `0` when it is empty.
    pub fn shown_text(&self) -> (r: String)
        ensures
            r@ == (if self@.display.len() == 0 { seq!['0'] } else { self@.display }),
    {
        if self.display.len() == 0 {
            text_of(&vec!['0'])
        } else {
            text_of(&self.display)
        }
    }

    /// The running left operand.
    pub fn accumulator(&self) -> (r: Num)
        ensures
            r == self@.accumulator,
    {
        self.accumulator
    }

    /// The operator waiting for its right operand, if any.
    pub fn pending_op(&self) -> (r: Option<Op>)
        ensures
            r == self@.pending_op,
    {
        self.pending_op
    }

    /// Whether the next digit starts a fresh number.
    pub fn reset_display(&self) -> (r: bool)
        ensures
            r == self@.reset_display,
    {
        self.reset_display
    }

    /// The failure of the last operation, if it failed.
    pub fn error(&self) -> (r: Option<CalcError>)
        ensures
            r == self@.error,
    {
        self.error
    }

    /// What the engine waits for.
    pub fn stage(&self) -> (r: Stage)
        ensures
            r == self@.stage,
    {
        self.stage
    }
}

} // verus!
