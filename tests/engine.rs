use rust_calc::engine::{Calculator, Stage, Work};
use rust_calc::input::Key;
use rust_calc::ops::{apply_op, Applied, CalcError, Num, Op};
use rust_calc::render::trim_fixed;

fn num(x: f64) -> Num {
    Num { bits: x.to_bits() }
}

fn val(n: Num) -> f64 {
    f64::from_bits(n.bits)
}

fn compute(op: Op, lhs: f64, rhs: f64) -> f64 {
    match op {
        Op::Add => lhs + rhs,
        Op::Subtract => lhs - rhs,
        Op::Multiply => lhs * rhs,
        Op::Divide => lhs / rhs,
    }
}

fn format_number(x: f64) -> String {
    trim_fixed(&format!("{:.12}", x)).into_iter().collect()
}

/// Answers the engine's requests until the operation completes.
fn run(calc: &mut Calculator, first: Work) {
    let mut w = first;
    loop {
        w = match w {
            Work::Done => return,
            Work::ReadDisplay => {
                let parsed = calc.display_text().parse::<f64>().ok().map(num);
                calc.supply_operand(parsed)
            }
            Work::Compute { op, lhs, rhs } => calc.supply_result(num(compute(op, val(lhs), val(rhs)))),
            Work::Render(n) => calc.supply_rendering(&format!("{:.12}", val(n))),
        };
    }
}

fn digits(calc: &mut Calculator, s: &str) {
    for c in s.chars() {
        calc.push_digit(c);
    }
}

fn set_op(calc: &mut Calculator, op: Op) {
    let w = calc.set_op(op);
    run(calc, w);
}

fn equals(calc: &mut Calculator) {
    let w = calc.equals();
    run(calc, w);
}

fn plus_minus(calc: &mut Calculator) {
    let w = calc.plus_minus();
    run(calc, w);
}

#[test]
fn add_then_equals() {
    let mut c = Calculator::new();
    digits(&mut c, "5");
    set_op(&mut c, Op::Add);
    digits(&mut c, "3");
    equals(&mut c);
    assert_eq!(c.display_text(), "8");
    assert_eq!(val(c.accumulator()), 8.0);
    assert_eq!(c.pending_op(), None);
    assert_eq!(c.error(), None);
    assert_eq!(c.stage(), Stage::Idle);
}

#[test]
fn divide_by_zero_on_equals() {
    let mut c = Calculator::new();
    digits(&mut c, "7");
    set_op(&mut c, Op::from_symbol('÷').unwrap());
    digits(&mut c, "0");
    equals(&mut c);
    assert_eq!(c.error(), Some(CalcError::DivisionByZero));
    assert_eq!(c.error().unwrap().message(), "Cannot divide by zero!");
    assert_eq!(c.display_text(), "ERR");
    assert_eq!(c.pending_op(), None);
}

#[test]
fn operator_change_before_next_number() {
    let mut c = Calculator::new();
    digits(&mut c, "9");
    set_op(&mut c, Op::Add);
    assert_eq!(c.set_op(Op::Subtract), Work::Done);
    assert_eq!(c.pending_op(), Some(Op::Subtract));
    assert_eq!(val(c.accumulator()), 9.0);
    assert_eq!(c.display_text(), "9");
}

#[test]
fn backspace_to_empty() {
    let mut c = Calculator::new();
    digits(&mut c, "12");
    c.backspace();
    assert_eq!(c.display_text(), "1");
    c.backspace();
    assert_eq!(c.display_text(), "");
    assert_eq!(c.shown_text(), "0");
    c.backspace();
    assert_eq!(c.display_text(), "");
}

#[test]
fn plus_minus_twice() {
    let mut c = Calculator::new();
    digits(&mut c, "4");
    plus_minus(&mut c);
    assert_eq!(c.display_text(), "-4");
    assert_eq!(val(c.accumulator()), 0.0);
    plus_minus(&mut c);
    assert_eq!(c.display_text(), "4");
    assert_eq!(val(c.accumulator()), 0.0);
    assert_eq!(c.pending_op(), None);
}

#[test]
fn operator_on_empty_display() {
    let mut c = Calculator::new();
    digits(&mut c, "6");
    c.clear_all();
    assert_eq!(c.current_value(None), Some(Num::zero()));
    set_op(&mut c, Op::Add);
    assert_eq!(val(c.accumulator()), 0.0);
    assert_eq!(c.pending_op(), Some(Op::Add));
    assert_eq!(c.display_text(), "0");
}

#[test]
fn digit_entry_capped() {
    let mut c = Calculator::new();
    for _ in 0..25 {
        c.push_digit('7');
    }
    assert_eq!(c.display_text().len(), 20);
    c.push_dot();
    c.push_dot();
    c.push_digit('1');
    let text = c.display_text();
    assert_eq!(text.matches('.').count(), 0);
    assert_eq!(text.len(), 20);
}

#[test]
fn dot_fits_below_cap() {
    let mut c = Calculator::new();
    for _ in 0..19 {
        c.push_digit('3');
    }
    c.push_dot();
    c.push_digit('1');
    c.push_dot();
    let text = c.display_text();
    assert_eq!(text.len(), 20);
    assert!(text.ends_with('.'));
    assert_eq!(text.matches('.').count(), 1);
}

#[test]
fn dot_on_empty_gives_zero_point() {
    let mut c = Calculator::new();
    c.push_dot();
    assert_eq!(c.display_text(), "0.");
    c.push_digit('5');
    c.push_dot();
    assert_eq!(c.display_text(), "0.5");
}

#[test]
fn lone_zero_is_replaced() {
    let mut c = Calculator::new();
    c.push_digit('0');
    c.push_digit('0');
    c.push_digit('3');
    assert_eq!(c.display_text(), "3");
}

#[test]
fn no_operator_is_identity() {
    for x in [0.0, 2.5, -7.0, 1e300] {
        assert_eq!(apply_op(None, num(11.0), num(x)), Ok(Applied::Value(num(x))));
    }
    let mut c = Calculator::new();
    assert_eq!(c.apply_pending(num(3.0)), Ok(Applied::Value(num(3.0))));
    digits(&mut c, "2");
    set_op(&mut c, Op::Multiply);
    assert_eq!(
        c.apply_pending(num(3.0)),
        Ok(Applied::Arith { op: Op::Multiply, lhs: num(2.0), rhs: num(3.0) })
    );
}

#[test]
fn divide_by_zero_any_left() {
    for lhs in [0.0, 5.0, -3.0, f64::INFINITY] {
        assert_eq!(apply_op(Some(Op::Divide), num(lhs), num(0.0)), Err(CalcError::DivisionByZero));
        assert_eq!(apply_op(Some(Op::Divide), num(lhs), num(-0.0)), Err(CalcError::DivisionByZero));
    }
    assert!(apply_op(Some(Op::Divide), num(0.0), num(2.0)).is_ok());
    assert!(apply_op(Some(Op::Multiply), num(1.0), num(0.0)).is_ok());
}

#[test]
fn zero_over_zero_on_equals() {
    let mut c = Calculator::new();
    set_op(&mut c, Op::Divide);
    equals(&mut c);
    assert_eq!(c.error(), Some(CalcError::DivisionByZero));
    assert_eq!(c.display_text(), "ERR");
}

#[test]
fn format_whole_and_noise() {
    assert_eq!(format_number(4.0), "4");
    assert_eq!(format_number(0.1 + 0.2), "0.3");
    assert_eq!(format_number(100.0), "100");
    assert_eq!(format_number(-2.5), "-2.5");
    assert_eq!(format_number(0.0), "0");
    assert_eq!(format_number(1.0 / 3.0), "0.333333333333");
}

#[test]
fn trim_fixed_edges() {
    let t = |s: &str| -> String { trim_fixed(s).into_iter().collect() };
    assert_eq!(t("42.000000000000"), "42");
    assert_eq!(t("0.000000000000"), "0");
    assert_eq!(t("-0.000000000000"), "-0");
    assert_eq!(t(""), "0");
    assert_eq!(t("."), "0");
    assert_eq!(t("1200"), "1200");
    assert_eq!(t("inf"), "inf");
    assert_eq!(t("1.250000000000"), "1.25");
}

#[test]
fn clear_is_fixed() {
    let mut a = Calculator::new();
    digits(&mut a, "9");
    set_op(&mut a, Op::Divide);
    digits(&mut a, "0");
    equals(&mut a);
    a.clear_all();
    let mut b = Calculator::new();
    digits(&mut b, "12");
    b.push_dot();
    b.clear_all();
    b.clear_all();
    for c in [&a, &b] {
        assert_eq!(c.display_text(), "");
        assert_eq!(c.accumulator(), Num::zero());
        assert_eq!(c.pending_op(), None);
        assert!(!c.reset_display());
        assert_eq!(c.error(), None);
        assert_eq!(c.stage(), Stage::Idle);
    }
}

#[test]
fn chain_without_precedence() {
    let mut c = Calculator::new();
    digits(&mut c, "2");
    set_op(&mut c, Op::Add);
    digits(&mut c, "3");
    set_op(&mut c, Op::Multiply);
    assert_eq!(c.display_text(), "5");
    digits(&mut c, "4");
    equals(&mut c);
    assert_eq!(c.display_text(), "20");
    assert_eq!(val(c.accumulator()), 20.0);
}

#[test]
fn divide_by_zero_mid_chain() {
    let mut c = Calculator::new();
    digits(&mut c, "8");
    set_op(&mut c, Op::Divide);
    digits(&mut c, "0");
    set_op(&mut c, Op::Add);
    assert_eq!(c.error(), Some(CalcError::DivisionByZero));
    assert_eq!(c.display_text(), "ERR");
    assert_eq!(c.pending_op(), None);
    assert_eq!(val(c.accumulator()), 8.0);
}

#[test]
fn invalid_number_errors() {
    let mut c = Calculator::new();
    digits(&mut c, "8");
    set_op(&mut c, Op::Divide);
    digits(&mut c, "0");
    equals(&mut c);
    set_op(&mut c, Op::Add);
    assert_eq!(c.error(), Some(CalcError::InvalidNumber));
    assert_eq!(c.error().unwrap().message(), "Invalid number");
    assert_eq!(c.display_text(), "ERR");
    equals(&mut c);
    assert_eq!(c.error(), Some(CalcError::InvalidNumber));
    assert_eq!(c.pending_op(), None);
}

#[test]
fn plus_minus_on_marker_is_silent() {
    let mut c = Calculator::new();
    digits(&mut c, "1");
    set_op(&mut c, Op::Divide);
    digits(&mut c, "0");
    equals(&mut c);
    assert_eq!(c.error(), Some(CalcError::DivisionByZero));
    plus_minus(&mut c);
    assert_eq!(c.display_text(), "ERR");
    assert_eq!(c.error(), Some(CalcError::DivisionByZero));
}

#[test]
fn digit_recovers_after_error() {
    let mut c = Calculator::new();
    digits(&mut c, "3");
    set_op(&mut c, Op::Divide);
    digits(&mut c, "0");
    equals(&mut c);
    c.backspace();
    assert_eq!(c.display_text(), "ERR");
    c.push_digit('5');
    assert_eq!(c.display_text(), "5");
    set_op(&mut c, Op::Subtract);
    digits(&mut c, "2");
    equals(&mut c);
    assert_eq!(c.display_text(), "3");
    assert_eq!(c.error(), None);
}

#[test]
fn result_then_digit_starts_fresh() {
    let mut c = Calculator::new();
    digits(&mut c, "6");
    set_op(&mut c, Op::Multiply);
    digits(&mut c, "7");
    equals(&mut c);
    assert_eq!(c.display_text(), "42");
    c.backspace();
    assert_eq!(c.display_text(), "42");
    c.push_digit('1');
    assert_eq!(c.display_text(), "1");
}

#[test]
fn keys_from_characters() {
    assert_eq!(Key::from_char('7'), Some(Key::Digit('7')));
    assert_eq!(Key::from_char('.'), Some(Key::Dot));
    assert_eq!(Key::from_char('+'), Some(Key::Operator(Op::Add)));
    assert_eq!(Key::from_char('-'), Some(Key::Operator(Op::Subtract)));
    assert_eq!(Key::from_char('/'), Some(Key::Operator(Op::Divide)));
    assert_eq!(Key::from_char('*'), Some(Key::Operator(Op::Multiply)));
    assert_eq!(Key::from_char('a'), None);
    assert_eq!(Key::from_char('='), None);
}

#[test]
fn operator_symbols() {
    assert_eq!(Op::from_symbol('×'), Some(Op::Multiply));
    assert_eq!(Op::from_symbol('x'), Some(Op::Multiply));
    assert_eq!(Op::from_symbol('*'), Some(Op::Multiply));
    assert_eq!(Op::from_symbol('/'), Some(Op::Divide));
    assert_eq!(Op::from_symbol('?'), None);
    for op in [Op::Add, Op::Subtract, Op::Multiply, Op::Divide] {
        assert_eq!(Op::from_symbol(op.symbol()), Some(op));
    }
    assert_eq!(Op::Divide.symbol(), '÷');
}

#[test]
fn press_drives_engine() {
    let mut c = Calculator::new();
    for ch in "12.5*2".chars() {
        let w = c.press(Key::from_char(ch).unwrap());
        run(&mut c, w);
    }
    let w = c.press(Key::Equals);
    run(&mut c, w);
    assert_eq!(c.display_text(), "25");
    let w = c.press(Key::PlusMinus);
    run(&mut c, w);
    assert_eq!(c.display_text(), "-25");
    let w = c.press(Key::Clear);
    assert_eq!(w, Work::Done);
    assert_eq!(c.shown_text(), "0");
}

#[test]
fn answers_out_of_turn_are_ignored() {
    let mut c = Calculator::new();
    digits(&mut c, "5");
    assert_eq!(c.supply_operand(Some(num(9.0))), Work::Done);
    assert_eq!(c.supply_result(num(9.0)), Work::Done);
    assert_eq!(c.supply_rendering("9.000000000000"), Work::Done);
    assert_eq!(c.display_text(), "5");
    assert_eq!(val(c.accumulator()), 0.0);
}

#[test]
fn negate_flips_sign_only() {
    assert_eq!(val(num(3.5).negate()), -3.5);
    assert_eq!(num(0.0).negate(), num(-0.0));
    assert!(num(-0.0).is_zero());
    assert!(!num(1e-300).is_zero());
}
