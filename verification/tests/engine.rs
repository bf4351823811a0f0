use retrocalc::binary64::POSITIVE_ZERO;
use retrocalc::engine::{CalcError, Engine, Op, Request};
use retrocalc::readout::{scientific, trim_fraction, trim_pasted};

/// Carries out a computation the engine asks for, in binary64 arithmetic.
fn compute(req: &Request) -> u64 {
    match req {
        Request::Apply { op, lhs, rhs } => {
            let a = f64::from_bits(*lhs);
            let b = f64::from_bits(*rhs);
            let r = match op {
                Op::Add => a + b,
                Op::Sub => a - b,
                Op::Mul => a * b,
                Op::Div => a / b,
            };
            r.to_bits()
        }
        Request::SquareRoot { value } => f64::from_bits(*value).sqrt().to_bits(),
        Request::Reciprocal { value } => (1.0 / f64::from_bits(*value)).to_bits(),
        Request::Percent { acc, value } => {
            (f64::from_bits(*acc) * f64::from_bits(*value) / 100.0).to_bits()
        }
        Request::Parse { text } => text.parse::<f64>().unwrap_or(0.0).to_bits(),
    }
}

fn answer(req: Option<Request>) -> u64 {
    req.map(|r| compute(&r)).unwrap_or(0)
}

fn format_number(v: f64) -> String {
    if !v.is_finite() {
        return "Overflow".to_string();
    }
    if v == 0.0 {
        return "0".to_string();
    }
    let abs = v.abs();
    if !(1e-4..1e16).contains(&abs) {
        return format_scientific(v);
    }
    let exp = abs.log10().floor() as i32;
    let decimals = (15 - 1 - exp).clamp(0, 15) as usize;
    trim_fraction(&format!("{v:.decimals$}"))
}

fn format_scientific(v: f64) -> String {
    scientific(&format!("{v:.14e}"))
}

fn formatted(eng: &Engine) -> String {
    format_number(f64::from_bits(eng.value_bits()))
}

fn display(eng: &Engine) -> String {
    eng.display(formatted(eng))
}

fn clipboard(eng: &Engine) -> String {
    eng.clipboard_text(formatted(eng))
}

fn digit(eng: &mut Engine, d: u8) {
    let a = answer(eng.digit_request(d));
    eng.input_digit(d, a);
}

fn dot(eng: &mut Engine) {
    let a = answer(eng.dot_request());
    eng.input_dot(a);
}

fn op(eng: &mut Engine, o: Op) {
    let a = answer(eng.op_request());
    eng.input_op(o, a);
}

fn equals(eng: &mut Engine) {
    let a = answer(eng.equals_request());
    eng.equals(a);
}

fn paste(eng: &mut Engine, text: &str) {
    let parsed = trim_pasted(text).parse::<f64>().ok().map(|v| v.to_bits());
    eng.paste(parsed);
}

fn press(eng: &mut Engine, ch: char) {
    match ch {
        '0'..='9' => digit(eng, ch as u8 - b'0'),
        '.' => dot(eng),
        '+' => op(eng, Op::Add),
        '-' => op(eng, Op::Sub),
        '*' => op(eng, Op::Mul),
        '/' => op(eng, Op::Div),
        '=' => equals(eng),
        'r' => {
            let a = answer(eng.reciprocal_request());
            eng.reciprocal(a)
        }
        'q' => {
            let a = answer(eng.sqrt_request());
            eng.sqrt(a)
        }
        '%' => {
            let a = answer(eng.percent_request());
            eng.percent(a)
        }
        '~' => {
            let a = answer(eng.negate_request());
            eng.negate(a)
        }
        'b' => {
            let a = answer(eng.backspace_request());
            eng.backspace(a)
        }
        'c' => eng.clear_all(),
        'e' => eng.clear_entry(),
        'M' => eng.memory_store(),
        'R' => eng.memory_recall(),
        'P' => {
            let a = answer(eng.memory_add_request());
            eng.memory_add(a)
        }
        'L' => eng.memory_clear(),
        ' ' => {}
        other => panic!("unknown key in script: {other:?}"),
    }
}

/// Feed an engine a compact script of keystrokes and return what the display
/// reads afterward: digits, `.`, the four operators, `=`, plus `r` (1/x), `q`
/// (sqrt), `%`, `~` (+/-), `b` (Backspace), `c` (C), `e` (CE).
fn run(script: &str) -> String {
    let mut eng = Engine::new();
    for ch in script.chars() {
        press(&mut eng, ch);
    }
    display(&eng)
}

fn engine_after(script: &str) -> Engine {
    let mut eng = Engine::new();
    for ch in script.chars() {
        press(&mut eng, ch);
    }
    eng
}

#[test]
fn types_and_shows_a_number() {
    assert_eq!(run("123"), "123");
    assert_eq!(run("0"), "0");
    assert_eq!(run("007"), "7");
    assert_eq!(run("3.14"), "3.14");
    assert_eq!(run("0.5"), "0.5");
    // A bare decimal point opens "0."
    assert_eq!(run("."), "0.");
}

#[test]
fn basic_arithmetic() {
    assert_eq!(run("2+3="), "5");
    assert_eq!(run("10-4="), "6");
    assert_eq!(run("6*7="), "42");
    assert_eq!(run("20/4="), "5");
}

#[test]
fn immediate_execution_has_no_precedence() {
    // (2 + 3) * 4 = 20, the Win 3.1 standard-view behaviour.
    assert_eq!(run("2+3*4="), "20");
}

#[test]
fn chained_operators_resolve_left_to_right() {
    assert_eq!(run("1+2+3+4="), "10");
    assert_eq!(run("100-1-2-3="), "94");
}

#[test]
fn pressing_two_operators_swaps_the_pending_one() {
    // 5 +, then changed mind to ×: 5 × 3 = 15, the + never applied.
    assert_eq!(run("5+*3="), "15");
}

#[test]
fn repeated_equals_replays_the_last_operation() {
    assert_eq!(run("5+3=="), "11");
    assert_eq!(run("5+3==="), "14");
    // 2 × 3 = 6, = again → 6 × 3 = 18.
    assert_eq!(run("2*3=="), "18");
}

#[test]
fn equals_then_new_number_repeats_on_it() {
    // 5 + 3 = 8; type 10, =, → 10 + 3 = 13.
    assert_eq!(run("5+3=10="), "13");
}

#[test]
fn divide_by_zero_latches_an_error() {
    assert_eq!(run("5/0="), "Cannot divide by zero");
    // Latched: an operator (or another `=`) is ignored, the error stays…
    assert_eq!(run("5/0=+"), "Cannot divide by zero");
    assert_eq!(run("5/0=="), "Cannot divide by zero");
    // …but a digit clears it and starts fresh.
    assert_eq!(run("5/0=7"), "7");
    // C also clears it.
    assert_eq!(run("5/0=c"), "0");
}

#[test]
fn sign_toggle() {
    assert_eq!(run("5~"), "-5");
    assert_eq!(run("5~~"), "5");
    // While typing, the sign flips in place and you can keep going.
    assert_eq!(run("5~3"), "-53");
    // Negating zero stays zero (never "-0").
    assert_eq!(run("0~"), "0");
    assert_eq!(run("3-8=~"), "5");
}

#[test]
fn square_root() {
    assert_eq!(run("9q"), "3");
    assert_eq!(run("2q"), "1.4142135623731");
    // sqrt feeds the pending operator: 5 + sqrt(9) = 8.
    assert_eq!(run("5+9q="), "8");
    assert_eq!(run("4~q"), "Invalid input");
}

#[test]
fn reciprocal() {
    assert_eq!(run("4r"), "0.25");
    assert_eq!(run("0r"), "Cannot divide by zero");
}

#[test]
fn percent_of_the_accumulator() {
    // 200 + 10% = 200 + 20 = 220.
    assert_eq!(run("200+10%="), "220");
    // 50 - 10% = 50 - 5 = 45.
    assert_eq!(run("50-10%="), "45");
    // No pending operator: percent yields zero.
    assert_eq!(run("50%"), "0");
}

#[test]
fn backspace_edits_the_entry_only() {
    assert_eq!(run("123b"), "12");
    assert_eq!(run("123bb"), "1");
    assert_eq!(run("123bbb"), "0");
    // Backspacing past the start parks at 0.
    assert_eq!(run("5bb"), "0");
    // A finished result can't be backspaced into.
    assert_eq!(run("2+3=b"), "5");
    // Backspace then keep typing.
    assert_eq!(run("12b3"), "13");
}

#[test]
fn clear_entry_keeps_the_pending_operation() {
    // 9 + 5, CE clears the 5, type 1, = → 9 + 1 = 10.
    assert_eq!(run("9+5e1="), "10");
}

#[test]
fn clear_all_resets_to_zero() {
    assert_eq!(run("9+5c"), "0");
    assert_eq!(run("9+5c3="), "3");
}

#[test]
fn memory_register() {
    let mut eng = Engine::new();
    assert!(!eng.memory_active());

    // Store 7.
    digit(&mut eng, 7);
    eng.memory_store();
    assert!(eng.memory_active());

    // Recall it after clearing.
    eng.clear_all();
    eng.memory_recall();
    assert_eq!(display(&eng), "7");

    // M+ accumulates: 7 + 3 in memory = 10.
    eng.clear_all();
    digit(&mut eng, 3);
    press(&mut eng, 'P');
    eng.clear_all();
    eng.memory_recall();
    assert_eq!(display(&eng), "10");

    // MC empties it.
    eng.memory_clear();
    assert!(!eng.memory_active());
}

#[test]
fn clear_all_preserves_memory() {
    let mut eng = Engine::new();
    digit(&mut eng, 5);
    eng.memory_store();
    eng.clear_all();
    assert!(eng.memory_active(), "C must not wipe memory");
}

#[test]
fn formatting_hides_float_noise() {
    // The canonical floating-point gotcha reads cleanly.
    assert_eq!(run("0.1+0.2="), "0.3");
    assert_eq!(run("1/3="), "0.333333333333333");
}

#[test]
fn very_large_results_use_scientific_notation() {
    // 1e8 * 1e8 = 1e16, just past the fixed-notation band.
    let out = run("100000000*100000000=");
    assert_eq!(out, "1e+16");
}

#[test]
fn clipboard_text_is_a_clean_number() {
    let mut eng = Engine::new();
    dot(&mut eng);
    digit(&mut eng, 5);
    // Display echoes the typed "0.5"…
    assert_eq!(display(&eng), "0.5");
    // …and the clipboard sees a clean value too.
    assert_eq!(clipboard(&eng), "0.5");

    eng.clear_all();
    digit(&mut eng, 2);
    op(&mut eng, Op::Add);
    digit(&mut eng, 3);
    equals(&mut eng);
    assert_eq!(clipboard(&eng), "5");
}

#[test]
fn paste_replaces_the_display() {
    let mut eng = Engine::new();
    digit(&mut eng, 9);
    paste(&mut eng, "  42.5 ");
    assert_eq!(display(&eng), "42.5");
    // Pasted value works as an operand.
    op(&mut eng, Op::Mul);
    digit(&mut eng, 2);
    equals(&mut eng);
    assert_eq!(display(&eng), "85");
    // Garbage is ignored.
    paste(&mut eng, "not a number");
    assert_eq!(display(&eng), "85");
}

// -- further cases -----------------------------------------------------------

#[test]
fn error_messages_name_each_failure() {
    assert_eq!(CalcError::DivByZero.message(), "Cannot divide by zero");
    assert_eq!(CalcError::Invalid.message(), "Invalid input");
    assert_eq!(CalcError::Overflow.message(), "Overflow");
}

#[test]
fn overflow_latches_an_error() {
    // 1e300 * 1e300 overflows to infinity.
    let mut eng = Engine::new();
    paste(&mut eng, "1e300");
    op(&mut eng, Op::Mul);
    paste(&mut eng, "1e300");
    equals(&mut eng);
    assert!(eng.is_error());
    assert_eq!(display(&eng), "Overflow");
    // The clipboard gets nothing while an error is latched.
    assert_eq!(clipboard(&eng), "");
}

#[test]
fn reciprocal_overflow_and_percent_overflow() {
    let mut eng = Engine::new();
    paste(&mut eng, "1e-320");
    press(&mut eng, 'r');
    assert_eq!(display(&eng), "Overflow");

    let mut eng = Engine::new();
    paste(&mut eng, "1e300");
    op(&mut eng, Op::Add);
    paste(&mut eng, "1e300");
    press(&mut eng, '%');
    assert_eq!(display(&eng), "Overflow");
}

#[test]
fn entry_is_capped_at_sixteen_digits() {
    assert_eq!(run("12345678901234567890"), "1234567890123456");
    assert_eq!(run("0.1234567890123456789"), "0.123456789012345");
    assert_eq!(run("0.12345678901234567"), "0.123456789012345");
}

#[test]
fn second_decimal_point_is_ignored() {
    assert_eq!(run("1.2.3"), "1.23");
    assert_eq!(run("..5"), "0.5");
}

#[test]
fn negative_zero_entry_flips_to_zero_and_stays() {
    // "0." → "-0." → Backspace → "-0"; +/- then reads "0", and again leaves it.
    assert_eq!(run("0.~"), "-0.");
    assert_eq!(run("0.~b"), "-0");
    assert_eq!(run("0.~b~"), "0");
    assert_eq!(run("0.~b~~"), "0");
    // A digit typed onto "-0" replaces the zero.
    assert_eq!(run("0.~b5"), "-5");
}

#[test]
fn sign_twice_restores_a_finished_value() {
    let before = engine_after("7*6=");
    let after = engine_after("7*6=~~");
    assert_eq!(before.value_bits(), after.value_bits());
    assert_eq!(display(&after), "42");
}

#[test]
fn errors_block_every_key_but_digits_point_and_clears() {
    for key in ['+', '-', '*', '/', '=', 'r', 'q', '%', '~', 'b', 'M', 'R', 'P'] {
        let mut eng = engine_after("5/0=");
        press(&mut eng, key);
        assert_eq!(display(&eng), "Cannot divide by zero", "key {key:?}");
    }
    assert_eq!(run("5/0=."), "0.");
    assert_eq!(run("5/0=e"), "0");
    // MC clears memory but keeps the error.
    assert_eq!(run("5/0=L"), "Cannot divide by zero");
}

#[test]
fn memory_survives_errors_and_recovery() {
    let mut eng = engine_after("8M5/0=");
    assert!(eng.memory_active());
    digit(&mut eng, 1);
    eng.memory_recall();
    assert_eq!(display(&eng), "8");
}

#[test]
fn percent_without_operator_requests_nothing() {
    let eng = engine_after("50");
    assert!(eng.percent_request().is_none());
    let eng = engine_after("50+");
    assert!(eng.percent_request().is_some());
}

#[test]
fn division_by_zero_asks_for_no_computation() {
    let eng = engine_after("5/0");
    assert!(eng.equals_request().is_none());
    let eng = engine_after("5/2");
    assert!(eng.equals_request().is_some());
}

#[test]
fn paste_recovers_from_an_error_but_ignores_infinity() {
    let mut eng = engine_after("5/0=");
    paste(&mut eng, "inf");
    assert!(eng.is_error());
    paste(&mut eng, "12");
    assert!(!eng.is_error());
    assert_eq!(display(&eng), "12");
}

#[test]
fn sqrt_of_negative_zero_is_fine() {
    // -0 is not below zero.
    assert_eq!(run("0~q"), "0");
}

#[test]
fn repeated_equals_after_division() {
    assert_eq!(run("100/2=="), "25");
}

#[test]
fn new_engine_shows_zero() {
    let eng = Engine::new();
    assert_eq!(eng.value_bits(), POSITIVE_ZERO);
    assert_eq!(display(&eng), "0");
    assert!(!eng.is_error());
    let d = Engine::default();
    assert_eq!(d.value_bits(), POSITIVE_ZERO);
}

#[test]
fn an_operator_then_equals_uses_the_total_as_operand() {
    // `5 + + =` means 5 + 5 rather than applying twice.
    assert_eq!(run("5++="), "10");
    assert_eq!(run("5+="), "10");
}

#[test]
fn memory_add_and_recall_feed_the_pending_operator() {
    assert_eq!(run("4MP c R"), "8");
    assert_eq!(run("4M c 10+R="), "14");
}

#[test]
fn backspace_undoes_the_digit_just_typed() {
    let before = engine_after("12.5");
    let after = engine_after("12.57b");
    assert_eq!(display(&after), display(&before));
    assert_eq!(clipboard(&after), clipboard(&before));
    assert_eq!(after.value_bits(), before.value_bits());
}

#[test]
fn sign_twice_restores_a_typed_entry() {
    let before = engine_after("12.5");
    let after = engine_after("12.5~~");
    assert_eq!(display(&after), "12.5");
    assert_eq!(clipboard(&after), clipboard(&before));
    assert_eq!(after.value_bits(), before.value_bits());
}
