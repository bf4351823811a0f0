//! Properties of the calculator that span keys, sequences of keys, or every
//! state: what each key keeps, what a latched error blocks, how chains and
//! repeated `=` resolve, and how the pad is laid out and pressed.

use vstd::prelude::*;

use crate::binary64::{
    is_finite, is_negative, is_zero, lemma_negate_involutive, lemma_positive_zero, POSITIVE_ZERO,
};
use crate::engine::{entry_value, CalcError, CalcState, Op, RequestView};
use crate::entry::{
    digit_char, digit_count, entry_backspaced, entry_negated, entry_with_digit, magnitude, lemma_digit_count_single, lemma_entry_backspaced_ok,
    lemma_entry_negated_ok, lemma_entry_negated_twice, lemma_entry_with_digit_ok,
    lemma_entry_with_dot_ok, lemma_fresh_entry_ok, lemma_trim_dots_ok, sign_edits_entry,
    entry_ok, is_digit, is_zero_text, lemma_digit_count_push, trim_dots, MAX_DIGITS,
};
use crate::keypad::{
    handled, key_pressed, key_request, quiet, InputEvent, KeyAction, KeyTracker, MouseButton,
};
use crate::keys::{ascii_lower, char_btn, ctrl_btn, named_btn, Btn, Key, Modifiers, NamedKey};
use crate::layout::{
    block_x, grid_y, key_at, layout_fits, layout_keys, over_key, rect_of, strip_y, Point, Rect,
    NATURAL_HEIGHT, NATURAL_WIDTH,
};

verus! {

/// Every key keeps the engine's state well formed: an entry never holds more
/// than `MAX_DIGITS` digits or a second point, and nothing is typed while an
/// error is latched.
pub proof fn law_keys_keep_state_well_formed(s: CalcState, btn: Btn, answer: u64)
    requires
        s.wf(),
        btn.valid(),
    ensures
        key_pressed(s, btn, answer).wf(),
{
    lemma_fresh_entry_ok();
    lemma_digit_count_single('0');
    match btn {
        Btn::Digit(d) => {
            let e = s.typing_base();
            if digit_count(e) < MAX_DIGITS {
                lemma_entry_with_digit_ok(e, d);
            }
        },
        Btn::Dot => {
            if let Some(e) = s.recovered().entry {
                lemma_entry_with_dot_ok(e);
            }
        },
        Btn::Neg => {
            if let Some(e) = s.entry {
                lemma_entry_negated_ok(e);
            }
        },
        Btn::Back => {
            if let Some(e) = s.entry {
                lemma_entry_backspaced_ok(e);
            }
        },
        _ => {},
    }
}

/// A paste keeps the engine's state well formed.
pub proof fn law_paste_keeps_state_well_formed(s: CalcState, parsed: Option<u64>)
    requires
        s.wf(),
    ensures
        s.pasted(parsed).wf(),
{
}

/// While an error is latched, every key but a digit, the point, `C`, `CE` and
/// `MC` is ignored — whatever the caller answers — and asks for no
/// computation.
pub proof fn law_error_latches(s: CalcState, btn: Btn, answer: u64)
    requires
        s.wf(),
        s.error is Some,
        !(btn is Digit || btn is Dot || btn is ClearAll || btn is ClearEntry || btn is MemClear),
    ensures
        key_pressed(s, btn, answer) == s,
        key_request(s, btn) is None,
{
}

/// A digit or the point typed over a latched error starts a clean slate: the
/// error is gone and the memory register survives.
pub proof fn law_typing_recovers_from_error(s: CalcState, btn: Btn, answer: u64)
    requires
        s.wf(),
        s.error is Some,
        btn is Digit || btn is Dot,
        btn.valid(),
    ensures
        key_pressed(s, btn, answer).error is None,
        key_pressed(s, btn, answer).memory == s.memory,
        key_pressed(s, btn, answer).pending is None,
{
    lemma_digit_count_single('0');
}

/// `C` resets everything except the memory register.
pub proof fn law_clear_all_keeps_only_memory(s: CalcState)
    ensures
        s.cleared().memory == s.memory,
        (CalcState { memory: POSITIVE_ZERO, ..s.cleared() }) == CalcState::initial(),
{
}

/// `CE` clears the entry (and any error) but keeps the pending operator, the
/// running total, the remembered `=` operation and the memory.
pub proof fn law_clear_entry_keeps_the_operation(s: CalcState)
    ensures
        s.entry_cleared().pending == s.pending,
        s.entry_cleared().acc == s.acc,
        s.entry_cleared().repeat == s.repeat,
        s.entry_cleared().memory == s.memory,
        s.entry_cleared().error is None,
        s.entry_cleared().entry is None,
        s.entry_cleared().value == POSITIVE_ZERO,
{
}

/// Pressing a second operator right after the first only swaps which one is
/// armed: nothing is computed and the running total is untouched.
pub proof fn law_second_operator_swaps(s: CalcState, first: Op, second: Op, raw1: u64, raw2: u64)
    requires
        s.wf(),
        s.error is None,
    ensures
        ({
            let t = s.operator_pressed(first, raw1);
            t.error is None ==> {
                &&& t.operator_request() is None
                &&& t.operator_pressed(second, raw2) == CalcState { pending: Some(second), ..t }
            }
        }),
{
}

/// Immediate execution: an operator resolves the pending one against the
/// running total and the display before arming itself, so chains compute
/// left to right with no precedence.
pub proof fn law_operators_resolve_left_to_right(s: CalcState, p: Op, op: Op, raw: u64)
    requires
        s.wf(),
        s.error is None,
        s.pending == Some(p),
        s.operand_ready,
    ensures
        p.computes(s.value) ==> s.operator_request() == Some(
            RequestView::Apply { op: p, lhs: s.acc, rhs: s.value },
        ),
        p.outcome(s.value, raw) matches Ok(v) ==> {
            let t = s.operator_pressed(op, raw);
            &&& t.acc == v
            &&& t.value == v
            &&& t.pending == Some(op)
            &&& t.error is None
        },
        p.outcome(s.value, raw) matches Err(e) ==> s.operator_pressed(op, raw).error == Some(e),
{
}

/// The first operator of a chain takes the display as the running total.
pub proof fn law_first_operator_seeds_total(s: CalcState, op: Op, raw: u64)
    requires
        s.wf(),
        s.error is None,
        s.pending is None,
    ensures
        s.operator_request() is None,
        s.operator_pressed(op, raw).acc == s.value,
        s.operator_pressed(op, raw).pending == Some(op),
{
}

/// `=` remembers the operator and right operand it resolved, and a repeated
/// `=` replays them on the result: `5 + 3 =` then `=` computes `8 + 3`.
pub proof fn law_repeated_equals_replays(s: CalcState, op: Op, raw: u64)
    requires
        s.wf(),
        s.error is None,
        s.pending == Some(op),
        op.outcome(s.value, raw) is Ok,
    ensures
        ({
            let t = s.equals_pressed(raw);
            &&& t.repeat == Some((op, s.value))
            &&& t.pending is None
            &&& t.value == raw
            &&& op.computes(s.value) ==> t.equals_request() == Some(
                RequestView::Apply { op, lhs: raw, rhs: s.value },
            )
        }),
{
}

/// The caller's answer matters only when a computation was requested.
pub proof fn law_answer_unused_without_request(s: CalcState, btn: Btn, a1: u64, a2: u64)
    requires
        s.wf(),
        btn.valid(),
        key_request(s, btn) is None,
    ensures
        key_pressed(s, btn, a1) == key_pressed(s, btn, a2),
{
    lemma_digit_count_single('0');
}

/// The sign key twice restores the readout and the entry, and on a finished
/// value restores the state exactly. On a typed entry the state comes back with the value
/// the entry's text reads as (`p2` being its parse), so whenever the display
/// agreed with the entry before, the whole state is restored. (An entry of
/// `-0` is the exception: its sign flips to `0`, which the sign key then
/// leaves alone.)
pub proof fn law_sign_twice_restores(s: CalcState, p1: u64, p2: u64)
    requires
        s.wf(),
        s.entry != Some(seq!['-', '0']),
    ensures
        s.sign_pressed(p1).sign_pressed(p2).entry == s.entry,
        (s.entry is None || s.entry == Some(seq!['0'])) ==> s.sign_pressed(p1).sign_pressed(p2) == s,
        (s.entry matches Some(e) && s.error is None && sign_edits_entry(e)) ==> s.sign_pressed(
            p1,
        ).sign_pressed(p2) == (CalcState { value: entry_value(s.entry.unwrap(), p2), ..s }),
        (s.entry matches Some(e) && s.value == entry_value(e, p2)) ==> s.sign_pressed(
            p1,
        ).sign_pressed(p2) == s,
        forall|f: Seq<char>| #[trigger] s.sign_pressed(p1).sign_pressed(p2).readout(f) == s.readout(f),
{
    lemma_negate_involutive(s.value);
    if let Some(e) = s.entry {
        if s.error is None && sign_edits_entry(e) {
            lemma_entry_negated_ok(e);
            lemma_entry_negated_twice(e);
            let n = entry_negated(e);
            assert(sign_edits_entry(n)) by {
                if n == seq!['0'] {
                    assert(n.len() == 1 && n[0] == '0');
                    if e.len() > 0 && e[0] == '-' {
                        assert(e =~= seq!['-', '0']);
                    } else {
                        assert(n.len() == e.len() + 1);
                        assert(e.len() == 0);
                    }
                }
            }
        }
    }
}

/// Backspace undoes the digit just typed: the readout and the entry come
/// back, and the value
/// is what the entry's text reads as (`p2` being its parse) — the state is
/// restored whenever the display agreed with the entry before, except that
/// the entry now counts as a ready operand.
pub proof fn law_backspace_undoes_a_digit(s: CalcState, d: u8, p1: u64, p2: u64)
    requires
        s.wf(),
        s.error is None,
        (s.entry matches Some(e) && e != seq!['0'] && e != seq!['-', '0'] && digit_count(e)
            < MAX_DIGITS),
        d <= 9,
    ensures
        s.digit_pressed(d, p1).backspaced(p2) == (CalcState {
            value: entry_value(s.entry.unwrap(), p2),
            operand_ready: true,
            ..s
        }),
        s.value == entry_value(s.entry.unwrap(), p2) ==> s.digit_pressed(d, p1).backspaced(p2)
            == (CalcState { operand_ready: true, ..s }),
        forall|f: Seq<char>| #[trigger] s.digit_pressed(d, p1).backspaced(p2).readout(f) == s.readout(f),
{
    let e = s.entry.unwrap();
    let c = digit_char(d);
    assert(entry_with_digit(e, d) == e.push(c));
    assert(e.push(c).drop_last() =~= e);
    assert(e != seq!['-']) by {
        if e == seq!['-'] {
            assert(magnitude(e).len() == 0);
        }
    }
    assert(e.len() > 0);
    assert(entry_backspaced(e.push(c)) == e);
}

/// The sign key on a bare `0` entry leaves the entry `0` — never `-0`.
pub proof fn law_sign_of_zero_entry(s: CalcState, parsed: u64)
    requires
        s.wf(),
        s.entry == Some(seq!['0']),
    ensures
        s.sign_pressed(parsed).entry == Some(seq!['0']),
{
}

/// Every computed result passes the finiteness gate before it reaches the
/// display: after an operator, `=`, `1/x` or `%`, the display either shows
/// what it did before, or a finite value, or an error is latched.
pub proof fn law_results_are_finite(s: CalcState, btn: Btn, answer: u64)
    requires
        s.wf(),
        btn is Add || btn is Sub || btn is Mul || btn is Div || btn is Eq || btn is Recip || btn is Percent,
    ensures
        ({
            let t = key_pressed(s, btn, answer);
            t.value == s.value || is_finite(t.value) || t.error is Some
        }),
{
    lemma_positive_zero();
}

/// Percent with no operator pending yields zero.
pub proof fn law_percent_without_operator_is_zero(s: CalcState, portion: u64)
    requires
        s.wf(),
        s.error is None,
        s.pending is None,
    ensures
        s.percent_request() is None,
        s.percent_pressed(portion).value == POSITIVE_ZERO,
        s.percent_pressed(portion).error is None,
{
    lemma_positive_zero();
}

/// A finished result can't be backspaced into.
pub proof fn law_backspace_needs_an_entry(s: CalcState, parsed: u64)
    requires
        s.entry is None,
    ensures
        s.backspaced(parsed) == s,
{
}

/// An entry at the digit cap ignores further digits.
pub proof fn law_digit_cap(s: CalcState, d: u8, parsed: u64)
    requires
        s.wf(),
        s.error is None,
        (s.entry matches Some(e) && digit_count(e) >= MAX_DIGITS),
    ensures
        s.digit_pressed(d, parsed) == s,
{
}

/// `MS` then `MR` shows the stored value again, and `C` never touches the
/// memory register.
pub proof fn law_memory_round_trip(s: CalcState)
    requires
        s.wf(),
        s.error is None,
    ensures
        s.memory_stored().memory_recalled().value == s.value,
        s.memory_stored().cleared().memory == s.value,
        s.memory_stored().cleared().memory_recalled().value == s.value,
{
}

/// A failing computation latches exactly its error: division by zero, `sqrt`
/// of a negative number, `1/0`, and results that are not finite.
pub proof fn law_failures_latch_their_error(s: CalcState, raw: u64)
    requires
        s.wf(),
        s.error is None,
    ensures
        s.pending == Some(Op::Div) && is_zero(s.value) ==> s.equals_pressed(raw).error == Some(
            CalcError::DivByZero,
        ),
        is_zero(s.value) ==> s.reciprocal_pressed(raw).error == Some(CalcError::DivByZero),
        is_negative(s.value) ==> s.sqrt_pressed(raw).error == Some(
            CalcError::Invalid,
        ),
        !is_zero(s.value) && !is_finite(raw) ==> s.reciprocal_pressed(raw).error == Some(
            CalcError::Overflow,
        ),
{
}

/// Where row and column of grid slot `k` come from.
proof fn lemma_grid_slot(k: int)
    requires
        0 <= k < 24,
    ensures
        0 <= k / 6 < 4,
        0 <= k % 6 < 6,
        k == 6 * (k / 6) + k % 6,
{
}

/// The rectangle of key `i` of the layout, spelled out: strip keys side by
/// side at the strip's top, grid keys at their row and column.
proof fn lemma_key_rect(bounds: Rect, i: int)
    requires
        layout_fits(bounds),
        0 <= i < 27,
    ensures
        ({
            let r = layout_keys(bounds)[i].1;
            let bx = block_x(bounds);
            &&& i < 3 ==> r.x == bx + 42 + 70 * i && r.y == strip_y(bounds) && r.w == 64 && r.h == 28
            &&& i >= 3 ==> {
                &&& r.x == bx + 42 * ((i - 3) % 6)
                &&& r.y == grid_y(bounds) + 34 * ((i - 3) / 6)
                &&& r.w == 36
                &&& r.h == 28
            }
        }),
{
    if i >= 3 {
        lemma_grid_slot(i - 3);
    }
}

/// With its natural size (or more), every key of the pad lies inside the
/// keypad's bounds.
pub proof fn law_keys_inside_bounds(bounds: Rect, i: int)
    requires
        layout_fits(bounds),
        bounds.w >= NATURAL_WIDTH,
        bounds.h >= NATURAL_HEIGHT,
        0 <= i < 27,
    ensures
        layout_keys(bounds)[i].1.within(bounds),
{
    lemma_key_rect(bounds, i);
    if i >= 3 {
        lemma_grid_slot(i - 3);
    }
}

/// No two keys of the pad overlap.
pub proof fn law_keys_do_not_overlap(bounds: Rect, i: int, j: int)
    requires
        layout_fits(bounds),
        0 <= i < 27,
        0 <= j < 27,
        i != j,
    ensures
        !layout_keys(bounds)[i].1.overlaps(layout_keys(bounds)[j].1),
{
    lemma_key_rect(bounds, i);
    lemma_key_rect(bounds, j);
    if i >= 3 {
        lemma_grid_slot(i - 3);
    }
    if j >= 3 {
        lemma_grid_slot(j - 3);
    }
    if i >= 3 && j >= 3 && (i - 3) % 6 == (j - 3) % 6 {
        assert((i - 3) / 6 != (j - 3) / 6);
    }
}

/// Two rectangles that hold a common point overlap.
proof fn lemma_common_point_overlaps(a: Rect, b: Rect, p: Point)
    requires
        a.holds(p),
        b.holds(p),
    ensures
        a.overlaps(b),
{
}

/// `key_at` finds the first key holding the point.
proof fn lemma_key_at_first(keys: Seq<(Btn, Rect)>, i: int, p: Point)
    requires
        0 <= i < keys.len(),
        keys[i].1.holds(p),
        forall|j: int| 0 <= j < i ==> !(#[trigger] keys[j].1.holds(p)),
    ensures
        key_at(keys, p) == Some(keys[i].0),
    decreases i,
{
    if i > 0 {
        let rest = keys.drop_first();
        assert forall|j: int| 0 <= j < i - 1 implies !(#[trigger] rest[j].1.holds(p)) by {
            assert(rest[j] == keys[j + 1]);
        }
        lemma_key_at_first(rest, i - 1, p);
    }
}

/// A click anywhere on a key reaches that key.
pub proof fn law_click_reaches_the_key(bounds: Rect, i: int, p: Point)
    requires
        layout_fits(bounds),
        0 <= i < 27,
        layout_keys(bounds)[i].1.holds(p),
    ensures
        key_at(layout_keys(bounds), p) == Some(layout_keys(bounds)[i].0),
{
    let keys = layout_keys(bounds);
    assert forall|j: int| 0 <= j < i implies !(#[trigger] keys[j].1.holds(p)) by {
        if keys[j].1.holds(p) {
            lemma_common_point_overlaps(keys[j].1, keys[i].1, p);
            law_keys_do_not_overlap(bounds, j, i);
        }
    }
    lemma_key_at_first(keys, i, p);
}

/// A calculator acts once per press: a key-down repeated while the key is
/// still held (auto-repeat) fires nothing, and neither does the text it
/// produces.
pub proof fn law_auto_repeat_fires_nothing(
    t: KeyTracker,
    keys: Seq<(Btn, Rect)>,
    key: Key,
    m: Modifiers,
    ch: char,
    m2: Modifiers,
)
    requires
        t.pending_down == Some(key),
    ensures
        ({
            let (t2, r) = t.step(InputEvent::KeyDown { key, modifiers: m }, keys);
            &&& r.action == KeyAction::Nothing
            &&& t2.step(InputEvent::Char { ch, modifiers: m2 }, keys).1.action == KeyAction::Nothing
        }),
{
}

/// A fresh press of a named key fires its key and shows it depressed until
/// that key comes back up.
pub proof fn law_named_key_fires_and_holds(t: KeyTracker, keys: Seq<(Btn, Rect)>, n: NamedKey, b: Btn)
    requires
        t.focused,
        t.pending_down != Some(Key::Named(n)),
        named_btn(n) == Some(b),
    ensures
        ({
            let key = Key::Named(n);
            let (t2, r) = t.step(InputEvent::KeyDown { key, modifiers: Modifiers::none() }, keys);
            &&& r == handled(KeyAction::Activate(b))
            &&& t2.shows_down(b)
            &&& t2.step(InputEvent::KeyUp { key, modifiers: Modifiers::none() }, keys).0.held is None
        }),
{
}

/// Typed text fires its key on a fresh press, and the key stays depressed
/// until the base key that produced the text is released — a shifted `+`
/// pops up when `=` comes up.
pub proof fn law_typed_key_held_until_base_key_up(
    t: KeyTracker,
    keys: Seq<(Btn, Rect)>,
    base: char,
    ch: char,
    b: Btn,
)
    requires
        t.focused,
        t.pending_down != Some(Key::Char(base)),
        char_btn(ch) == Some(b),
    ensures
        ({
            let key = Key::Char(base);
            let (t2, r2) = t.step(InputEvent::KeyDown { key, modifiers: Modifiers::none() }, keys);
            let (t3, r3) = t2.step(InputEvent::Char { ch, modifiers: Modifiers::none() }, keys);
            &&& r2 == quiet()
            &&& r3 == handled(KeyAction::Activate(b))
            &&& t3.shows_down(b)
            &&& t3.step(InputEvent::KeyUp { key, modifiers: Modifiers::none() }, keys).0.held is None
        }),
{
}

/// Losing focus pops a held key up, so none stays stuck.
pub proof fn law_focus_loss_releases(t: KeyTracker)
    ensures
        t.focus_set(false).held is None,
        t.focus_set(false).held_key is None,
        t.focus_set(false).pending_down is None,
{
}

/// A mouse press fires only when released over the same key: releasing off
/// it cancels, and either way the key pops back up.
pub proof fn law_release_fires_only_over_the_key(
    t: KeyTracker,
    keys: Seq<(Btn, Rect)>,
    b: Btn,
    pos: Point,
)
    requires
        t.pressed == Some(b),
    ensures
        ({
            let (t2, r) = t.step(InputEvent::PointerUp { pos, button: MouseButton::Left }, keys);
            &&& t2.pressed is None
            &&& r.action == if over_key(keys, b, pos) {
                KeyAction::Activate(b)
            } else {
                KeyAction::Nothing
            }
        }),
{
}

/// The result of `sqrt`, `1/x`, `%` or `MR` reads as a ready operand: a
/// following `=` applies the pending operator to it, so `5 + 9 sqrt =`
/// computes `5 + 3`.
pub proof fn law_unary_result_is_an_operand(s: CalcState, op: Op, v: u64)
    requires
        s.wf(),
        s.error is None,
        s.pending == Some(op),
        op.computes(v),
    ensures
        s.showing(v).operand_ready,
        s.showing(v).equals_request() == Some(RequestView::Apply { op, lhs: s.acc, rhs: v }),
        !is_negative(s.value) ==> s.sqrt_pressed(v) == s.showing(v),
        s.memory_recalled() == s.showing(s.memory),
{
}

/// Dragging with a key held re-arms it exactly while the pointer is over that
/// key, and a move without a held key changes nothing.
pub proof fn law_drag_tracks_the_pressed_key(t: KeyTracker, keys: Seq<(Btn, Rect)>, pos: Point)
    ensures
        ({
            let (t2, r) = t.step(InputEvent::PointerMove { pos }, keys);
            &&& r.action == KeyAction::Nothing
            &&& (t.pressed matches Some(b) ==> t2.over == over_key(keys, b, pos) && t2.pressed == t.pressed)
            &&& (t.pressed is None ==> t2 == t)
        }),
{
}

/// `AltGr` (reported as Ctrl+Alt) composes characters: a key-down with it
/// never copies, pastes or reaches a memory key.
pub proof fn law_altgr_is_never_a_chord(t: KeyTracker, keys: Seq<(Btn, Rect)>, c: char, m: Modifiers)
    requires
        m.alt_graph,
    ensures
        t.step(InputEvent::KeyDown { key: Key::Char(c), modifiers: m }, keys).1 == quiet(),
{
}

/// Every text the engine asks the caller to parse is a decimal literal: an
/// optional minus sign, then digits with at most one point, never ending in
/// the point — so the parse never falls back to zero.
pub proof fn law_parse_requests_are_decimals(s: CalcState, btn: Btn)
    requires
        s.wf(),
        btn.valid(),
    ensures
        key_request(s, btn) matches Some(RequestView::Parse { text }) ==> entry_ok(text)
            && text.last() != '.',
{
    lemma_fresh_entry_ok();
    lemma_digit_count_single('0');
    match btn {
        Btn::Digit(d) => {
            let e = s.typing_base();
            if digit_count(e) < MAX_DIGITS {
                lemma_entry_with_digit_ok(e, d);
                lemma_trim_dots_ok(entry_with_digit(e, d));
            }
        },
        Btn::Dot => {
            if let Some(e) = s.recovered().entry {
                lemma_entry_with_dot_ok(e);
            }
            lemma_trim_dots_ok(s.dotted_entry());
        },
        Btn::Neg => {
            if let Some(e) = s.entry {
                lemma_entry_negated_ok(e);
                lemma_trim_dots_ok(entry_negated(e));
            }
        },
        Btn::Back => {
            if let Some(e) = s.entry {
                lemma_entry_backspaced_ok(e);
                lemma_trim_dots_ok(entry_backspaced(e));
            }
        },
        _ => {},
    }
}

/// The position of key `b` in the layout: Back, CE and C first, then the
/// grid row by row.
pub open spec fn layout_slot(b: Btn) -> int {
    match b {
        Btn::Back => 0,
        Btn::ClearEntry => 1,
        Btn::ClearAll => 2,
        Btn::MemClear => 3,
        Btn::Div => 7,
        Btn::Sqrt => 8,
        Btn::MemRecall => 9,
        Btn::Mul => 13,
        Btn::Percent => 14,
        Btn::MemStore => 15,
        Btn::Sub => 19,
        Btn::Recip => 20,
        Btn::MemAdd => 21,
        Btn::Neg => 23,
        Btn::Dot => 24,
        Btn::Add => 25,
        Btn::Eq => 26,
        Btn::Digit(d) => if d == 0 {
            22
        } else if d <= 3 {
            15 + d
        } else if d <= 6 {
            6 + d
        } else {
            d - 3
        },
    }
}

/// Key `i` of the layout sits at its own slot.
proof fn lemma_slot_of_key(bounds: Rect, i: int)
    requires
        0 <= i < 27,
    ensures
        layout_slot(layout_keys(bounds)[i].0) == i,
        layout_keys(bounds)[i].0.valid(),
{
    if i >= 3 {
        lemma_grid_slot(i - 3);
    }
}

/// Every key of the pad is at its slot.
proof fn lemma_key_at_slot(bounds: Rect, b: Btn)
    requires
        b.valid(),
    ensures
        0 <= layout_slot(b) < 27,
        layout_keys(bounds)[layout_slot(b)].0 == b,
{
    let i = layout_slot(b);
    if i >= 3 {
        lemma_grid_slot(i - 3);
    }
}

/// `rect_of` finds the first entry for a key.
proof fn lemma_rect_of_first(keys: Seq<(Btn, Rect)>, i: int, b: Btn)
    requires
        0 <= i < keys.len(),
        keys[i].0 == b,
        forall|j: int| 0 <= j < i ==> (#[trigger] keys[j]).0 != b,
    ensures
        rect_of(keys, b) == Some(keys[i].1),
    decreases i,
{
    if i > 0 {
        let rest = keys.drop_first();
        assert forall|j: int| 0 <= j < i - 1 implies (#[trigger] rest[j]).0 != b by {
            assert(rest[j] == keys[j + 1]);
        }
        lemma_rect_of_first(rest, i - 1, b);
    }
}

/// The key `key_at` finds is an entry whose rectangle holds the point.
proof fn lemma_key_at_entry(keys: Seq<(Btn, Rect)>, p: Point)
    ensures
        key_at(keys, p) matches Some(b) ==> exists|i: int|
            0 <= i < keys.len() && keys[i].0 == b && keys[i].1.holds(p),
    decreases keys.len(),
{
    if keys.len() > 0 && !keys[0].1.holds(p) {
        lemma_key_at_entry(keys.drop_first(), p);
        if let Some(b) = key_at(keys, p) {
            let rest = keys.drop_first();
            let i = choose|i: int| 0 <= i < rest.len() && rest[i].0 == b && rest[i].1.holds(p);
            assert(keys[i + 1] == rest[i]);
        }
    }
}

/// The pad holds each of its 27 keys — the ten digits, the point, the sign,
/// the four operators, `=`, `sqrt`, `%`, `1/x`, Back, CE, C and the four
/// memory keys — exactly once, whatever the bounds it was laid out in.
pub proof fn law_each_key_once(bounds: Rect)
    ensures
        layout_keys(bounds).len() == 27,
        forall|i: int, j: int|
            0 <= i < 27 && 0 <= j < 27 && i != j ==> (#[trigger] layout_keys(bounds)[i]).0
                != (#[trigger] layout_keys(bounds)[j]).0,
        forall|i: int| 0 <= i < 27 ==> (#[trigger] layout_keys(bounds)[i]).0.valid(),
        forall|b: Btn|
            b.valid() ==> exists|i: int| 0 <= i < 27 && (#[trigger] layout_keys(bounds)[i]).0 == b,
        forall|b: Btn|
            b.valid() ==> #[trigger] rect_of(layout_keys(bounds), b) == Some(
                layout_keys(bounds)[layout_slot(b)].1,
            ),
{
    let keys = layout_keys(bounds);
    assert forall|i: int, j: int|
        0 <= i < 27 && 0 <= j < 27 && i != j implies (#[trigger] keys[i]).0 != (#[trigger] keys[j]).0 by {
        lemma_slot_of_key(bounds, i);
        lemma_slot_of_key(bounds, j);
    }
    assert forall|i: int| 0 <= i < 27 implies (#[trigger] keys[i]).0.valid() by {
        lemma_slot_of_key(bounds, i);
    }
    assert forall|b: Btn| b.valid() implies exists|i: int|
        0 <= i < 27 && (#[trigger] keys[i]).0 == b by {
        lemma_key_at_slot(bounds, b);
        assert(keys[layout_slot(b)].0 == b);
    }
    assert forall|b: Btn| b.valid() implies #[trigger] rect_of(keys, b) == Some(
        keys[layout_slot(b)].1,
    ) by {
        lemma_key_at_slot(bounds, b);
        let k = layout_slot(b);
        assert forall|j: int| 0 <= j < k implies (#[trigger] keys[j]).0 != b by {
            lemma_slot_of_key(bounds, j);
        }
        lemma_rect_of_first(keys, k, b);
    }
}

/// A key found under a point has its rectangle holding that point, so a key
/// pressed at a point reads as under the pointer there.
pub proof fn law_found_key_holds_the_point(bounds: Rect, p: Point, b: Btn)
    requires
        key_at(layout_keys(bounds), p) == Some(b),
    ensures
        over_key(layout_keys(bounds), b, p),
        rect_of(layout_keys(bounds), b) matches Some(r) && r.holds(p),
{
    let keys = layout_keys(bounds);
    lemma_key_at_entry(keys, p);
    let i = choose|i: int| 0 <= i < keys.len() && keys[i].0 == b && keys[i].1.holds(p);
    lemma_slot_of_key(bounds, i);
    law_each_key_once(bounds);
    assert(rect_of(keys, b) == Some(keys[layout_slot(b)].1));
}

/// `%` with an operator pending asks for that share of the running total,
/// shows it as a ready operand, and leaves the pending operation alone: a
/// following operator resolves the pending one with the percentage, so
/// `200 + 10 % + 5 =` computes `(200 + 20) + 5`.
pub proof fn law_percent_is_a_ready_operand(s: CalcState, op: Op, portion: u64, next: Op, raw: u64)
    requires
        s.wf(),
        s.error is None,
        s.pending == Some(op),
        is_finite(portion),
    ensures
        s.percent_request() == Some(RequestView::Percent { acc: s.acc, value: s.value }),
        ({
            let t = s.percent_pressed(portion);
            &&& t.value == portion
            &&& t.operand_ready
            &&& t.entry is None
            &&& t.error is None
            &&& t.pending == s.pending
            &&& t.acc == s.acc
            &&& t.memory == s.memory
            &&& op.computes(portion) ==> t.operator_request() == Some(
                RequestView::Apply { op, lhs: s.acc, rhs: portion },
            )
            &&& (op.outcome(portion, raw) matches Ok(v) ==> t.operator_pressed(next, raw).acc == v
                && t.operator_pressed(next, raw).pending == Some(next))
            &&& op.computes(portion) ==> t.equals_request() == Some(
                RequestView::Apply { op, lhs: s.acc, rhs: portion },
            )
        }),
        !is_finite(portion) ==> s.percent_pressed(portion).error == Some(CalcError::Overflow),
{
}

/// `sqrt` and `1/x` act on the number on the display — not on the running
/// total — and show their result as a ready operand, leaving the pending
/// operation, the total and the memory alone.
pub proof fn law_unary_keys_act_on_the_display(s: CalcState, x: u64)
    requires
        s.wf(),
        s.error is None,
    ensures
        !is_zero(s.value) ==> s.reciprocal_request() == Some(
            RequestView::Reciprocal { value: s.value },
        ),
        is_zero(s.value) ==> s.reciprocal_request() is None,
        !is_negative(s.value) ==> s.sqrt_request() == Some(RequestView::SquareRoot { value: s.value }),
        is_negative(s.value) ==> s.sqrt_request() is None,
        !is_zero(s.value) && is_finite(x) ==> ({
            let t = s.reciprocal_pressed(x);
            &&& t.value == x
            &&& t.operand_ready
            &&& t.entry is None
            &&& t.error is None
            &&& t.pending == s.pending
            &&& t.acc == s.acc
            &&& t.memory == s.memory
        }),
        !is_negative(s.value) ==> ({
            let t = s.sqrt_pressed(x);
            &&& t.value == x
            &&& t.operand_ready
            &&& t.entry is None
            &&& t.error is None
            &&& t.pending == s.pending
            &&& t.acc == s.acc
            &&& t.memory == s.memory
        }),
{
}

/// The memory keys act on the register as their names say, and `MS`, `M+`
/// and `MR` finish the entry: the next digit starts a fresh number.
pub proof fn law_memory_keys(s: CalcState, sum: u64, d: u8, p: u64)
    requires
        s.wf(),
        s.error is None,
        d <= 9,
    ensures
        s.memory_stored().memory == s.value,
        s.memory_stored().value == s.value,
        s.memory_stored().entry is None,
        s.memory_stored().pending == s.pending,
        s.memory_stored().acc == s.acc,
        s.memory_stored().digit_pressed(d, p).entry == Some(seq![digit_char(d)]),
        s.memory_add_request() == Some(RequestView::Apply { op: Op::Add, lhs: s.memory, rhs: s.value }),
        s.memory_added(sum).memory == sum,
        s.memory_added(sum).value == s.value,
        s.memory_added(sum).entry is None,
        s.memory_added(sum).digit_pressed(d, p).entry == Some(seq![digit_char(d)]),
        s.memory_recalled().value == s.memory,
        s.memory_recalled().memory == s.memory,
        s.memory_recalled().entry is None,
        s.memory_recalled().operand_ready,
        s.memory_recalled().digit_pressed(d, p).entry == Some(seq![digit_char(d)]),
        s.memory_cleared().memory == POSITIVE_ZERO,
        (CalcState { memory: s.memory, ..s.memory_cleared() }) == s,
{
    lemma_digit_count_single('0');
    assert(entry_with_digit(seq!['0'], d) =~= seq![digit_char(d)]);
}

/// An operator and `=` finish the entry too: the next digit starts a fresh
/// number.
pub proof fn law_operators_finish_the_entry(s: CalcState, op: Op, raw: u64, d: u8, p: u64)
    requires
        s.wf(),
        d <= 9,
    ensures
        s.operator_pressed(op, raw).entry is None,
        s.equals_pressed(raw).entry is None,
        s.operator_pressed(op, raw).error is None ==> s.operator_pressed(op, raw).digit_pressed(
            d,
            p,
        ).entry == Some(seq![digit_char(d)]),
        s.equals_pressed(raw).error is None ==> s.equals_pressed(raw).digit_pressed(d, p).entry
            == Some(seq![digit_char(d)]),
{
    lemma_digit_count_single('0');
    assert(entry_with_digit(seq!['0'], d) =~= seq![digit_char(d)]);
}

/// Backspace removes the last typed character: what is left is the entry
/// without it, or `0` when nothing but (at most) a minus sign would remain.
/// A digit removed is a digit fewer, unless the entry parks at `0`.
pub proof fn law_backspace_removes_the_last_character(e: Seq<char>)
    requires
        entry_ok(e),
    ensures
        entry_backspaced(e) == e.drop_last() || (entry_backspaced(e) == seq!['0']
            && is_zero_text(e.drop_last())),
        entry_backspaced(e).len() < e.len() || entry_backspaced(e) == seq!['0'],
        is_digit(e.last()) && entry_backspaced(e) != seq!['0'] ==> digit_count(entry_backspaced(e))
            + 1 == digit_count(e),
{
    let t = e.drop_last();
    assert(t.push(e.last()) =~= e);
    lemma_digit_count_push(t, e.last());
    if t.len() == 0 {
        assert(t =~= Seq::<char>::empty());
    }
}

/// Backspace on a typed number edits only the entry (see
/// `law_backspace_removes_the_last_character`); the value follows the edited
/// text, and the lone digit of a negative number (`-5`) leaves a `0`.
pub proof fn law_backspace_edits_the_entry(s: CalcState, p: u64)
    requires
        s.wf(),
        s.error is None,
        s.entry is Some,
    ensures
        ({
            let e = s.entry.unwrap();
            let t = s.backspaced(p);
            &&& t.entry == Some(entry_backspaced(e))
            &&& t.value == entry_value(entry_backspaced(e), p)
            &&& (CalcState { entry: s.entry, value: s.value, ..t }) == s
            &&& (e.len() == 2 && e[0] == '-') ==> t.entry == Some(seq!['0'])
        }),
{
    let e = s.entry.unwrap();
    if e.len() == 2 && e[0] == '-' {
        assert(e.drop_last() =~= seq!['-']);
    }
}

/// The sign key on a typed number flips its sign and keeps its digits:
/// the magnitude stays, and exactly one of the two has a leading minus.
pub proof fn law_sign_flips_a_typed_number(e: Seq<char>)
    requires
        entry_ok(e),
    ensures
        magnitude(entry_negated(e)) == magnitude(e),
        (entry_negated(e)[0] == '-') != (e[0] == '-'),
        digit_count(entry_negated(e)) == digit_count(e),
{
    lemma_entry_negated_ok(e);
    let m = magnitude(e);
    if e[0] == '-' {
        assert(magnitude(m) == m);
    } else {
        let r = seq!['-'] + e;
        assert(r.drop_first() =~= e);
    }
}

/// The keyboard table: each digit, the point (`.` or `,`), the operators,
/// `=`, `%`, `r` for `1/x` and `@`/`q` for `sqrt` reach their keys, and no
/// other character types anything.
pub proof fn law_typed_characters(c: char, d: u8)
    requires
        d <= 9,
    ensures
        char_btn(digit_char(d)) == Some(Btn::Digit(d)),
        char_btn('.') == Some(Btn::Dot),
        char_btn(',') == Some(Btn::Dot),
        char_btn('+') == Some(Btn::Add),
        char_btn('-') == Some(Btn::Sub),
        char_btn('*') == Some(Btn::Mul),
        char_btn('/') == Some(Btn::Div),
        char_btn('=') == Some(Btn::Eq),
        char_btn('%') == Some(Btn::Percent),
        char_btn('r') == Some(Btn::Recip),
        char_btn('R') == Some(Btn::Recip),
        char_btn('@') == Some(Btn::Sqrt),
        char_btn('q') == Some(Btn::Sqrt),
        char_btn('Q') == Some(Btn::Sqrt),
        char_btn(c) is Some ==> is_digit(c) || c == '.' || c == ',' || c == '+' || c == '-' || c
            == '*' || c == '/' || c == '=' || c == '%' || c == 'r' || c == 'R' || c == '@' || c
            == 'q' || c == 'Q',
{
}

/// Typing the character printed on a digit, point, operator, `=` or `%` key
/// reaches that very key.
pub proof fn law_keys_typed_by_their_label(b: Btn)
    requires
        b.valid(),
        b is Digit || b is Dot || b is Add || b is Sub || b is Mul || b is Div || b is Eq
            || b is Percent,
    ensures
        b.label_text().len() == 1,
        char_btn(b.label_text()[0]) == Some(b),
{
    match b {
        Btn::Digit(d) => {
            reveal_strlit("0");
            reveal_strlit("1");
            reveal_strlit("2");
            reveal_strlit("3");
            reveal_strlit("4");
            reveal_strlit("5");
            reveal_strlit("6");
            reveal_strlit("7");
            reveal_strlit("8");
            reveal_strlit("9");
        },
        Btn::Dot => {
            reveal_strlit(".");
        },
        Btn::Add => {
            reveal_strlit("+");
        },
        Btn::Sub => {
            reveal_strlit("-");
        },
        Btn::Mul => {
            reveal_strlit("*");
        },
        Btn::Div => {
            reveal_strlit("/");
        },
        Btn::Eq => {
            reveal_strlit("=");
        },
        Btn::Percent => {
            reveal_strlit("%");
        },
        _ => {},
    }
}

/// The named keys and Ctrl chords: Enter is `=`, Backspace is Back, Delete
/// is `CE`, Escape is `C`, no other named key does anything; Ctrl+L, R, M, P
/// (either case) are `MC`, `MR`, `MS`, `M+`.
pub proof fn law_named_keys_and_chords(n: NamedKey, c: char)
    ensures
        named_btn(NamedKey::Enter) == Some(Btn::Eq),
        named_btn(NamedKey::Backspace) == Some(Btn::Back),
        named_btn(NamedKey::Delete) == Some(Btn::ClearEntry),
        named_btn(NamedKey::Escape) == Some(Btn::ClearAll),
        named_btn(n) is Some ==> n == NamedKey::Enter || n == NamedKey::Backspace || n
            == NamedKey::Delete || n == NamedKey::Escape,
        ctrl_btn(ascii_lower('l')) == Some(Btn::MemClear),
        ctrl_btn(ascii_lower('L')) == Some(Btn::MemClear),
        ctrl_btn(ascii_lower('r')) == Some(Btn::MemRecall),
        ctrl_btn(ascii_lower('R')) == Some(Btn::MemRecall),
        ctrl_btn(ascii_lower('m')) == Some(Btn::MemStore),
        ctrl_btn(ascii_lower('M')) == Some(Btn::MemStore),
        ctrl_btn(ascii_lower('p')) == Some(Btn::MemAdd),
        ctrl_btn(ascii_lower('P')) == Some(Btn::MemAdd),
        ctrl_btn(c) is Some ==> c == 'l' || c == 'r' || c == 'm' || c == 'p',
{
}

/// A digit is appended to the typed number; only a lone `0` (or `-0`) is
/// replaced by it, so `0` then `5` reads `5` and `-0` then `5` reads `-5`.
pub proof fn law_digit_appends(e: Seq<char>, d: u8)
    requires
        entry_ok(e),
        d <= 9,
    ensures
        entry_with_digit(e, d).last() == digit_char(d),
        entry_with_digit(e, d).drop_last() == e || (e == seq!['0'] && entry_with_digit(
            e,
            d,
        ).drop_last() == Seq::<char>::empty()) || (e == seq!['-', '0'] && entry_with_digit(
            e,
            d,
        ).drop_last() == seq!['-']),
{
    let r = entry_with_digit(e, d);
    assert(r.drop_last() =~= if e == seq!['0'] {
        Seq::<char>::empty()
    } else if e == seq!['-', '0'] {
        seq!['-']
    } else {
        e
    });
}

/// The point key gives the typed number a point, once: the entry ends up
/// with a point, is unchanged if it had one, and otherwise gains it at the
/// end; a finished value starts the entry `0.`.
pub proof fn law_dot_adds_one_point(s: CalcState, p: u64)
    requires
        s.wf(),
    ensures
        s.dot_pressed(p).entry matches Some(e2) && e2.contains('.'),
        s.dot_pressed(p).operand_ready,
        s.dot_pressed(p).error is None,
        (s.entry matches Some(e) && s.error is None && e.contains('.')) ==> s.dot_pressed(p).entry
            == s.entry,
        (s.entry matches Some(e) && s.error is None && !e.contains('.')) ==> s.dot_pressed(
            p,
        ).entry == Some(s.entry.unwrap().push('.')),
        (s.error is Some || s.entry is None) ==> s.dot_pressed(p).entry == Some(seq!['0', '.']),
{
    if let Some(e) = s.recovered().entry {
        if !e.contains('.') {
            assert(e.push('.')[e.len() as int] == '.');
        }
    } else {
        assert(seq!['0', '.'][1] == '.');
    }
}

} // verus!
