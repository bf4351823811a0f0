use retrocalc::engine::{Op, Request};
use retrocalc::keypad::{InputEvent, KeyAction, Keypad, MouseButton, Response};
use retrocalc::keys::{btn_for_char, btn_for_ctrl, btn_for_named, Btn, Key, KeyTint, Modifiers, NamedKey};
use retrocalc::layout::{Point, Rect, NATURAL_HEIGHT, NATURAL_WIDTH};
use retrocalc::engine::Engine;

fn compute(req: &Request) -> u64 {
    match req {
        Request::Apply { op, lhs, rhs } => {
            let a = f64::from_bits(*lhs);
            let b = f64::from_bits(*rhs);
            let r = match op {
                Op::Add => a + b,
                Op::Sub => a - b,
                Op::Mul => a * b,
                Op::Div => a / b,
            };
            r.to_bits()
        }
        Request::SquareRoot { value } => f64::from_bits(*value).sqrt().to_bits(),
        Request::Reciprocal { value } => (1.0 / f64::from_bits(*value)).to_bits(),
        Request::Percent { acc, value } => {
            (f64::from_bits(*acc) * f64::from_bits(*value) / 100.0).to_bits()
        }
        Request::Parse { text } => text.parse::<f64>().unwrap_or(0.0).to_bits(),
    }
}

/// Renders a finished value the way the readout shows it (integers and short
/// decimals are all these tests need).
fn format_number(v: f64) -> String {
    if v == 0.0 {
        return "0".to_string();
    }
    let mut s = format!("{v:.10}");
    while s.ends_with('0') {
        s.pop();
    }
    if s.ends_with('.') {
        s.pop();
    }
    s
}

fn display(kp: &Keypad) -> String {
    let eng = kp.engine();
    eng.display(format_number(f64::from_bits(eng.value_bits())))
}

fn modifiers() -> Modifiers {
    Modifiers { shift: false, control: false, alt: false, alt_graph: false, logo: false }
}

fn keypad() -> Keypad {
    let mut kp = Keypad::new(Engine::new());
    kp.layout(Rect { x: 0, y: 0, w: NATURAL_WIDTH, h: NATURAL_HEIGHT });
    kp.set_focused(true);
    kp
}

/// Delivers an event and carries out the key it fires.
fn dispatch(kp: &mut Keypad, ev: InputEvent) -> Response {
    let r = kp.event(ev);
    if let KeyAction::Activate(b) = r.action {
        let a = kp.request(b).map(|q| compute(&q)).unwrap_or(0);
        kp.activate(b, a);
    }
    r
}

fn char_event(ch: char) -> InputEvent {
    InputEvent::Char { ch, modifiers: modifiers() }
}

fn key_event(named: NamedKey) -> InputEvent {
    InputEvent::KeyDown { key: Key::Named(named), modifiers: modifiers() }
}

fn key_up(named: NamedKey) -> InputEvent {
    InputEvent::KeyUp { key: Key::Named(named), modifiers: modifiers() }
}

fn key_down_char(c: char) -> InputEvent {
    InputEvent::KeyDown { key: Key::Char(c), modifiers: modifiers() }
}

fn key_up_char(c: char) -> InputEvent {
    InputEvent::KeyUp { key: Key::Char(c), modifiers: modifiers() }
}

fn center(r: Rect) -> Point {
    Point { x: r.x + r.w / 2, y: r.y + r.h / 2 }
}

#[test]
fn layout_places_every_key_without_overlap() {
    let kp = keypad();
    // 24 grid keys + Back/CE/C.
    assert_eq!(kp.keys().len(), 27);
    let bounds = kp.bounds();
    // Every key sits inside the widget bounds.
    for (_, r) in kp.keys() {
        assert!(r.x >= bounds.x && r.right() <= bounds.right());
        assert!(r.y >= bounds.y && r.bottom() <= bounds.bottom());
    }
    // The "5" key is reachable by a click at its centre.
    let five = kp.key_rect(Btn::Digit(5)).unwrap();
    assert_eq!(kp.key_at(center(five)), Some(Btn::Digit(5)));
}

#[test]
fn keyboard_drives_a_calculation() {
    let mut kp = keypad();
    for ev in [char_event('1'), char_event('2'), char_event('+'), char_event('3')] {
        dispatch(&mut kp, ev);
    }
    dispatch(&mut kp, key_event(NamedKey::Enter));
    assert_eq!(display(&kp), "15");
}

#[test]
fn function_letters_map_to_keys() {
    let mut kp = keypad();
    // 9, then 'q' (sqrt) → 3.
    dispatch(&mut kp, char_event('9'));
    dispatch(&mut kp, char_event('q'));
    assert_eq!(display(&kp), "3");
}

#[test]
fn escape_clears_and_delete_clears_entry() {
    let mut kp = keypad();
    dispatch(&mut kp, char_event('7'));
    dispatch(&mut kp, char_event('+'));
    dispatch(&mut kp, char_event('5'));
    // Delete = CE: clears the 5 but keeps the pending +.
    dispatch(&mut kp, key_event(NamedKey::Delete));
    dispatch(&mut kp, char_event('2'));
    dispatch(&mut kp, key_event(NamedKey::Enter));
    assert_eq!(display(&kp), "9");
    // Escape = C: wipes everything.
    dispatch(&mut kp, key_event(NamedKey::Escape));
    assert_eq!(display(&kp), "0");
}

#[test]
fn ctrl_chords_reach_memory() {
    let mut kp = keypad();
    let ctrl = Modifiers { control: true, ..modifiers() };
    // Type 8, Ctrl+M stores it to memory.
    dispatch(&mut kp, char_event('8'));
    dispatch(&mut kp, InputEvent::KeyDown { key: Key::Char('m'), modifiers: ctrl });
    assert!(kp.engine().memory_active());
}

#[test]
fn mouse_press_and_release_fires_a_key() {
    let mut kp = keypad();
    let seven = kp.key_rect(Btn::Digit(7)).unwrap();
    let c = center(seven);
    dispatch(&mut kp, InputEvent::PointerDown { pos: c, button: MouseButton::Left });
    assert_eq!(kp.tracker().pressed, Some(Btn::Digit(7)));
    dispatch(&mut kp, InputEvent::PointerUp { pos: c, button: MouseButton::Left });
    assert_eq!(display(&kp), "7");
    assert_eq!(kp.tracker().pressed, None);
}

#[test]
fn releasing_off_the_key_cancels_it() {
    let mut kp = keypad();
    let seven = kp.key_rect(Btn::Digit(7)).unwrap();
    dispatch(&mut kp, InputEvent::PointerDown { pos: center(seven), button: MouseButton::Left });
    // Release far away (off the button) — nothing fires.
    let b = kp.bounds();
    let far = Point { x: b.right() - 1, y: b.bottom() - 1 };
    dispatch(&mut kp, InputEvent::PointerUp { pos: far, button: MouseButton::Left });
    assert_eq!(display(&kp), "0");
}

#[test]
fn a_held_digit_key_shows_depressed_until_release() {
    let mut kp = keypad();
    // A real keystroke is KeyDown(base key) followed by Char(glyph).
    dispatch(&mut kp, key_down_char('5'));
    dispatch(&mut kp, char_event('5'));
    assert_eq!(kp.tracker().held, Some(Btn::Digit(5)), "the 5 key is held down");
    // The matching KeyUp pops it back up.
    dispatch(&mut kp, key_up_char('5'));
    assert_eq!(kp.tracker().held, None);
}

#[test]
fn a_shifted_operator_pops_up_on_its_base_key() {
    // `+` is typed as Shift+`=`: KeyDown/KeyUp carry the base key `=`, while
    // the Char carries `+`. The depress must clear on KeyUp of `=`.
    let mut kp = keypad();
    dispatch(&mut kp, key_down_char('=')); // base key down
    dispatch(&mut kp, char_event('+')); // composed glyph
    assert_eq!(kp.tracker().held, Some(Btn::Add));
    dispatch(&mut kp, key_up_char('=')); // base key up
    assert_eq!(kp.tracker().held, None, "releasing the base key pops `+` back up");
}

#[test]
fn a_held_named_key_shows_depressed_until_release() {
    let mut kp = keypad();
    dispatch(&mut kp, key_event(NamedKey::Enter));
    assert_eq!(kp.tracker().held, Some(Btn::Eq));
    dispatch(&mut kp, key_up(NamedKey::Enter));
    assert_eq!(kp.tracker().held, None);
}

#[test]
fn losing_focus_pops_a_held_key_up() {
    // If focus moves away (a menu opens) mid-hold, the key must not stay stuck.
    let mut kp = keypad();
    dispatch(&mut kp, key_event(NamedKey::Enter));
    assert_eq!(kp.tracker().held, Some(Btn::Eq));
    kp.set_focused(false);
    assert_eq!(kp.tracker().held, None);
}

#[test]
fn holding_a_digit_key_does_not_auto_repeat() {
    let mut kp = keypad();
    // Press and hold "5": the initial KeyDown+Char types it once; the
    // auto-repeat KeyDown+Char pairs that follow (no KeyUp between) must not
    // type more digits.
    dispatch(&mut kp, key_down_char('5'));
    dispatch(&mut kp, char_event('5'));
    dispatch(&mut kp, key_down_char('5')); // auto-repeat
    dispatch(&mut kp, char_event('5'));
    dispatch(&mut kp, key_down_char('5')); // auto-repeat
    dispatch(&mut kp, char_event('5'));
    assert_eq!(display(&kp), "5", "a held key types once");
    // Release and press again: a distinct press types another digit.
    dispatch(&mut kp, key_up_char('5'));
    dispatch(&mut kp, key_down_char('5'));
    dispatch(&mut kp, char_event('5'));
    assert_eq!(display(&kp), "55", "a fresh press types again");
}

#[test]
fn holding_enter_evaluates_once() {
    // 2 + 3, then hold Enter: equals fires once (→ 5). If auto-repeat leaked
    // through it would keep replaying repeat-equals (5 → 8 → 11 …).
    let mut kp = keypad();
    for ev in [char_event('2'), char_event('+'), char_event('3')] {
        dispatch(&mut kp, ev);
    }
    dispatch(&mut kp, key_event(NamedKey::Enter)); // fresh: = → 5
    dispatch(&mut kp, key_event(NamedKey::Enter)); // auto-repeat: ignored
    dispatch(&mut kp, key_event(NamedKey::Enter)); // auto-repeat: ignored
    assert_eq!(display(&kp), "5");
    // Release and press Enter again: a fresh press replays repeat-equals (+3).
    dispatch(&mut kp, key_up(NamedKey::Enter));
    dispatch(&mut kp, key_event(NamedKey::Enter));
    assert_eq!(display(&kp), "8");
}

// -- further cases -----------------------------------------------------------

#[test]
fn labels_and_colours() {
    assert_eq!(Btn::Digit(7).label(), "7");
    assert_eq!(Btn::Digit(12).label(), "?");
    assert_eq!(Btn::Neg.label(), "+/-");
    assert_eq!(Btn::Recip.label(), "1/x");
    assert_eq!(Btn::MemAdd.label(), "M+");
    assert_eq!(Btn::Digit(3).color(), KeyTint::Blue);
    assert_eq!(Btn::Dot.color(), KeyTint::Blue);
    assert_eq!(Btn::Neg.color(), KeyTint::Blue);
    assert_eq!(Btn::Sqrt.color(), KeyTint::Maroon);
    assert_eq!(Btn::ClearAll.color(), KeyTint::Maroon);
}

#[test]
fn keystroke_maps() {
    assert_eq!(btn_for_char('0'), Some(Btn::Digit(0)));
    assert_eq!(btn_for_char('9'), Some(Btn::Digit(9)));
    assert_eq!(btn_for_char(','), Some(Btn::Dot));
    assert_eq!(btn_for_char('R'), Some(Btn::Recip));
    assert_eq!(btn_for_char('@'), Some(Btn::Sqrt));
    assert_eq!(btn_for_char('x'), None);
    assert_eq!(btn_for_named(NamedKey::Backspace), Some(Btn::Back));
    assert_eq!(btn_for_named(NamedKey::Tab), None);
    assert_eq!(btn_for_ctrl('l'), Some(Btn::MemClear));
    assert_eq!(btn_for_ctrl('p'), Some(Btn::MemAdd));
    assert_eq!(btn_for_ctrl('x'), None);
}

#[test]
fn ctrl_c_and_ctrl_v_ask_for_the_clipboard_once_per_press() {
    let mut kp = keypad();
    let ctrl = Modifiers { control: true, ..modifiers() };
    let r = dispatch(&mut kp, InputEvent::KeyDown { key: Key::Char('C'), modifiers: ctrl });
    assert_eq!(r.action, KeyAction::Copy);
    assert!(r.consumed);
    let r = dispatch(&mut kp, InputEvent::KeyDown { key: Key::Char('C'), modifiers: ctrl });
    assert_eq!(r.action, KeyAction::Nothing);
    let r = dispatch(&mut kp, InputEvent::KeyDown { key: Key::Char('v'), modifiers: ctrl });
    assert_eq!(r.action, KeyAction::Paste);
    // AltGr (reported as Ctrl+Alt) never counts as a chord.
    let altgr = Modifiers { control: true, alt: true, alt_graph: true, ..modifiers() };
    let r = dispatch(&mut kp, InputEvent::KeyDown { key: Key::Char('x'), modifiers: altgr });
    assert!(!r.consumed);
}

#[test]
fn command_modified_text_is_not_typed() {
    let mut kp = keypad();
    let alt = Modifiers { alt: true, ..modifiers() };
    let r = dispatch(&mut kp, InputEvent::Char { ch: '5', modifiers: alt });
    assert!(!r.consumed);
    assert_eq!(display(&kp), "0");
}

#[test]
fn unfocused_keypad_ignores_the_keyboard() {
    let mut kp = keypad();
    kp.set_focused(false);
    dispatch(&mut kp, char_event('5'));
    dispatch(&mut kp, key_event(NamedKey::Enter));
    assert_eq!(display(&kp), "0");
}

#[test]
fn dragging_off_and_back_rearms_the_key() {
    let mut kp = keypad();
    let seven = kp.key_rect(Btn::Digit(7)).unwrap();
    let c = center(seven);
    dispatch(&mut kp, InputEvent::PointerDown { pos: c, button: MouseButton::Left });
    assert!(kp.is_key_down(Btn::Digit(7)));
    let r = dispatch(&mut kp, InputEvent::PointerMove { pos: Point { x: 0, y: 0 } });
    assert!(r.repaint);
    assert!(!kp.is_key_down(Btn::Digit(7)));
    assert!(kp.captures_pointer());
    dispatch(&mut kp, InputEvent::PointerMove { pos: c });
    assert!(kp.is_key_down(Btn::Digit(7)));
    dispatch(&mut kp, InputEvent::PointerUp { pos: c, button: MouseButton::Left });
    assert_eq!(display(&kp), "7");
    assert!(!kp.captures_pointer());
}

#[test]
fn right_click_does_nothing() {
    let mut kp = keypad();
    let seven = kp.key_rect(Btn::Digit(7)).unwrap();
    let r = dispatch(&mut kp, InputEvent::PointerDown { pos: center(seven), button: MouseButton::Right });
    assert_eq!(r.action, KeyAction::Nothing);
    assert_eq!(kp.tracker().pressed, None);
}

#[test]
fn layout_centres_the_block_in_wider_bounds() {
    let mut kp = keypad();
    kp.layout(Rect { x: 0, y: 0, w: NATURAL_WIDTH + 100, h: NATURAL_HEIGHT });
    assert_eq!(kp.display_rect(), Rect { x: 60, y: 10, w: 246, h: 32 });
    assert_eq!(kp.indicator_rect(), Rect { x: 60, y: 52, w: 36, h: 28 });
    assert_eq!(kp.key_rect(Btn::Back), Some(Rect { x: 102, y: 52, w: 64, h: 28 }));
    assert_eq!(kp.key_rect(Btn::ClearAll), Some(Rect { x: 242, y: 52, w: 64, h: 28 }));
    assert_eq!(kp.key_rect(Btn::Eq), Some(Rect { x: 270, y: 192, w: 36, h: 28 }));
    // Narrower than natural: the block keeps its margin.
    kp.layout(Rect { x: 5, y: 0, w: 100, h: 100 });
    assert_eq!(kp.display_rect().x, 15);
}

#[test]
fn paste_and_copy_through_the_keypad() {
    let mut kp = keypad();
    kp.paste(Some(12.5f64.to_bits()));
    assert_eq!(display(&kp), "12.5");
    assert_eq!(kp.copy("12.5".to_string()), "12.5");
    kp.paste(None);
    assert_eq!(display(&kp), "12.5");
    assert!(kp.focusable());
}

#[test]
fn no_two_keys_overlap() {
    let kp = keypad();
    let keys = kp.keys();
    for (i, (_, a)) in keys.iter().enumerate() {
        for (j, (_, b)) in keys.iter().enumerate() {
            if i != j {
                let overlap = a.x < b.x + b.w && b.x < a.x + a.w && a.y < b.y + b.h && b.y < a.y + a.h;
                assert!(!overlap, "keys {i} and {j} overlap");
            }
        }
        // A click at the key's centre reaches it.
        assert_eq!(kp.key_at(center(*a)), Some(keys[i].0));
    }
}

#[test]
fn altgr_chords_do_nothing() {
    let mut kp = keypad();
    dispatch(&mut kp, char_event('8'));
    let altgr = Modifiers { control: true, alt: true, alt_graph: true, ..modifiers() };
    let r = dispatch(&mut kp, InputEvent::KeyDown { key: Key::Char('m'), modifiers: altgr });
    assert_eq!(r.action, KeyAction::Nothing);
    assert!(!kp.engine().memory_active());
}

#[test]
fn every_key_is_laid_out_once() {
    let kp = keypad();
    let keys = kp.keys();
    let mut all: Vec<Btn> = (0..10).map(Btn::Digit).collect();
    all.extend([
        Btn::Dot, Btn::Neg, Btn::Add, Btn::Sub, Btn::Mul, Btn::Div, Btn::Eq, Btn::Sqrt,
        Btn::Percent, Btn::Recip, Btn::Back, Btn::ClearEntry, Btn::ClearAll, Btn::MemClear,
        Btn::MemRecall, Btn::MemStore, Btn::MemAdd,
    ]);
    assert_eq!(all.len(), 27);
    for b in &all {
        assert_eq!(keys.iter().filter(|(k, _)| k == b).count(), 1, "{b:?}");
        // The key found at a point inside a key's rectangle reads as over it.
        let r = kp.key_rect(*b).unwrap();
        let found = kp.key_at(center(r)).unwrap();
        assert!(kp.key_rect(found).unwrap().contains(center(r)));
    }
}
