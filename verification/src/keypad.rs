//! The keypad: the calculator's display and its grid of buttons, with the
//! engine it drives. It turns pointer presses and key presses into key
//! activations, mirroring real push buttons (press to arm, drag off to cancel,
//! release inside to fire) and acting once per physical key press.
//!
//! Painting and the platform's event loop are the caller's: `event` takes an
//! input event and says what to do, and `activate` runs a key against the
//! engine once the arithmetic that `request` names has been done.

use vstd::prelude::*;

use crate::engine::{request_view, CalcState, Engine, Op, Request, RequestView};
use crate::keys::{
    ascii_lower, btn_for_char, btn_for_ctrl, btn_for_named, char_btn, ctrl_btn, named_btn,
    to_ascii_lower, Btn, Key, Modifiers,
};
use crate::layout::{
    compute_layout, display_area, empty_rect, find_key_at, find_key_rect, indicator_area, key_at,
    layout_fits, layout_keys, over_key, rect_of, Point, Rect,
};

verus! {

/// Mouse buttons.
#[derive(Clone, Copy, Debug, PartialEq, Eq, Structural)]
pub enum MouseButton {
    Left,
    Right,
    Middle,
}

/// The input events the keypad reacts to.
#[derive(Clone, Copy, Debug, PartialEq, Eq, Structural)]
pub enum InputEvent {
    PointerDown { pos: Point, button: MouseButton },
    PointerMove { pos: Point },
    PointerUp { pos: Point, button: MouseButton },
    /// A key went down (or auto-repeated while held).
    KeyDown { key: Key, modifiers: Modifiers },
    /// A key was let go.
    KeyUp { key: Key, modifiers: Modifiers },
    /// Text was typed.
    Char { ch: char, modifiers: Modifiers },
    /// Anything else (scrolling, drags, …).
    Other,
}

/// What an event asks of the surrounding application.
#[derive(Clone, Copy, Debug, PartialEq, Eq, Structural)]
pub enum KeyAction {
    Nothing,
    /// Run this key against the engine.
    Activate(Btn),
    /// Copy the current value to the clipboard.
    Copy,
    /// Paste a number from the clipboard.
    Paste,
}

/// The keypad's answer to an event.
#[derive(Clone, Copy, Debug, PartialEq, Eq, Structural)]
pub struct Response {
    pub action: KeyAction,
    /// The event was handled here and goes no further.
    pub consumed: bool,
    /// The keypad needs repainting.
    pub repaint: bool,
    /// The keypad asks for keyboard focus.
    pub focus: bool,
}

/// Press-and-hold bookkeeping for mouse and keyboard.
#[derive(Clone, Copy)]
pub struct KeyTracker {
    pub focused: bool,
    /// The key held down by the mouse.
    pub pressed: Option<Btn>,
    /// Whether the pointer is still over `pressed` (so it draws armed).
    pub over: bool,
    /// The key shown depressed because a keyboard key is held.
    pub held: Option<Btn>,
    /// The base key whose `KeyUp` pops `held` back up. Key events report the
    /// key with modifiers stripped, so a shifted `+` goes down as `Char('+')`
    /// but comes up as the `=` key.
    pub held_key: Option<Key>,
    /// Base key of the most recent key-down, tying the text it produces back
    /// to the key that will release it.
    pub pending_down: Option<Key>,
    /// Whether the most recent key-down was a fresh press rather than
    /// auto-repeat; a calculator acts once per press.
    pub fresh_press: bool,
}

/// A response that asks for nothing.
pub open spec fn quiet() -> Response {
    Response { action: KeyAction::Nothing, consumed: false, repaint: false, focus: false }
}

/// A response for a handled key event.
pub open spec fn handled(action: KeyAction) -> Response {
    Response { action, consumed: true, repaint: true, focus: false }
}

impl KeyTracker {
    /// The state a new keypad starts in.
    pub open spec fn initial() -> KeyTracker {
        KeyTracker {
            focused: false,
            pressed: None,
            over: false,
            held: None,
            held_key: None,
            pending_down: None,
            fresh_press: true,
        }
    }

    /// `btn` shown depressed until `key` is released.
    pub open spec fn holding(self, btn: Btn, key: Key) -> KeyTracker {
        KeyTracker { held: Some(btn), held_key: Some(key), ..self }
    }

    /// `btn`'s action if this press is fresh.
    pub open spec fn fire(self, btn: Btn) -> KeyAction {
        if self.fresh_press {
            KeyAction::Activate(btn)
        } else {
            KeyAction::Nothing
        }
    }

    /// A key-down on a focused keypad, after the fresh-press bookkeeping:
    /// Ctrl chords (clipboard and memory; AltGr, which reports as Ctrl+Alt,
    /// never counts) and the named keys. Returns the new state, the action,
    /// and whether the event was handled.
    pub open spec fn key_down(self, key: Key, modifiers: Modifiers) -> (KeyTracker, KeyAction, bool) {
        if modifiers.control && !modifiers.alt_graph {
            match key {
                Key::Char(c) => {
                    let l = ascii_lower(c);
                    if l == 'c' {
                        (self, if self.fresh_press { KeyAction::Copy } else { KeyAction::Nothing }, true)
                    } else if l == 'v' {
                        (self, if self.fresh_press { KeyAction::Paste } else { KeyAction::Nothing }, true)
                    } else {
                        match ctrl_btn(l) {
                            Some(b) => (self.holding(b, key), self.fire(b), true),
                            None => (self, KeyAction::Nothing, false),
                        }
                    }
                },
                Key::Named(_) => (self, KeyAction::Nothing, false),
            }
        } else if modifiers.is_command() {
            (self, KeyAction::Nothing, false)
        } else {
            match key {
                Key::Named(n) => match named_btn(n) {
                    Some(b) => (self.holding(b, key), self.fire(b), true),
                    None => (self, KeyAction::Nothing, false),
                },
                Key::Char(_) => (self, KeyAction::Nothing, false),
            }
        }
    }

    /// The next state and the response for event `ev`, with the keys laid out
    /// as `keys`.
    pub open spec fn step(self, ev: InputEvent, keys: Seq<(Btn, Rect)>) -> (KeyTracker, Response) {
        match ev {
            InputEvent::PointerDown { pos, button } => if button == MouseButton::Left {
                match key_at(keys, pos) {
                    Some(b) => (
                        KeyTracker { pressed: Some(b), over: true, ..self },
                        Response { action: KeyAction::Nothing, consumed: false, repaint: true, focus: true },
                    ),
                    None => (self, Response { focus: true, ..quiet() }),
                }
            } else {
                (self, quiet())
            },
            InputEvent::PointerMove { pos } => match self.pressed {
                Some(b) => {
                    let now_over = over_key(keys, b, pos);
                    if now_over != self.over {
                        (KeyTracker { over: now_over, ..self }, Response { repaint: true, ..quiet() })
                    } else {
                        (self, quiet())
                    }
                },
                None => (self, quiet()),
            },
            InputEvent::PointerUp { pos, button } => if button == MouseButton::Left {
                match self.pressed {
                    Some(b) => (
                        KeyTracker { pressed: None, over: false, ..self },
                        Response {
                            action: if over_key(keys, b, pos) {
                                KeyAction::Activate(b)
                            } else {
                                KeyAction::Nothing
                            },
                            repaint: true,
                            ..quiet()
                        },
                    ),
                    None => (self, quiet()),
                }
            } else {
                (self, quiet())
            },
            InputEvent::KeyDown { key, modifiers } => if self.focused {
                let t = KeyTracker {
                    fresh_press: self.pending_down != Some(key),
                    pending_down: Some(key),
                    ..self
                };
                let (t2, action, ok) = t.key_down(key, modifiers);
                (t2, if ok { handled(action) } else { quiet() })
            } else {
                (self, quiet())
            },
            InputEvent::Char { ch, modifiers } => if self.focused && !modifiers.is_command() {
                match char_btn(ch) {
                    Some(b) => {
                        let t = match self.pending_down {
                            Some(k) => self.holding(b, k),
                            None => KeyTracker { held: Some(b), held_key: None, ..self },
                        };
                        (t, handled(self.fire(b)))
                    },
                    None => (self, quiet()),
                }
            } else {
                (self, quiet())
            },
            InputEvent::KeyUp { key, modifiers } => {
                let t = if self.pending_down == Some(key) {
                    KeyTracker { pending_down: None, ..self }
                } else {
                    self
                };
                if self.held_key == Some(key) {
                    (KeyTracker { held: None, held_key: None, ..t }, Response { repaint: true, ..quiet() })
                } else {
                    (t, quiet())
                }
            },
            InputEvent::Other => (self, quiet()),
        }
    }

    /// Focus gained or lost; losing it drops any keyboard-held press so a key
    /// doesn't stay stuck down (e.g. when a menu opens).
    pub open spec fn focus_set(self, focused: bool) -> KeyTracker {
        if focused {
            KeyTracker { focused, ..self }
        } else {
            KeyTracker { focused, held: None, held_key: None, pending_down: None, ..self }
        }
    }

    /// Whether `btn` draws depressed: the mouse holds it (and is still over
    /// it), or a keyboard key bound to it is held.
    pub open spec fn shows_down(self, btn: Btn) -> bool {
        (self.pressed == Some(btn) && self.over) || self.held == Some(btn)
    }
}

/// The engine computation a key needs before it can act.
pub open spec fn key_request(s: CalcState, btn: Btn) -> Option<RequestView> {
    match btn {
        Btn::Digit(d) => s.digit_request(d),
        Btn::Dot => s.dot_request(),
        Btn::Neg => s.sign_request(),
        Btn::Add | Btn::Sub | Btn::Mul | Btn::Div => s.operator_request(),
        Btn::Eq => s.equals_request(),
        Btn::Sqrt => s.sqrt_request(),
        Btn::Percent => s.percent_request(),
        Btn::Recip => s.reciprocal_request(),
        Btn::Back => s.backspace_request(),
        Btn::MemAdd => s.memory_add_request(),
        Btn::ClearEntry | Btn::ClearAll | Btn::MemClear | Btn::MemRecall | Btn::MemStore => None,
    }
}

/// The engine after key `btn` acts, `answer` being the result of the
/// computation `key_request` names.
pub open spec fn key_pressed(s: CalcState, btn: Btn, answer: u64) -> CalcState {
    match btn {
        Btn::Digit(d) => s.digit_pressed(d, answer),
        Btn::Dot => s.dot_pressed(answer),
        Btn::Neg => s.sign_pressed(answer),
        Btn::Add => s.operator_pressed(Op::Add, answer),
        Btn::Sub => s.operator_pressed(Op::Sub, answer),
        Btn::Mul => s.operator_pressed(Op::Mul, answer),
        Btn::Div => s.operator_pressed(Op::Div, answer),
        Btn::Eq => s.equals_pressed(answer),
        Btn::Sqrt => s.sqrt_pressed(answer),
        Btn::Percent => s.percent_pressed(answer),
        Btn::Recip => s.reciprocal_pressed(answer),
        Btn::Back => s.backspaced(answer),
        Btn::ClearEntry => s.entry_cleared(),
        Btn::ClearAll => s.cleared(),
        Btn::MemClear => s.memory_cleared(),
        Btn::MemRecall => s.memory_recalled(),
        Btn::MemStore => s.memory_stored(),
        Btn::MemAdd => s.memory_added(answer),
    }
}

/// The keypad as plain values.
pub struct KeypadView {
    pub rect: Rect,
    pub keys: Seq<(Btn, Rect)>,
    pub display_rect: Rect,
    pub indicator_rect: Rect,
    pub tracker: KeyTracker,
    pub engine: CalcState,
}

impl KeypadView {
    /// What every keypad keeps: a well-formed engine, and only keys that exist
    /// on the pad.
    pub open spec fn wf(self) -> bool {
        &&& self.engine.wf()
        &&& forall|i: int| 0 <= i < self.keys.len() ==> (#[trigger] self.keys[i]).0.valid()
        &&& (self.tracker.pressed matches Some(b) ==> b.valid())
    }
}

/// The keypad widget's state: the engine it drives, where its parts sit, and
/// the press-and-hold bookkeeping.
pub struct Keypad {
    engine: Engine,
    rect: Rect,
    /// Every clickable key with its rectangle, rebuilt by `layout`: the 24
    /// grid keys plus Back / CE / C.
    keys: Vec<(Btn, Rect)>,
    display_rect: Rect,
    indicator_rect: Rect,
    tracker: KeyTracker,
}

impl View for Keypad {
    type V = KeypadView;

    closed spec fn view(&self) -> KeypadView {
        KeypadView {
            rect: self.rect,
            keys: self.keys@,
            display_rect: self.display_rect,
            indicator_rect: self.indicator_rect,
            tracker: self.tracker,
            engine: self.engine@,
        }
    }
}

/// Every key of the layout exists on the pad.
proof fn lemma_layout_keys_valid(bounds: Rect)
    ensures
        forall|i: int| 0 <= i < layout_keys(bounds).len() ==> (#[trigger] layout_keys(bounds)[i]).0.valid(),
{
}

/// The key `key_at` finds is one of `keys`.
proof fn lemma_key_at_in(keys: Seq<(Btn, Rect)>, p: Point)
    ensures
        key_at(keys, p) matches Some(b) ==> exists|i: int| 0 <= i < keys.len() && keys[i].0 == b,
    decreases keys.len(),
{
    if keys.len() > 0 && !keys[0].1.holds(p) {
        lemma_key_at_in(keys.drop_first(), p);
        if let Some(b) = key_at(keys, p) {
            let i = choose|i: int| 0 <= i < keys.drop_first().len() && keys.drop_first()[i].0 == b;
            assert(keys[i + 1].0 == b);
        }
    }
}

impl Keypad {
    /// Every key a keypad holds (and any key held by the mouse) exists on the
    /// pad.
    #[verifier::type_invariant]
    spec fn well_formed(self) -> bool {
        &&& forall|i: int| 0 <= i < self.keys@.len() ==> (#[trigger] self.keys@[i]).0.valid()
        &&& (self.tracker.pressed matches Some(b) ==> b.valid())
    }

    /// A keypad driving `engine`, not yet laid out or focused.
    pub fn new(engine: Engine) -> (k: Keypad)
        ensures
            k@.engine == engine@,
            k@.keys.len() == 0,
            k@.rect == empty_rect(),
            k@.display_rect == empty_rect(),
            k@.indicator_rect == empty_rect(),
            k@.tracker == KeyTracker::initial(),
            k@.wf(),
    {
        proof {
            use_type_invariant(&engine);
        }
        Keypad {
            engine,
            rect: Rect { x: 0, y: 0, w: 0, h: 0 },
            keys: Vec::new(),
            display_rect: Rect { x: 0, y: 0, w: 0, h: 0 },
            indicator_rect: Rect { x: 0, y: 0, w: 0, h: 0 },
            tracker: KeyTracker {
                focused: false,
                pressed: None,
                over: false,
                held: None,
                held_key: None,
                pending_down: None,
                fresh_press: true,
            },
        }
    }

    /// The engine.
    pub fn engine(&self) -> (e: &Engine)
        ensures
            e@ == self@.engine,
    {
        &self.engine
    }

    /// The press-and-hold bookkeeping.
    pub fn tracker(&self) -> (t: KeyTracker)
        ensures
            t == self@.tracker,
    {
        self.tracker
    }

    /// The allocated bounds.
    pub fn bounds(&self) -> (r: Rect)
        ensures
            r == self@.rect,
    {
        self.rect
    }

    /// The readout's rectangle.
    pub fn display_rect(&self) -> (r: Rect)
        ensures
            r == self@.display_rect,
    {
        self.display_rect
    }

    /// The memory indicator's rectangle.
    pub fn indicator_rect(&self) -> (r: Rect)
        ensures
            r == self@.indicator_rect,
    {
        self.indicator_rect
    }

    /// Every key with its rectangle.
    pub fn keys(&self) -> (r: &Vec<(Btn, Rect)>)
        ensures
            r@ == self@.keys,
    {
        &self.keys
    }

    /// Recompute every rectangle from the allocated `bounds`, centring the
    /// fixed-size calculator block horizontally.
    pub fn layout(&mut self, bounds: Rect)
        requires
            layout_fits(bounds),
        ensures
            final(self)@ == (KeypadView {
                rect: bounds,
                keys: layout_keys(bounds),
                display_rect: display_area(bounds),
                indicator_rect: indicator_area(bounds),
                ..old(self)@
            }),
            final(self)@.wf(),
    {
        proof {
            use_type_invariant(&*self);
            use_type_invariant(&self.engine);
        }
        let (display, indicator, keys) = compute_layout(bounds);
        self.rect = bounds;
        self.display_rect = display;
        self.indicator_rect = indicator;
        self.keys = keys;
        proof {
            lemma_layout_keys_valid(bounds);
        }
    }

    /// The key under `pos`.
    pub fn key_at(&self, pos: Point) -> (r: Option<Btn>)
        ensures
            r == key_at(self@.keys, pos),
    {
        find_key_at(&self.keys, pos)
    }

    /// The rectangle of `btn`.
    pub fn key_rect(&self, btn: Btn) -> (r: Option<Rect>)
        ensures
            r == rect_of(self@.keys, btn),
    {
        find_key_rect(&self.keys, btn)
    }

    /// Whether `btn` is painted depressed.
    pub fn is_key_down(&self, btn: Btn) -> (r: bool)
        ensures
            r == self@.tracker.shows_down(btn),
    {
        let mouse_down = if self.tracker.over {
            self.tracker.pressed
        } else {
            None
        };
        mouse_down == Some(btn) || self.tracker.held == Some(btn)
    }

    /// Whether the keypad holds the pointer (a mouse press is in progress).
    pub fn captures_pointer(&self) -> (r: bool)
        ensures
            r == self@.tracker.pressed is Some,
    {
        self.tracker.pressed.is_some()
    }

    /// The keypad takes keyboard focus.
    pub fn focusable(&self) -> (r: bool)
        ensures
            r,
    {
        true
    }

    /// Gain or lose keyboard focus.
    pub fn set_focused(&mut self, focused: bool)
        ensures
            final(self)@ == (KeypadView { tracker: old(self)@.tracker.focus_set(focused), ..old(self)@ }),
    {
        proof {
            use_type_invariant(&*self);
            use_type_invariant(&self.engine);
        }
        self.tracker.focused = focused;
        if !focused {
            self.tracker.held = None;
            self.tracker.held_key = None;
            self.tracker.pending_down = None;
        }
    }

    /// Mark `btn` as depressed until the base `key` is released.
    fn set_held(&mut self, btn: Btn, key: Key)
        ensures
            final(self)@ == (KeypadView { tracker: old(self)@.tracker.holding(btn, key), ..old(self)@ }),
    {
        proof {
            use_type_invariant(&*self);
            use_type_invariant(&self.engine);
        }
        self.tracker.held = Some(btn);
        self.tracker.held_key = Some(key);
    }

    /// The action of `btn` on a fresh press.
    fn fire(&self, btn: Btn) -> (a: KeyAction)
        ensures
            a == self@.tracker.fire(btn),
    {
        if self.tracker.fresh_press {
            KeyAction::Activate(btn)
        } else {
            KeyAction::Nothing
        }
    }

    /// Handle a key-down on the focused keypad: named keys plus the Ctrl
    /// chords (clipboard + memory). Returns the action and whether the event
    /// was consumed.
    fn handle_key_down(&mut self, key: Key, modifiers: Modifiers) -> (r: (KeyAction, bool))
        ensures
            ({
                let (t, a, ok) = old(self)@.tracker.key_down(key, modifiers);
                &&& final(self)@ == (KeypadView { tracker: t, ..old(self)@ })
                &&& r == (a, ok)
            }),
    {
        if modifiers.control && !modifiers.alt_graph {
            let c = match key {
                Key::Char(c) => c,
                Key::Named(_) => {
                    return (KeyAction::Nothing, false);
                },
            };
            let l = to_ascii_lower(c);
            if l == 'c' {
                let a = if self.tracker.fresh_press {
                    KeyAction::Copy
                } else {
                    KeyAction::Nothing
                };
                return (a, true);
            }
            if l == 'v' {
                let a = if self.tracker.fresh_press {
                    KeyAction::Paste
                } else {
                    KeyAction::Nothing
                };
                return (a, true);
            }
            let btn = match btn_for_ctrl(l) {
                Some(b) => b,
                None => {
                    return (KeyAction::Nothing, false);
                },
            };
            let a = self.fire(btn);
            self.set_held(btn, key);
            return (a, true);
        }
        if modifiers.has_command() {
            return (KeyAction::Nothing, false);
        }
        let named = match key {
            Key::Named(n) => n,
            Key::Char(_) => {
                return (KeyAction::Nothing, false);
            },
        };
        let btn = match btn_for_named(named) {
            Some(b) => b,
            None => {
                return (KeyAction::Nothing, false);
            },
        };
        let a = self.fire(btn);
        self.set_held(btn, key);
        (a, true)
    }

    /// Handle typed text. Returns the action, if the character maps to a key.
    fn handle_char(&mut self, ch: char) -> (r: Option<KeyAction>)
        ensures
            match char_btn(ch) {
                Some(b) => {
                    &&& r == Some(old(self)@.tracker.fire(b))
                    &&& final(self)@ == (KeypadView {
                        tracker: match old(self)@.tracker.pending_down {
                            Some(k) => old(self)@.tracker.holding(b, k),
                            None => KeyTracker { held: Some(b), held_key: None, ..old(self)@.tracker },
                        },
                        ..old(self)@
                    })
                },
                None => r is None && final(self)@ == old(self)@,
            },
    {
        proof {
            use_type_invariant(&*self);
            use_type_invariant(&self.engine);
        }
        let btn = match btn_for_char(ch) {
            Some(b) => b,
            None => {
                return None;
            },
        };
        // Fire once per press: the characters that auto-repeat while the key
        // is held keep it depressed but don't re-trigger the action.
        let a = self.fire(btn);
        // Depress the key until the base key from the preceding key-down is
        // released; with none, just show it pressed.
        match self.tracker.pending_down {
            Some(key) => self.set_held(btn, key),
            None => {
                self.tracker.held = Some(btn);
                self.tracker.held_key = None;
            },
        }
        Some(a)
    }

    /// React to an input event: track presses and holds, and say which key
    /// (if any) fires.
    pub fn event(&mut self, ev: InputEvent) -> (r: Response)
        ensures
            ({
                let (t, resp) = old(self)@.tracker.step(ev, old(self)@.keys);
                &&& final(self)@ == (KeypadView { tracker: t, ..old(self)@ })
                &&& r == resp
            }),
            final(self)@.wf(),
            r.action matches KeyAction::Activate(b) ==> b.valid(),
    {
        proof {
            use_type_invariant(&*self);
            use_type_invariant(&self.engine);
        }
        let nothing = Response { action: KeyAction::Nothing, consumed: false, repaint: false, focus: false };
        match ev {
            InputEvent::PointerDown { pos, button } => {
                if button != MouseButton::Left {
                    return nothing;
                }
                match self.key_at(pos) {
                    Some(btn) => {
                        proof {
                            lemma_key_at_in(self@.keys, pos);
                        }
                        self.tracker.pressed = Some(btn);
                        self.tracker.over = true;
                        Response { action: KeyAction::Nothing, consumed: false, repaint: true, focus: true }
                    },
                    None => Response { focus: true, ..nothing },
                }
            },
            InputEvent::PointerMove { pos } => {
                if let Some(btn) = self.tracker.pressed {
                    let now_over = match self.key_rect(btn) {
                        Some(r) => r.contains(pos),
                        None => false,
                    };
                    if now_over != self.tracker.over {
                        self.tracker.over = now_over;
                        return Response { repaint: true, ..nothing };
                    }
                }
                nothing
            },
            InputEvent::PointerUp { pos, button } => {
                if button != MouseButton::Left {
                    return nothing;
                }
                match self.tracker.pressed {
                    Some(btn) => {
                        self.tracker.pressed = None;
                        let inside = match self.key_rect(btn) {
                            Some(r) => r.contains(pos),
                            None => false,
                        };
                        self.tracker.over = false;
                        let action = if inside {
                            KeyAction::Activate(btn)
                        } else {
                            KeyAction::Nothing
                        };
                        Response { action, repaint: true, ..nothing }
                    },
                    None => nothing,
                }
            },
            InputEvent::KeyDown { key, modifiers } => {
                if !self.tracker.focused {
                    return nothing;
                }
                // A key that's already down firing again is auto-repeat; a
                // calculator acts once per press.
                self.tracker.fresh_press = self.tracker.pending_down != Some(key);
                self.tracker.pending_down = Some(key);
                let (action, ok) = self.handle_key_down(key, modifiers);
                if ok {
                    Response { action, consumed: true, repaint: true, focus: false }
                } else {
                    nothing
                }
            },
            InputEvent::Char { ch, modifiers } => {
                if !self.tracker.focused || modifiers.has_command() {
                    return nothing;
                }
                match self.handle_char(ch) {
                    Some(action) => Response { action, consumed: true, repaint: true, focus: false },
                    None => nothing,
                }
            },
            InputEvent::KeyUp { key, modifiers: _ } => {
                if self.tracker.pending_down == Some(key) {
                    self.tracker.pending_down = None;
                }
                // Pop the key back up once the physical key that armed it is
                // let go.
                if self.tracker.held_key == Some(key) {
                    self.tracker.held = None;
                    self.tracker.held_key = None;
                    return Response { repaint: true, ..nothing };
                }
                nothing
            },
            InputEvent::Other => nothing,
        }
    }

    /// The computation key `btn` needs from the caller before `activate`.
    pub fn request(&self, btn: Btn) -> (r: Option<Request>)
        requires
            btn.valid(),
        ensures
            request_view(r) == key_request(self@.engine, btn),
    {
        let e = &self.engine;
        match btn {
            Btn::Digit(d) => e.digit_request(d),
            Btn::Dot => e.dot_request(),
            Btn::Neg => e.negate_request(),
            Btn::Add | Btn::Sub | Btn::Mul | Btn::Div => e.op_request(),
            Btn::Eq => e.equals_request(),
            Btn::Sqrt => e.sqrt_request(),
            Btn::Percent => e.percent_request(),
            Btn::Recip => e.reciprocal_request(),
            Btn::Back => e.backspace_request(),
            Btn::MemAdd => e.memory_add_request(),
            Btn::ClearEntry | Btn::ClearAll | Btn::MemClear | Btn::MemRecall | Btn::MemStore => None,
        }
    }

    /// Run a key's action against the engine; `answer` is the result of the
    /// computation `request(btn)` names (ignored when it names none).
    pub fn activate(&mut self, btn: Btn, answer: u64)
        requires
            btn.valid(),
        ensures
            final(self)@ == (KeypadView { engine: key_pressed(old(self)@.engine, btn, answer), ..old(self)@ }),
            final(self)@.wf(),
    {
        proof {
            use_type_invariant(&*self);
            use_type_invariant(&self.engine);
        }
        // The engine is worked on out of place and put back.
        let mut e = Engine::new();
        std::mem::swap(&mut e, &mut self.engine);
        match btn {
            Btn::Digit(d) => e.input_digit(d, answer),
            Btn::Dot => e.input_dot(answer),
            Btn::Neg => e.negate(answer),
            Btn::Add => e.input_op(Op::Add, answer),
            Btn::Sub => e.input_op(Op::Sub, answer),
            Btn::Mul => e.input_op(Op::Mul, answer),
            Btn::Div => e.input_op(Op::Div, answer),
            Btn::Eq => e.equals(answer),
            Btn::Sqrt => e.sqrt(answer),
            Btn::Percent => e.percent(answer),
            Btn::Recip => e.reciprocal(answer),
            Btn::Back => e.backspace(answer),
            Btn::ClearEntry => e.clear_entry(),
            Btn::ClearAll => e.clear_all(),
            Btn::MemClear => e.memory_clear(),
            Btn::MemRecall => e.memory_recall(),
            Btn::MemStore => e.memory_store(),
            Btn::MemAdd => e.memory_add(answer),
        }
        std::mem::swap(&mut e, &mut self.engine);
    }

    /// Copy the current value (Edit ▸ Copy / Ctrl+C): the text that goes on
    /// the clipboard, `formatted` being the caller's rendering of the value.
    pub fn copy(&self, formatted: String) -> (r: String)
        ensures
            r@ == if self@.engine.error is Some {
                Seq::<char>::empty()
            } else {
                formatted@
            },
    {
        self.engine.clipboard_text(formatted)
    }

    /// Paste a number onto the display (Edit ▸ Paste / Ctrl+V); `parsed` is the
    /// parse of the clipboard text, trimmed, or `None` when it does not parse.
    pub fn paste(&mut self, parsed: Option<u64>)
        ensures
            final(self)@ == (KeypadView { engine: old(self)@.engine.pasted(parsed), ..old(self)@ }),
            final(self)@.wf(),
    {
        proof {
            use_type_invariant(&*self);
            use_type_invariant(&self.engine);
        }
        let mut e = Engine::new();
        std::mem::swap(&mut e, &mut self.engine);
        e.paste(parsed);
        std::mem::swap(&mut e, &mut self.engine);
    }
}

} // verus!
