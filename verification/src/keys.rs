//! The keys of the pad, what they are labelled, and which keystrokes reach
//! them.

use vstd::prelude::*;

verus! {

/// Every key on the pad.
#[derive(Clone, Copy, Debug, PartialEq, Eq, Structural)]
pub enum Btn {
    Digit(u8),
    Dot,
    Neg,
    Add,
    Sub,
    Mul,
    Div,
    Eq,
    Sqrt,
    Percent,
    Recip,
    Back,
    ClearEntry,
    ClearAll,
    MemClear,
    MemRecall,
    MemStore,
    MemAdd,
}

/// The two key colours of the Win 3.1 pad.
#[derive(Clone, Copy, Debug, PartialEq, Eq, Structural)]
pub enum KeyTint {
    /// Digit, point and sign keys (painted dark blue).
    Blue,
    /// Operator, function and memory keys (painted maroon).
    Maroon,
}

impl Btn {
    /// A key that exists on the pad: digit keys carry a digit 0–9.
    pub open spec fn valid(self) -> bool {
        self matches Btn::Digit(d) ==> d <= 9
    }

    /// The face label, as text.
    pub open spec fn label_text(self) -> Seq<char> {
        match self {
            Btn::Digit(d) => if d == 0 {
                "0"@
            } else if d == 1 {
                "1"@
            } else if d == 2 {
                "2"@
            } else if d == 3 {
                "3"@
            } else if d == 4 {
                "4"@
            } else if d == 5 {
                "5"@
            } else if d == 6 {
                "6"@
            } else if d == 7 {
                "7"@
            } else if d == 8 {
                "8"@
            } else if d == 9 {
                "9"@
            } else {
                "?"@
            },
            Btn::Dot => "."@,
            Btn::Neg => "+/-"@,
            Btn::Add => "+"@,
            Btn::Sub => "-"@,
            Btn::Mul => "*"@,
            Btn::Div => "/"@,
            Btn::Eq => "="@,
            Btn::Sqrt => "sqrt"@,
            Btn::Percent => "%"@,
            Btn::Recip => "1/x"@,
            Btn::Back => "Back"@,
            Btn::ClearEntry => "CE"@,
            Btn::ClearAll => "C"@,
            Btn::MemClear => "MC"@,
            Btn::MemRecall => "MR"@,
            Btn::MemStore => "MS"@,
            Btn::MemAdd => "M+"@,
        }
    }

    /// The face label.
    pub fn label(self) -> (r: &'static str)
        ensures
            r@ == self.label_text(),
    {
        match self {
            Btn::Digit(0) => "0",
            Btn::Digit(1) => "1",
            Btn::Digit(2) => "2",
            Btn::Digit(3) => "3",
            Btn::Digit(4) => "4",
            Btn::Digit(5) => "5",
            Btn::Digit(6) => "6",
            Btn::Digit(7) => "7",
            Btn::Digit(8) => "8",
            Btn::Digit(9) => "9",
            Btn::Digit(_) => "?",
            Btn::Dot => ".",
            Btn::Neg => "+/-",
            Btn::Add => "+",
            Btn::Sub => "-",
            Btn::Mul => "*",
            Btn::Div => "/",
            Btn::Eq => "=",
            Btn::Sqrt => "sqrt",
            Btn::Percent => "%",
            Btn::Recip => "1/x",
            Btn::Back => "Back",
            Btn::ClearEntry => "CE",
            Btn::ClearAll => "C",
            Btn::MemClear => "MC",
            Btn::MemRecall => "MR",
            Btn::MemStore => "MS",
            Btn::MemAdd => "M+",
        }
    }

    /// The colour a key is painted in.
    pub open spec fn tint(self) -> KeyTint {
        match self {
            Btn::Digit(_) | Btn::Dot | Btn::Neg => KeyTint::Blue,
            _ => KeyTint::Maroon,
        }
    }

    /// Digit / dot / sign keys read blue; everything else reads maroon.
    pub fn color(self) -> (r: KeyTint)
        ensures
            r == self.tint(),
    {
        match self {
            Btn::Digit(_) | Btn::Dot | Btn::Neg => KeyTint::Blue,
            _ => KeyTint::Maroon,
        }
    }
}

/// The keys that produce no text of their own.
#[derive(Clone, Copy, Debug, PartialEq, Eq, Structural)]
pub enum NamedKey {
    Enter,
    Backspace,
    Delete,
    Tab,
    Escape,
    Space,
    Left,
    Right,
    Up,
    Down,
    Home,
    End,
    PageUp,
    PageDown,
    F1,
    F2,
    F3,
    F4,
    F5,
    F6,
    F7,
    F8,
    F9,
    F10,
    F11,
    F12,
    F13,
    F14,
    F15,
    F16,
    F17,
    F18,
    F19,
    F20,
    F21,
    F22,
    F23,
    F24,
}

/// A key press independent of the text it produces.
#[derive(Clone, Copy, Debug, PartialEq, Eq, Structural)]
pub enum Key {
    Named(NamedKey),
    Char(char),
}

/// The modifier keys held during an event.
#[derive(Clone, Copy, Debug, PartialEq, Eq, Structural)]
pub struct Modifiers {
    pub shift: bool,
    pub control: bool,
    /// Any Alt / Option key, either side.
    pub alt: bool,
    /// The right Alt key (`AltGr`), which composes characters.
    pub alt_graph: bool,
    pub logo: bool,
}

impl Modifiers {
    /// No modifier held.
    pub open spec fn none() -> Modifiers {
        Modifiers { shift: false, control: false, alt: false, alt_graph: false, logo: false }
    }

    /// A command modifier (Ctrl / left Alt / Logo) is held; `AltGr` composes
    /// characters and is never one.
    pub open spec fn is_command(self) -> bool {
        !self.alt_graph && (self.control || self.alt || self.logo)
    }

    /// Whether a command modifier is held.
    pub fn has_command(&self) -> (r: bool)
        ensures
            r == self.is_command(),
    {
        if self.alt_graph {
            return false;
        }
        self.control || self.alt || self.logo
    }
}

/// The lower-case form of an ASCII letter; any other character is unchanged.
pub open spec fn ascii_lower(c: char) -> char {
    if 'A' <= c && c <= 'Z' {
        ((c as u32) + 32) as char
    } else {
        c
    }
}

/// The lower-case form of an ASCII letter.
pub fn to_ascii_lower(c: char) -> (r: char)
    ensures
        r == ascii_lower(c),
{
    if 'A' <= c && c <= 'Z' {
        ((c as u8) + 32) as char
    } else {
        c
    }
}

/// The key a typed character maps to.
pub open spec fn char_btn(ch: char) -> Option<Btn> {
    if '0' <= ch && ch <= '9' {
        Some(Btn::Digit(((ch as u32) - ('0' as u32)) as u8))
    } else if ch == '.' || ch == ',' {
        Some(Btn::Dot)
    } else if ch == '+' {
        Some(Btn::Add)
    } else if ch == '-' {
        Some(Btn::Sub)
    } else if ch == '*' {
        Some(Btn::Mul)
    } else if ch == '/' {
        Some(Btn::Div)
    } else if ch == '=' {
        Some(Btn::Eq)
    } else if ch == '%' {
        Some(Btn::Percent)
    } else if ch == 'r' || ch == 'R' {
        Some(Btn::Recip)
    } else if ch == '@' || ch == 'q' || ch == 'Q' {
        Some(Btn::Sqrt)
    } else {
        None
    }
}

/// The keypad button a text character maps to.
pub fn btn_for_char(ch: char) -> (r: Option<Btn>)
    ensures
        r == char_btn(ch),
        r matches Some(b) ==> b.valid(),
{
    if '0' <= ch && ch <= '9' {
        Some(Btn::Digit((ch as u8) - ('0' as u8)))
    } else if ch == '.' || ch == ',' {
        Some(Btn::Dot)
    } else if ch == '+' {
        Some(Btn::Add)
    } else if ch == '-' {
        Some(Btn::Sub)
    } else if ch == '*' {
        Some(Btn::Mul)
    } else if ch == '/' {
        Some(Btn::Div)
    } else if ch == '=' {
        Some(Btn::Eq)
    } else if ch == '%' {
        Some(Btn::Percent)
    } else if ch == 'r' || ch == 'R' {
        Some(Btn::Recip)
    } else if ch == '@' || ch == 'q' || ch == 'Q' {
        Some(Btn::Sqrt)
    } else {
        None
    }
}

/// The key a named key maps to.
pub open spec fn named_btn(named: NamedKey) -> Option<Btn> {
    match named {
        NamedKey::Enter => Some(Btn::Eq),
        NamedKey::Backspace => Some(Btn::Back),
        NamedKey::Delete => Some(Btn::ClearEntry),
        NamedKey::Escape => Some(Btn::ClearAll),
        _ => None,
    }
}

/// The keypad button a named key maps to.
pub fn btn_for_named(named: NamedKey) -> (r: Option<Btn>)
    ensures
        r == named_btn(named),
{
    match named {
        NamedKey::Enter => Some(Btn::Eq),
        NamedKey::Backspace => Some(Btn::Back),
        NamedKey::Delete => Some(Btn::ClearEntry),
        NamedKey::Escape => Some(Btn::ClearAll),
        _ => None,
    }
}

/// The memory key a (lower-case) Ctrl-chord letter maps to.
pub open spec fn ctrl_btn(c: char) -> Option<Btn> {
    if c == 'l' {
        Some(Btn::MemClear)
    } else if c == 'r' {
        Some(Btn::MemRecall)
    } else if c == 'm' {
        Some(Btn::MemStore)
    } else if c == 'p' {
        Some(Btn::MemAdd)
    } else {
        None
    }
}

/// The memory keypad button a (lower-case) Ctrl-chord letter maps to.
pub fn btn_for_ctrl(c: char) -> (r: Option<Btn>)
    ensures
        r == ctrl_btn(c),
{
    match c {
        'l' => Some(Btn::MemClear),
        'r' => Some(Btn::MemRecall),
        'm' => Some(Btn::MemStore),
        'p' => Some(Btn::MemAdd),
        _ => None,
    }
}

} // verus!
