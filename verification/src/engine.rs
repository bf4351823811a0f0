//! The calculator engine — all of the decisions, none of the pixels.
//!
//! A state machine modelling the Windows 3.1 `CALC.EXE` standard view with
//! **immediate execution**: there is no operator precedence, each operator key
//! resolves the one before it, so `2 + 3 * 4 =` is `(2 + 3) * 4 = 20`.
//!
//! Numbers are binary64 values held as bit patterns (see `binary64`). The
//! engine decides *what* is computed and what happens with the outcome; the
//! arithmetic itself (a sum, a square root, parsing the typed digits) is done
//! by the caller. Every step that needs one has a `*_request` query naming the
//! computation, and takes its outcome as an argument: `answer` is the bit
//! pattern of the requested result. When the query returns `None` the answer is
//! not looked at.

use vstd::prelude::*;

use crate::binary64::{
    finite, is_finite, is_negative, is_zero, negate, negated, negative, zero, POSITIVE_ZERO,
};
use crate::entry::{
    backspaced, count_digits, digit_count, entry_backspaced, entry_negated, entry_ok,
    entry_with_digit, entry_with_dot, fresh_entry, is_zero_text, lemma_digit_count_single,
    lemma_entry_backspaced_ok, lemma_entry_negated_ok, lemma_entry_with_digit_ok,
    lemma_entry_with_dot_ok, lemma_fresh_entry_ok, negated_entry, reads_as_zero, sign_edits,
    sign_edits_entry, trim_dots, with_digit, with_dot, without_trailing_dots, MAX_DIGITS,
};
use crate::text::string_of;

verus! {

/// The four binary operators. `%`, `sqrt`, `1/x` and `+/-` act on the current
/// display immediately and so aren't modelled here.
#[derive(Clone, Copy, Debug, PartialEq, Eq, Structural)]
pub enum Op {
    Add,
    Sub,
    Mul,
    Div,
}

/// Why the engine is wedged. While an error is latched the display shows the
/// message and the engine ignores everything except a digit, the point, `C`,
/// `CE`, `MC` or a paste — like the Win 3.1 calculator, which made you clear
/// before carrying on.
#[derive(Clone, Copy, Debug, PartialEq, Eq, Structural)]
pub enum CalcError {
    DivByZero,
    /// `sqrt` of a negative number.
    Invalid,
    Overflow,
}

impl CalcError {
    /// The text shown for this error.
    pub open spec fn text(self) -> Seq<char> {
        match self {
            CalcError::DivByZero => "Cannot divide by zero"@,
            CalcError::Invalid => "Invalid input"@,
            CalcError::Overflow => "Overflow"@,
        }
    }

    /// The text shown in the display while this error is latched.
    pub fn message(self) -> (r: &'static str)
        ensures
            r@ == self.text(),
    {
        match self {
            CalcError::DivByZero => "Cannot divide by zero",
            CalcError::Invalid => "Invalid input",
            CalcError::Overflow => "Overflow",
        }
    }
}

impl Op {
    /// Whether `lhs op rhs` has to be computed: a division by zero fails
    /// without computing anything.
    pub open spec fn computes(self, rhs: u64) -> bool {
        !(self == Op::Div && is_zero(rhs))
    }

    /// What applying the operator yields, given the raw result `raw` of the
    /// computation: division by zero and a result that overflowed to a
    /// non-finite value are the two failures the display reports.
    pub open spec fn outcome(self, rhs: u64, raw: u64) -> Result<u64, CalcError> {
        if !self.computes(rhs) {
            Err(CalcError::DivByZero)
        } else if !is_finite(raw) {
            Err(CalcError::Overflow)
        } else {
            Ok(raw)
        }
    }

    /// Apply the operator to the raw result `raw` of `lhs op rhs`.
    fn apply(self, rhs: u64, raw: u64) -> (r: Result<u64, CalcError>)
        ensures
            r == self.outcome(rhs, raw),
    {
        if self == Op::Div && zero(rhs) {
            return Err(CalcError::DivByZero);
        }
        if finite(raw) {
            Ok(raw)
        } else {
            Err(CalcError::Overflow)
        }
    }
}

/// A computation the engine needs before it can take a step. Numbers are
/// binary64 bit patterns; the answer is the bit pattern of the result.
pub enum Request {
    /// `lhs op rhs`, as the floating-point operation (no rounding beyond it).
    Apply { op: Op, lhs: u64, rhs: u64 },
    /// The square root of `value`.
    SquareRoot { value: u64 },
    /// `1 / value`.
    Reciprocal { value: u64 },
    /// `acc * value / 100`.
    Percent { acc: u64, value: u64 },
    /// The number `text` denotes: an optional `-`, digits, and at most one `.`
    /// with digits on both sides (zero when it does not parse).
    Parse { text: String },
}

/// The mathematical content of a `Request`.
pub enum RequestView {
    Apply { op: Op, lhs: u64, rhs: u64 },
    SquareRoot { value: u64 },
    Reciprocal { value: u64 },
    Percent { acc: u64, value: u64 },
    Parse { text: Seq<char> },
}

impl View for Request {
    type V = RequestView;

    open spec fn view(&self) -> RequestView {
        match self {
            Request::Apply { op, lhs, rhs } => RequestView::Apply { op: *op, lhs: *lhs, rhs: *rhs },
            Request::SquareRoot { value } => RequestView::SquareRoot { value: *value },
            Request::Reciprocal { value } => RequestView::Reciprocal { value: *value },
            Request::Percent { acc, value } => RequestView::Percent { acc: *acc, value: *value },
            Request::Parse { text } => RequestView::Parse { text: text@ },
        }
    }
}

/// The view of an optional request.
pub open spec fn request_view(r: Option<Request>) -> Option<RequestView> {
    match r {
        Some(q) => Some(q@),
        None => None,
    }
}

/// The number an entry stands for, given the parsed value `parsed` of its
/// text: texts that do not yet spell a number (`-`, `-0`, a bare point) read
/// as positive zero without parsing.
pub open spec fn entry_value(e: Seq<char>, parsed: u64) -> u64 {
    if is_zero_text(trim_dots(e)) {
        POSITIVE_ZERO
    } else {
        parsed
    }
}

/// The parse an entry needs, if any.
pub open spec fn entry_request(e: Seq<char>) -> Option<RequestView> {
    if is_zero_text(trim_dots(e)) {
        None
    } else {
        Some(RequestView::Parse { text: trim_dots(e) })
    }
}

/// The engine's state as plain values.
#[verifier::ext_equal]
pub struct CalcState {
    /// Running left-hand total: what a pending operator combines with the
    /// display when it resolves.
    pub acc: u64,
    /// Operator waiting for its right-hand operand.
    pub pending: Option<Op>,
    /// Whether the display is a right-hand operand ready to be folded into
    /// `acc` by `pending`. This is what lets `5 + + =` mean `5 + 5` rather
    /// than applying twice.
    pub operand_ready: bool,
    /// The last operator and right operand, replayed by a repeated `=`.
    pub repeat: Option<(Op, u64)>,
    /// The number on the display.
    pub value: u64,
    /// The literal keystrokes while a number is being typed.
    pub entry: Option<Seq<char>>,
    /// The memory register.
    pub memory: u64,
    /// The latched error, if any.
    pub error: Option<CalcError>,
}

impl CalcState {
    /// What every state keeps: a typed entry is well formed (at most
    /// `MAX_DIGITS` digits, one point), and nothing is typed while an error is
    /// latched.
    pub open spec fn wf(self) -> bool {
        &&& (self.entry matches Some(e) ==> entry_ok(e))
        &&& (self.error is Some ==> self.entry is None)
    }

    /// A freshly switched-on calculator.
    pub open spec fn initial() -> CalcState {
        CalcState {
            acc: POSITIVE_ZERO,
            pending: None,
            operand_ready: false,
            repeat: None,
            value: POSITIVE_ZERO,
            entry: None,
            memory: POSITIVE_ZERO,
            error: None,
        }
    }

    /// Everything reset except the memory register.
    pub open spec fn cleared(self) -> CalcState {
        CalcState { memory: self.memory, ..CalcState::initial() }
    }

    /// A latched error is wiped (memory kept) before typing starts again.
    pub open spec fn recovered(self) -> CalcState {
        if self.error is Some {
            self.cleared()
        } else {
            self
        }
    }

    /// Latch `e` and blank the entry.
    pub open spec fn failed(self, e: CalcError) -> CalcState {
        CalcState { error: Some(e), entry: None, ..self }
    }

    /// Show entry `e`, whose text parses to `parsed`.
    pub open spec fn typed(self, e: Seq<char>, parsed: u64) -> CalcState {
        CalcState { entry: Some(e), value: entry_value(e, parsed), ..self }
    }

    /// Show the finished value `v` as a ready operand.
    pub open spec fn showing(self, v: u64) -> CalcState {
        CalcState { value: v, entry: None, operand_ready: true, ..self }
    }

    /// Arm operator `op`.
    pub open spec fn armed(self, op: Op) -> CalcState {
        CalcState { pending: Some(op), operand_ready: false, entry: None, ..self }
    }

    /// Resolve `op` with right operand `rhs` and raw result `raw` into the
    /// accumulator and display, or latch its error.
    pub open spec fn committed(self, op: Op, rhs: u64, raw: u64) -> CalcState {
        match op.outcome(rhs, raw) {
            Ok(v) => CalcState { acc: v, value: v, ..self },
            Err(e) => self.failed(e),
        }
    }

    /// The entry a digit or point is typed onto.
    pub open spec fn typing_base(self) -> Seq<char> {
        match self.recovered().entry {
            Some(e) => e,
            None => fresh_entry(),
        }
    }

    /// Digit `d` pressed; `parsed` is the value of the resulting entry.
    pub open spec fn digit_pressed(self, d: u8, parsed: u64) -> CalcState {
        let r = self.recovered();
        let e = self.typing_base();
        if digit_count(e) >= MAX_DIGITS {
            r
        } else {
            CalcState { operand_ready: true, ..r.typed(entry_with_digit(e, d), parsed) }
        }
    }

    /// The parse a digit needs.
    pub open spec fn digit_request(self, d: u8) -> Option<RequestView> {
        let e = self.typing_base();
        if digit_count(e) >= MAX_DIGITS {
            None
        } else {
            entry_request(entry_with_digit(e, d))
        }
    }

    /// The entry after the point key.
    pub open spec fn dotted_entry(self) -> Seq<char> {
        match self.recovered().entry {
            Some(e) => entry_with_dot(e),
            None => seq!['0', '.'],
        }
    }

    /// The point key pressed.
    pub open spec fn dot_pressed(self, parsed: u64) -> CalcState {
        CalcState { operand_ready: true, ..self.recovered().typed(self.dotted_entry(), parsed) }
    }

    /// The parse the point key needs.
    pub open spec fn dot_request(self) -> Option<RequestView> {
        entry_request(self.dotted_entry())
    }

    /// Backspace pressed: only a number being typed is edited.
    pub open spec fn backspaced(self, parsed: u64) -> CalcState {
        if self.error is Some {
            self
        } else {
            match self.entry {
                Some(e) => self.typed(entry_backspaced(e), parsed),
                None => self,
            }
        }
    }

    /// The parse Backspace needs.
    pub open spec fn backspace_request(self) -> Option<RequestView> {
        if self.error is Some {
            None
        } else {
            match self.entry {
                Some(e) => entry_request(entry_backspaced(e)),
                None => None,
            }
        }
    }

    /// One of `+ - * /` pressed. A pending operator with an operand ready
    /// resolves first (chains compute left to right); two operators in a row
    /// just swap the armed one; the first operator of a chain seeds the
    /// accumulator from the display.
    pub open spec fn operator_pressed(self, op: Op, raw: u64) -> CalcState {
        if self.error is Some {
            self
        } else {
            match self.pending {
                Some(p) => if self.operand_ready {
                    match p.outcome(self.value, raw) {
                        Ok(v) => CalcState { acc: v, value: v, ..self }.armed(op),
                        Err(e) => self.failed(e),
                    }
                } else {
                    self.armed(op)
                },
                None => CalcState { acc: self.value, ..self }.armed(op),
            }
        }
    }

    /// The computation an operator key needs.
    pub open spec fn operator_request(self) -> Option<RequestView> {
        match self.pending {
            Some(p) => if self.error is None && self.operand_ready && p.computes(self.value) {
                Some(RequestView::Apply { op: p, lhs: self.acc, rhs: self.value })
            } else {
                None
            },
            None => None,
        }
    }

    /// `=` pressed: resolves the pending operator (remembering it and its
    /// right operand), or replays the remembered pair on the display.
    pub open spec fn equals_pressed(self, raw: u64) -> CalcState {
        if self.error is Some {
            self
        } else {
            let t = match self.pending {
                Some(op) => match op.outcome(self.value, raw) {
                    Ok(v) => CalcState { acc: v, value: v, repeat: Some((op, self.value)), ..self },
                    Err(e) => self.failed(e),
                },
                None => match self.repeat {
                    Some(r) => self.committed(r.0, r.1, raw),
                    None => self,
                },
            };
            CalcState { pending: None, operand_ready: false, entry: None, ..t }
        }
    }

    /// The computation `=` needs.
    pub open spec fn equals_request(self) -> Option<RequestView> {
        if self.error is Some {
            None
        } else {
            match self.pending {
                Some(op) => if op.computes(self.value) {
                    Some(RequestView::Apply { op, lhs: self.acc, rhs: self.value })
                } else {
                    None
                },
                None => match self.repeat {
                    Some(r) => if r.0.computes(r.1) {
                        Some(RequestView::Apply { op: r.0, lhs: self.value, rhs: r.1 })
                    } else {
                        None
                    },
                    None => None,
                },
            }
        }
    }

    /// `+/-` pressed: edits the entry in place while typing, otherwise negates
    /// the value.
    pub open spec fn sign_pressed(self, parsed: u64) -> CalcState {
        if self.error is Some {
            self
        } else {
            match self.entry {
                Some(e) => if sign_edits_entry(e) {
                    self.typed(entry_negated(e), parsed)
                } else {
                    CalcState { value: negated(self.value), ..self }
                },
                None => CalcState { value: negated(self.value), ..self },
            }
        }
    }

    /// The parse `+/-` needs.
    pub open spec fn sign_request(self) -> Option<RequestView> {
        if self.error is Some {
            None
        } else {
            match self.entry {
                Some(e) => if sign_edits_entry(e) {
                    entry_request(entry_negated(e))
                } else {
                    None
                },
                None => None,
            }
        }
    }

    /// `sqrt` pressed; `root` is the square root of the value.
    pub open spec fn sqrt_pressed(self, root: u64) -> CalcState {
        if self.error is Some {
            self
        } else if is_negative(self.value) {
            self.failed(CalcError::Invalid)
        } else {
            self.showing(root)
        }
    }

    /// The computation `sqrt` needs.
    pub open spec fn sqrt_request(self) -> Option<RequestView> {
        if self.error is None && !is_negative(self.value) {
            Some(RequestView::SquareRoot { value: self.value })
        } else {
            None
        }
    }

    /// `1/x` pressed; `inverse` is `1 / value`.
    pub open spec fn reciprocal_pressed(self, inverse: u64) -> CalcState {
        if self.error is Some {
            self
        } else if is_zero(self.value) {
            self.failed(CalcError::DivByZero)
        } else if is_finite(inverse) {
            self.showing(inverse)
        } else {
            self.failed(CalcError::Overflow)
        }
    }

    /// The computation `1/x` needs.
    pub open spec fn reciprocal_request(self) -> Option<RequestView> {
        if self.error is None && !is_zero(self.value) {
            Some(RequestView::Reciprocal { value: self.value })
        } else {
            None
        }
    }

    /// `%` pressed: with an operator pending the display reads as a percentage
    /// of the accumulator (`portion` is `acc * value / 100`), otherwise it
    /// yields zero.
    pub open spec fn percent_pressed(self, portion: u64) -> CalcState {
        if self.error is Some {
            self
        } else {
            let r = if self.pending is Some {
                portion
            } else {
                POSITIVE_ZERO
            };
            if is_finite(r) {
                self.showing(r)
            } else {
                self.failed(CalcError::Overflow)
            }
        }
    }

    /// The computation `%` needs.
    pub open spec fn percent_request(self) -> Option<RequestView> {
        if self.error is None && self.pending is Some {
            Some(RequestView::Percent { acc: self.acc, value: self.value })
        } else {
            None
        }
    }

    /// `MC`.
    pub open spec fn memory_cleared(self) -> CalcState {
        CalcState { memory: POSITIVE_ZERO, ..self }
    }

    /// `MR`.
    pub open spec fn memory_recalled(self) -> CalcState {
        if self.error is Some {
            self
        } else {
            self.showing(self.memory)
        }
    }

    /// `MS`.
    pub open spec fn memory_stored(self) -> CalcState {
        if self.error is Some {
            self
        } else {
            CalcState { memory: self.value, entry: None, ..self }
        }
    }

    /// `M+`; `sum` is `memory + value`.
    pub open spec fn memory_added(self, sum: u64) -> CalcState {
        if self.error is Some {
            self
        } else {
            CalcState { memory: sum, entry: None, ..self }
        }
    }

    /// The computation `M+` needs.
    pub open spec fn memory_add_request(self) -> Option<RequestView> {
        if self.error is None {
            Some(RequestView::Apply { op: Op::Add, lhs: self.memory, rhs: self.value })
        } else {
            None
        }
    }

    /// `CE`: the entry (and any error) goes; the pending operator and the
    /// running total stay.
    pub open spec fn entry_cleared(self) -> CalcState {
        CalcState {
            error: None,
            value: POSITIVE_ZERO,
            entry: None,
            operand_ready: false,
            ..self
        }
    }

    /// A pasted number, `parsed` being the parse of the pasted text (`None`
    /// when it does not parse). Anything not finite is ignored.
    pub open spec fn pasted(self, parsed: Option<u64>) -> CalcState {
        match parsed {
            Some(v) => if is_finite(v) {
                CalcState { error: None, ..self.showing(v) }
            } else {
                self
            },
            None => self,
        }
    }

    /// The readout: the error message while latched, the literal keystrokes
    /// while typing, or the formatted value (`formatted`) otherwise.
    pub open spec fn readout(self, formatted: Seq<char>) -> Seq<char> {
        match self.error {
            Some(e) => e.text(),
            None => match self.entry {
                Some(e) => e,
                None => formatted,
            },
        }
    }
}

/// The number an entry stands for, given its parsed text `parsed`.
fn parse_entry(e: &Vec<char>, parsed: u64) -> (v: u64)
    ensures
        v == entry_value(e@, parsed),
{
    let t = without_trailing_dots(e);
    if reads_as_zero(&t) {
        POSITIVE_ZERO
    } else {
        parsed
    }
}

/// The parse an entry needs, if any.
fn entry_parse_request(e: &Vec<char>) -> (r: Option<Request>)
    ensures
        request_view(r) == entry_request(e@),
{
    let t = without_trailing_dots(e);
    if reads_as_zero(&t) {
        None
    } else {
        Some(Request::Parse { text: string_of(&t) })
    }
}

/// The calculator engine.
pub struct Engine {
    acc: u64,
    pending: Option<Op>,
    operand_ready: bool,
    repeat: Option<(Op, u64)>,
    value: u64,
    entry: Option<Vec<char>>,
    memory: u64,
    error: Option<CalcError>,
}

impl View for Engine {
    type V = CalcState;

    closed spec fn view(&self) -> CalcState {
        CalcState {
            acc: self.acc,
            pending: self.pending,
            operand_ready: self.operand_ready,
            repeat: self.repeat,
            value: self.value,
            entry: match self.entry {
                Some(e) => Some(e@),
                None => None,
            },
            memory: self.memory,
            error: self.error,
        }
    }
}

impl Default for Engine {
    fn default() -> (e: Engine)
        ensures
            e@ == CalcState::initial(),
    {
        Engine::new()
    }
}

impl Engine {
    /// Every engine keeps its state well formed.
    #[verifier::type_invariant]
    pub(crate) open spec fn well_formed(self) -> bool {
        self@.wf()
    }

    /// A freshly switched-on calculator showing `0`.
    pub fn new() -> (e: Engine)
        ensures
            e@ == CalcState::initial(),
            e@.wf(),
    {
        Engine {
            acc: POSITIVE_ZERO,
            pending: None,
            operand_ready: false,
            repeat: None,
            value: POSITIVE_ZERO,
            entry: None,
            memory: POSITIVE_ZERO,
            error: None,
        }
    }

    // -- queries -----------------------------------------------------------

    /// The text to paint in the readout: the error message while latched, the
    /// literal keystrokes while typing, or `formatted` — the caller's rendering
    /// of `value_bits()` — otherwise.
    pub fn display(&self, formatted: String) -> (r: String)
        ensures
            r@ == self@.readout(formatted@),
    {
        if let Some(err) = self.error {
            return err.message().to_owned();
        }
        match &self.entry {
            Some(e) => string_of(e),
            None => formatted,
        }
    }

    /// The number on the display, as a binary64 bit pattern.
    pub fn value_bits(&self) -> (r: u64)
        ensures
            r == self@.value,
    {
        self.value
    }

    /// Whether the readout is showing an error message.
    pub fn is_error(&self) -> (r: bool)
        ensures
            r == self@.error is Some,
    {
        self.error.is_some()
    }

    /// Whether the memory register holds a non-zero value — drives the `M`
    /// indicator next to the keypad.
    pub fn memory_active(&self) -> (r: bool)
        ensures
            r == !is_zero(self@.memory),
    {
        !zero(self.memory)
    }

    /// A clean string for the clipboard: `formatted` (the caller's rendering of
    /// `value_bits()`, never a half-typed entry), or nothing while an error is
    /// latched.
    pub fn clipboard_text(&self, formatted: String) -> (r: String)
        ensures
            r@ == if self@.error is Some {
                Seq::<char>::empty()
            } else {
                formatted@
            },
    {
        if self.error.is_some() {
            return String::new();
        }
        formatted
    }

    // -- internals ---------------------------------------------------------

    /// Latch an error and blank the in-progress entry.
    fn fail(&mut self, e: CalcError)
        ensures
            final(self)@ == old(self)@.failed(e),
    {
        self.entry = None;
        self.error = Some(e);
    }

    /// Resolve `op` (right operand `rhs`, raw result `raw`) into the
    /// accumulator and display, latching an error if it failed. Returns whether
    /// it succeeded.
    fn commit(&mut self, op: Op, rhs: u64, raw: u64) -> (ok: bool)
        ensures
            final(self)@ == old(self)@.committed(op, rhs, raw),
            ok == op.outcome(rhs, raw) is Ok,
    {
        proof {
            use_type_invariant(&*self);
        }
        match op.apply(rhs, raw) {
            Ok(v) => {
                self.acc = v;
                self.value = v;
                true
            },
            Err(e) => {
                self.fail(e);
                false
            },
        }
    }

    /// Show the outcome of a unary key: the result reads as a ready operand,
    /// so `5 + 9 sqrt =` computes `5 + 3`.
    fn unary(&mut self, outcome: Result<u64, CalcError>)
        ensures
            final(self)@ == match outcome {
                Ok(v) => old(self)@.showing(v),
                Err(e) => old(self)@.failed(e),
            },
    {
        proof {
            use_type_invariant(&*self);
        }
        match outcome {
            Ok(v) => {
                self.value = v;
                self.entry = None;
                self.operand_ready = true;
            },
            Err(e) => self.fail(e),
        }
    }

    /// A digit or point pressed while an error is latched clears it first,
    /// starting a clean slate (memory is preserved).
    fn recover_from_error(&mut self)
        ensures
            final(self)@ == old(self)@.recovered(),
    {
        if self.error.is_some() {
            self.clear_all();
        }
    }

    /// Bring the value in line with the entry, whose text parses to `parsed`.
    fn sync_value_from_entry(&mut self, parsed: u64)
        ensures
            final(self)@ == match old(self)@.entry {
                Some(e) => old(self)@.typed(e, parsed),
                None => old(self)@,
            },
    {
        proof {
            use_type_invariant(&*self);
        }
        if let Some(e) = &self.entry {
            self.value = parse_entry(e, parsed);
        }
    }

    /// Take the entry out, leaving none.
    fn take_entry(&mut self) -> (e: Option<Vec<char>>)
        ensures
            final(self)@ == (CalcState { entry: None, ..old(self)@ }),
            match e {
                Some(v) => old(self)@.entry == Some(v@),
                None => old(self)@.entry is None,
            },
            e matches Some(v) ==> entry_ok(v@),
    {
        proof {
            use_type_invariant(&*self);
        }
        let mut e: Option<Vec<char>> = None;
        std::mem::swap(&mut e, &mut self.entry);
        e
    }

    /// The entry typing continues from.
    fn typing_base(&self) -> (e: Vec<char>)
        ensures
            e@ == self@.typing_base(),
    {
        let z = vec!['0'];
        assert(z@ =~= fresh_entry());
        if self.error.is_some() {
            return z;
        }
        match &self.entry {
            Some(e) => e.clone(),
            None => z,
        }
    }

    // -- number entry ------------------------------------------------------

    /// The parse `input_digit(d, _)` needs.
    pub fn digit_request(&self, d: u8) -> (r: Option<Request>)
        requires
            d <= 9,
        ensures
            request_view(r) == self@.digit_request(d),
    {
        let e = self.typing_base();
        if count_digits(&e) >= MAX_DIGITS {
            return None;
        }
        entry_parse_request(&with_digit(e, d))
    }

    /// Append decimal digit `d` (0–9) to the current entry, starting a fresh
    /// one if the display was showing a finished value; `parsed` is the value
    /// of the resulting entry.
    pub fn input_digit(&mut self, d: u8, parsed: u64)
        requires
            d <= 9,
        ensures
            final(self)@ == old(self)@.digit_pressed(d, parsed),
            final(self)@.wf(),
    {
        let ghost start = self@;
        self.recover_from_error();
        let e = match self.take_entry() {
            Some(e) => e,
            None => vec!['0'],
        };
        proof {
            lemma_fresh_entry_ok();
            lemma_digit_count_single('0');
            if start.recovered().entry is None {
                assert(e@ =~= fresh_entry());
            }
        }
        if count_digits(&e) >= MAX_DIGITS {
            self.entry = Some(e);
            return;
        }
        proof {
            lemma_entry_with_digit_ok(e@, d);
        }
        self.entry = Some(with_digit(e, d));
        self.sync_value_from_entry(parsed);
        self.operand_ready = true;
    }

    /// The parse `input_dot(_)` needs.
    pub fn dot_request(&self) -> (r: Option<Request>)
        ensures
            request_view(r) == self@.dot_request(),
    {
        let e = if self.error.is_some() {
            None
        } else {
            self.entry.clone()
        };
        let e = match e {
            Some(e) => with_dot(e),
            None => {
                let z = vec!['0', '.'];
                assert(z@ =~= seq!['0', '.']);
                z
            },
        };
        entry_parse_request(&e)
    }

    /// Begin (or continue) the fractional part of the entry; `parsed` is the
    /// value of the resulting entry.
    pub fn input_dot(&mut self, parsed: u64)
        ensures
            final(self)@ == old(self)@.dot_pressed(parsed),
            final(self)@.wf(),
    {
        self.recover_from_error();
        let e = match self.take_entry() {
            Some(e) => {
                proof {
                    lemma_entry_with_dot_ok(e@);
                }
                with_dot(e)
            },
            None => {
                let z = vec!['0', '.'];
                assert(z@ =~= seq!['0', '.']);
                proof {
                    lemma_fresh_entry_ok();
                }
                z
            },
        };
        self.entry = Some(e);
        self.sync_value_from_entry(parsed);
        self.operand_ready = true;
    }

    /// The parse `backspace(_)` needs.
    pub fn backspace_request(&self) -> (r: Option<Request>)
        ensures
            request_view(r) == self@.backspace_request(),
    {
        proof {
            use_type_invariant(&*self);
        }
        if self.error.is_some() {
            return None;
        }
        match &self.entry {
            Some(e) => entry_parse_request(&backspaced(e.clone())),
            None => None,
        }
    }

    /// Delete the last typed character; `parsed` is the value of the resulting
    /// entry. A no-op unless a number is being typed — you can't Backspace
    /// into a finished result.
    pub fn backspace(&mut self, parsed: u64)
        ensures
            final(self)@ == old(self)@.backspaced(parsed),
            final(self)@.wf(),
    {
        proof {
            use_type_invariant(&*self);
        }
        if self.error.is_some() {
            return;
        }
        match self.take_entry() {
            Some(e) => {
                proof {
                    lemma_entry_backspaced_ok(e@);
                }
                self.entry = Some(backspaced(e));
                self.sync_value_from_entry(parsed);
            },
            None => {},
        }
    }

    // -- binary operators --------------------------------------------------

    /// The computation `input_op(_, _)` needs: the pending operator applied
    /// to the accumulator and the display, when an operand is ready.
    pub fn op_request(&self) -> (r: Option<Request>)
        ensures
            request_view(r) == self@.operator_request(),
    {
        match self.pending {
            Some(p) => if self.error.is_none() && self.operand_ready && !(p == Op::Div && zero(
                self.value,
            )) {
                Some(Request::Apply { op: p, lhs: self.acc, rhs: self.value })
            } else {
                None
            },
            None => None,
        }
    }

    /// Press one of `+ - * /`. Resolves any pending operator first (so chains
    /// compute left to right; `raw` is the raw result of that computation) and
    /// then arms the new one.
    pub fn input_op(&mut self, op: Op, raw: u64)
        ensures
            final(self)@ == old(self)@.operator_pressed(op, raw),
            final(self)@.wf(),
    {
        proof {
            use_type_invariant(&*self);
        }
        if self.error.is_some() {
            return;
        }
        match self.pending {
            Some(p) => {
                // A pending operator with an operand ready resolves now; two
                // operators in a row just swap which one is armed.
                if self.operand_ready {
                    if !self.commit(p, self.value, raw) {
                        return;
                    }
                }
            },
            // First operator of a chain: seed the accumulator from the display.
            None => self.acc = self.value,
        }
        self.pending = Some(op);
        self.operand_ready = false;
        self.entry = None;
    }

    /// The computation `equals(_)` needs.
    pub fn equals_request(&self) -> (r: Option<Request>)
        ensures
            request_view(r) == self@.equals_request(),
    {
        if self.error.is_some() {
            return None;
        }
        match self.pending {
            Some(op) => if !(op == Op::Div && zero(self.value)) {
                Some(Request::Apply { op, lhs: self.acc, rhs: self.value })
            } else {
                None
            },
            None => match self.repeat {
                Some((op, rhs)) => if !(op == Op::Div && zero(rhs)) {
                    Some(Request::Apply { op, lhs: self.value, rhs })
                } else {
                    None
                },
                None => None,
            },
        }
    }

    /// Press `=`. Resolves a pending operator, or — if there's nothing pending
    /// — replays the last operator/operand so repeated `=` keeps going. `raw`
    /// is the raw result of the computation `equals_request` names.
    pub fn equals(&mut self, raw: u64)
        ensures
            final(self)@ == old(self)@.equals_pressed(raw),
            final(self)@.wf(),
    {
        proof {
            use_type_invariant(&*self);
        }
        if self.error.is_some() {
            return;
        }
        match self.pending {
            Some(op) => {
                let rhs = self.value;
                if self.commit(op, rhs, raw) {
                    self.repeat = Some((op, rhs));
                }
                self.pending = None;
            },
            None => match self.repeat {
                Some((op, rhs)) => {
                    self.commit(op, rhs, raw);
                },
                None => {},
            },
        }
        self.operand_ready = false;
        self.entry = None;
    }

    // -- unary operators ---------------------------------------------------

    /// The parse `negate(_)` needs.
    pub fn negate_request(&self) -> (r: Option<Request>)
        ensures
            request_view(r) == self@.sign_request(),
    {
        if self.error.is_some() {
            return None;
        }
        match &self.entry {
            Some(e) => if sign_edits(e) {
                entry_parse_request(&negated_entry(e.clone()))
            } else {
                None
            },
            None => None,
        }
    }

    /// Toggle the sign. While typing it edits the entry in place (`parsed` is
    /// the value of the edited entry) so you can keep going; on a finished
    /// value it just negates it.
    pub fn negate(&mut self, parsed: u64)
        ensures
            final(self)@ == old(self)@.sign_pressed(parsed),
            final(self)@.wf(),
    {
        proof {
            use_type_invariant(&*self);
        }
        if self.error.is_some() {
            return;
        }
        match self.take_entry() {
            Some(e) => {
                if sign_edits(&e) {
                    proof {
                        lemma_entry_negated_ok(e@);
                    }
                    self.entry = Some(negated_entry(e));
                    self.sync_value_from_entry(parsed);
                } else {
                    self.value = negate(self.value);
                    self.entry = Some(e);
                }
            },
            None => self.value = negate(self.value),
        }
    }

    /// The computation `sqrt(_)` needs.
    pub fn sqrt_request(&self) -> (r: Option<Request>)
        ensures
            request_view(r) == self@.sqrt_request(),
    {
        if self.error.is_none() && !negative(self.value) {
            Some(Request::SquareRoot { value: self.value })
        } else {
            None
        }
    }

    /// Square root of the current value; `root` is its square root.
    pub fn sqrt(&mut self, root: u64)
        ensures
            final(self)@ == old(self)@.sqrt_pressed(root),
            final(self)@.wf(),
    {
        proof {
            use_type_invariant(&*self);
        }
        if self.error.is_some() {
            return;
        }
        let outcome = if negative(self.value) {
            Err(CalcError::Invalid)
        } else {
            Ok(root)
        };
        self.unary(outcome);
    }

    /// The computation `reciprocal(_)` needs.
    pub fn reciprocal_request(&self) -> (r: Option<Request>)
        ensures
            request_view(r) == self@.reciprocal_request(),
    {
        if self.error.is_none() && !zero(self.value) {
            Some(Request::Reciprocal { value: self.value })
        } else {
            None
        }
    }

    /// Reciprocal `1/x`; `inverse` is `1 / value`.
    pub fn reciprocal(&mut self, inverse: u64)
        ensures
            final(self)@ == old(self)@.reciprocal_pressed(inverse),
            final(self)@.wf(),
    {
        proof {
            use_type_invariant(&*self);
        }
        if self.error.is_some() {
            return;
        }
        let outcome = if zero(self.value) {
            Err(CalcError::DivByZero)
        } else if finite(inverse) {
            Ok(inverse)
        } else {
            Err(CalcError::Overflow)
        };
        self.unary(outcome);
    }

    /// The computation `percent(_)` needs.
    pub fn percent_request(&self) -> (r: Option<Request>)
        ensures
            request_view(r) == self@.percent_request(),
    {
        if self.error.is_none() && self.pending.is_some() {
            Some(Request::Percent { acc: self.acc, value: self.value })
        } else {
            None
        }
    }

    /// Percent. With an operator pending it reads the display as a percentage
    /// of the accumulator (`portion` is `acc * value / 100`) — `200 + 10 % =`
    /// gives `220` — and otherwise yields zero.
    pub fn percent(&mut self, portion: u64)
        ensures
            final(self)@ == old(self)@.percent_pressed(portion),
            final(self)@.wf(),
    {
        proof {
            use_type_invariant(&*self);
        }
        if self.error.is_some() {
            return;
        }
        let result = if self.pending.is_some() {
            portion
        } else {
            POSITIVE_ZERO
        };
        if finite(result) {
            self.value = result;
            self.entry = None;
            self.operand_ready = true;
        } else {
            self.fail(CalcError::Overflow);
        }
    }

    // -- memory ------------------------------------------------------------

    /// `MC` — clear the memory register.
    pub fn memory_clear(&mut self)
        ensures
            final(self)@ == old(self)@.memory_cleared(),
            final(self)@.wf(),
    {
        proof {
            use_type_invariant(&*self);
        }
        self.memory = POSITIVE_ZERO;
    }

    /// `MR` — recall the memory register onto the display.
    pub fn memory_recall(&mut self)
        ensures
            final(self)@ == old(self)@.memory_recalled(),
            final(self)@.wf(),
    {
        proof {
            use_type_invariant(&*self);
        }
        if self.error.is_some() {
            return;
        }
        self.value = self.memory;
        self.entry = None;
        self.operand_ready = true;
    }

    /// `MS` — store the current display into memory.
    pub fn memory_store(&mut self)
        ensures
            final(self)@ == old(self)@.memory_stored(),
            final(self)@.wf(),
    {
        proof {
            use_type_invariant(&*self);
        }
        if self.error.is_some() {
            return;
        }
        self.memory = self.value;
        self.entry = None;
    }

    /// The computation `memory_add(_)` needs.
    pub fn memory_add_request(&self) -> (r: Option<Request>)
        ensures
            request_view(r) == self@.memory_add_request(),
    {
        if self.error.is_none() {
            Some(Request::Apply { op: Op::Add, lhs: self.memory, rhs: self.value })
        } else {
            None
        }
    }

    /// `M+` — add the current display to memory; `sum` is `memory + value`.
    pub fn memory_add(&mut self, sum: u64)
        ensures
            final(self)@ == old(self)@.memory_added(sum),
            final(self)@.wf(),
    {
        proof {
            use_type_invariant(&*self);
        }
        if self.error.is_some() {
            return;
        }
        self.memory = sum;
        self.entry = None;
    }

    // -- clearing ----------------------------------------------------------

    /// `CE` — clear just the current entry, leaving any pending operator and
    /// the running total intact so you can re-type the operand.
    pub fn clear_entry(&mut self)
        ensures
            final(self)@ == old(self)@.entry_cleared(),
            final(self)@.wf(),
    {
        proof {
            use_type_invariant(&*self);
        }
        self.error = None;
        self.value = POSITIVE_ZERO;
        self.entry = None;
        self.operand_ready = false;
    }

    /// `C` — clear everything except the memory register.
    pub fn clear_all(&mut self)
        ensures
            final(self)@ == old(self)@.cleared(),
            final(self)@.wf(),
    {
        let memory = self.memory;
        *self = Engine::new();
        self.memory = memory;
    }

    /// Replace the display with an externally supplied number (an `Edit ▸
    /// Paste`); `parsed` is the parse of the pasted text, trimmed, or `None`
    /// when it does not parse. Anything not finite is ignored.
    pub fn paste(&mut self, parsed: Option<u64>)
        ensures
            final(self)@ == old(self)@.pasted(parsed),
            final(self)@.wf(),
    {
        proof {
            use_type_invariant(&*self);
        }
        if let Some(v) = parsed {
            if finite(v) {
                self.error = None;
                self.value = v;
                self.entry = None;
                self.operand_ready = true;
            }
        }
    }
}

} // verus!
