//! Where everything sits on the pad, in logical pixels: the readout, the
//! memory indicator, the Back / CE / C strip and the 4×6 key grid.

use vstd::prelude::*;

use crate::keys::Btn;

verus! {

/// A point in logical pixels.
#[derive(Clone, Copy, Debug, PartialEq, Eq, Structural)]
pub struct Point {
    pub x: i32,
    pub y: i32,
}

/// A rectangle in logical pixels: origin, width and height.
#[derive(Clone, Copy, Debug, PartialEq, Eq, Structural)]
pub struct Rect {
    pub x: i32,
    pub y: i32,
    pub w: i32,
    pub h: i32,
}

impl Rect {
    /// Whether `p` lies inside: the left and top edges are in, the right and
    /// bottom edges are out.
    pub open spec fn holds(self, p: Point) -> bool {
        self.x <= p.x < self.x + self.w && self.y <= p.y < self.y + self.h
    }

    /// Whether `p` lies inside the rectangle.
    pub fn contains(&self, p: Point) -> (r: bool)
        ensures
            r == self.holds(p),
    {
        let px = p.x as i64;
        let py = p.y as i64;
        px >= self.x as i64 && px < self.x as i64 + self.w as i64 && py >= self.y as i64 && py
            < self.y as i64 + self.h as i64
    }

    /// The first column past the right edge.
    pub fn right(&self) -> (r: i32)
        requires
            i32::MIN <= self.x + self.w <= i32::MAX,
        ensures
            r == self.x + self.w,
    {
        self.x + self.w
    }

    /// The first row past the bottom edge.
    pub fn bottom(&self) -> (r: i32)
        requires
            i32::MIN <= self.y + self.h <= i32::MAX,
        ensures
            r == self.y + self.h,
    {
        self.y + self.h
    }

    /// Whether the two rectangles share a point.
    pub open spec fn overlaps(self, other: Rect) -> bool {
        &&& self.x < other.x + other.w
        &&& other.x < self.x + self.w
        &&& self.y < other.y + other.h
        &&& other.y < self.y + self.h
    }

    /// Whether this rectangle lies within `outer`.
    pub open spec fn within(self, outer: Rect) -> bool {
        &&& outer.x <= self.x
        &&& self.x + self.w <= outer.x + outer.w
        &&& outer.y <= self.y
        &&& self.y + self.h <= outer.y + outer.h
    }
}

/// The empty rectangle at the origin.
pub open spec fn empty_rect() -> Rect {
    Rect { x: 0, y: 0, w: 0, h: 0 }
}

pub const MARGIN: i32 = 10;

pub const BTN_W: i32 = 36;

pub const BTN_H: i32 = 28;

pub const GAP: i32 = 6;

pub const DISPLAY_H: i32 = 32;

pub const FUNC_H: i32 = 28;

pub const SECTION_GAP: i32 = 10;

/// Width of the main 6-column grid (and so of the display above it).
pub const GRID_W: i32 = 6 * BTN_W + 5 * GAP;

/// Height of the 4-row grid.
pub const GRID_H: i32 = 4 * BTN_H + 3 * GAP;

/// Natural content width: the grid plus side margins.
pub const NATURAL_WIDTH: i32 = 2 * MARGIN + GRID_W;

/// Natural keypad height: margins, the display, the Back/CE/C strip, and the
/// four button rows.
pub const NATURAL_HEIGHT: i32 = MARGIN + DISPLAY_H + SECTION_GAP + FUNC_H + SECTION_GAP + GRID_H
    + MARGIN;

/// Width of each of the three strip buttons: a third of the strip right of
/// the memory column, less the two gaps between them,
/// `(GRID_W - BTN_W - GAP - 2 * GAP) / 3`.
pub const STRIP_BTN_W: i32 = 64;

/// The key in row `row`, column `col` of the main grid, laid out like the
/// Win 3.1 standard view: memory column on the left, digits in the middle,
/// operators and functions on the right.
pub open spec fn grid_key(row: int, col: int) -> Btn {
    if row == 0 {
        if col == 0 {
            Btn::MemClear
        } else if col == 1 {
            Btn::Digit(7)
        } else if col == 2 {
            Btn::Digit(8)
        } else if col == 3 {
            Btn::Digit(9)
        } else if col == 4 {
            Btn::Div
        } else {
            Btn::Sqrt
        }
    } else if row == 1 {
        if col == 0 {
            Btn::MemRecall
        } else if col == 1 {
            Btn::Digit(4)
        } else if col == 2 {
            Btn::Digit(5)
        } else if col == 3 {
            Btn::Digit(6)
        } else if col == 4 {
            Btn::Mul
        } else {
            Btn::Percent
        }
    } else if row == 2 {
        if col == 0 {
            Btn::MemStore
        } else if col == 1 {
            Btn::Digit(1)
        } else if col == 2 {
            Btn::Digit(2)
        } else if col == 3 {
            Btn::Digit(3)
        } else if col == 4 {
            Btn::Sub
        } else {
            Btn::Recip
        }
    } else {
        if col == 0 {
            Btn::MemAdd
        } else if col == 1 {
            Btn::Digit(0)
        } else if col == 2 {
            Btn::Neg
        } else if col == 3 {
            Btn::Dot
        } else if col == 4 {
            Btn::Add
        } else {
            Btn::Eq
        }
    }
}

/// The key in row `row`, column `col` of the main grid.
pub fn grid_btn(row: usize, col: usize) -> (b: Btn)
    requires
        row < 4,
        col < 6,
    ensures
        b == grid_key(row as int, col as int),
        b.valid(),
{
    match (row, col) {
        (0, 0) => Btn::MemClear,
        (0, 1) => Btn::Digit(7),
        (0, 2) => Btn::Digit(8),
        (0, 3) => Btn::Digit(9),
        (0, 4) => Btn::Div,
        (0, _) => Btn::Sqrt,
        (1, 0) => Btn::MemRecall,
        (1, 1) => Btn::Digit(4),
        (1, 2) => Btn::Digit(5),
        (1, 3) => Btn::Digit(6),
        (1, 4) => Btn::Mul,
        (1, _) => Btn::Percent,
        (2, 0) => Btn::MemStore,
        (2, 1) => Btn::Digit(1),
        (2, 2) => Btn::Digit(2),
        (2, 3) => Btn::Digit(3),
        (2, 4) => Btn::Sub,
        (2, _) => Btn::Recip,
        (_, 0) => Btn::MemAdd,
        (_, 1) => Btn::Digit(0),
        (_, 2) => Btn::Neg,
        (_, 3) => Btn::Dot,
        (_, 4) => Btn::Add,
        (_, _) => Btn::Eq,
    }
}

/// Left edge of the calculator block: centred horizontally in `bounds`, but
/// never closer than the margin to the left edge.
pub open spec fn block_x(bounds: Rect) -> int {
    bounds.x + if bounds.w - GRID_W >= 2 * MARGIN {
        (bounds.w - GRID_W) / 2
    } else {
        MARGIN as int
    }
}

/// Top of the display.
pub open spec fn block_y(bounds: Rect) -> int {
    bounds.y + MARGIN
}

/// Top of the Back / CE / C strip.
pub open spec fn strip_y(bounds: Rect) -> int {
    block_y(bounds) + DISPLAY_H + SECTION_GAP
}

/// Top of the key grid.
pub open spec fn grid_y(bounds: Rect) -> int {
    strip_y(bounds) + FUNC_H + SECTION_GAP
}

/// Whether every coordinate of the layout in `bounds` fits in an `i32`.
pub open spec fn layout_fits(bounds: Rect) -> bool {
    block_x(bounds) + GRID_W <= i32::MAX && grid_y(bounds) + GRID_H <= i32::MAX
}

/// The display's rectangle.
pub open spec fn display_area(bounds: Rect) -> Rect {
    Rect { x: block_x(bounds) as i32, y: block_y(bounds) as i32, w: GRID_W, h: DISPLAY_H }
}

/// The memory indicator's rectangle, the width of the memory column.
pub open spec fn indicator_area(bounds: Rect) -> Rect {
    Rect { x: block_x(bounds) as i32, y: strip_y(bounds) as i32, w: BTN_W, h: FUNC_H }
}

/// The rectangle of strip button `i` (0 = Back, 1 = CE, 2 = C); the last one
/// absorbs any rounding remainder so it reaches the grid's right edge.
pub open spec fn strip_rect(bounds: Rect, i: int) -> Rect {
    let x = block_x(bounds) + BTN_W + GAP + i * (STRIP_BTN_W + GAP);
    let w = if i == 2 {
        block_x(bounds) + GRID_W - x
    } else {
        STRIP_BTN_W as int
    };
    Rect { x: x as i32, y: strip_y(bounds) as i32, w: w as i32, h: FUNC_H }
}

/// The rectangle of the grid key in row `row`, column `col`.
pub open spec fn grid_rect(bounds: Rect, row: int, col: int) -> Rect {
    Rect {
        x: (block_x(bounds) + col * (BTN_W + GAP)) as i32,
        y: (grid_y(bounds) + row * (BTN_H + GAP)) as i32,
        w: BTN_W,
        h: BTN_H,
    }
}

/// Every clickable key with its rectangle: Back, CE and C, then the 24 grid
/// keys row by row.
pub open spec fn layout_keys(bounds: Rect) -> Seq<(Btn, Rect)> {
    Seq::new(
        27,
        |i: int|
            if i == 0 {
                (Btn::Back, strip_rect(bounds, 0))
            } else if i == 1 {
                (Btn::ClearEntry, strip_rect(bounds, 1))
            } else if i == 2 {
                (Btn::ClearAll, strip_rect(bounds, 2))
            } else {
                (grid_key((i - 3) / 6, (i - 3) % 6), grid_rect(bounds, (i - 3) / 6, (i - 3) % 6))
            },
    )
}

/// The first key in `keys` whose rectangle holds `p`.
pub open spec fn key_at(keys: Seq<(Btn, Rect)>, p: Point) -> Option<Btn>
    decreases keys.len(),
{
    if keys.len() == 0 {
        None
    } else if keys[0].1.holds(p) {
        Some(keys[0].0)
    } else {
        key_at(keys.drop_first(), p)
    }
}

/// The rectangle of the first entry of `keys` for `btn`.
pub open spec fn rect_of(keys: Seq<(Btn, Rect)>, btn: Btn) -> Option<Rect>
    decreases keys.len(),
{
    if keys.len() == 0 {
        None
    } else if keys[0].0 == btn {
        Some(keys[0].1)
    } else {
        rect_of(keys.drop_first(), btn)
    }
}

/// Whether `btn`'s rectangle in `keys` holds `p`.
pub open spec fn over_key(keys: Seq<(Btn, Rect)>, btn: Btn, p: Point) -> bool {
    match rect_of(keys, btn) {
        Some(r) => r.holds(p),
        None => false,
    }
}

/// Whether the layout for `bounds` fits in `i32` coordinates.
pub fn fits(bounds: Rect) -> (r: bool)
    ensures
        r == layout_fits(bounds),
{
    let bx: i64 = if bounds.w as i64 - GRID_W as i64 >= 2 * MARGIN as i64 {
        bounds.x as i64 + (bounds.w as i64 - GRID_W as i64) / 2
    } else {
        bounds.x as i64 + MARGIN as i64
    };
    let gy: i64 = bounds.y as i64 + MARGIN as i64 + DISPLAY_H as i64 + SECTION_GAP as i64
        + FUNC_H as i64 + SECTION_GAP as i64;
    bx + GRID_W as i64 <= i32::MAX as i64 && gy + GRID_H as i64 <= i32::MAX as i64
}

/// Computes the pad's rectangles for `bounds`: the display, the memory
/// indicator, and every key.
pub fn compute_layout(bounds: Rect) -> (r: (Rect, Rect, Vec<(Btn, Rect)>))
    requires
        layout_fits(bounds),
    ensures
        r.0 == display_area(bounds),
        r.1 == indicator_area(bounds),
        r.2@ == layout_keys(bounds),
{
    let gx: i32 = if bounds.w >= GRID_W + 2 * MARGIN {
        bounds.x + (bounds.w - GRID_W) / 2
    } else {
        bounds.x + MARGIN
    };
    let top: i32 = bounds.y + MARGIN;
    let display = Rect { x: gx, y: top, w: GRID_W, h: DISPLAY_H };

    // Back/CE/C strip: a memory indicator the width of the memory column,
    // then three equal buttons filling the rest.
    let func_y: i32 = top + DISPLAY_H + SECTION_GAP;
    let indicator = Rect { x: gx, y: func_y, w: BTN_W, h: FUNC_H };
    let strip_x: i32 = gx + BTN_W + GAP;
    let strip_w: i32 = GRID_W - BTN_W - GAP;
    let fbw: i32 = (strip_w - 2 * GAP) / 3;

    let mut keys: Vec<(Btn, Rect)> = Vec::new();
    keys.push((Btn::Back, Rect { x: strip_x, y: func_y, w: fbw, h: FUNC_H }));
    keys.push((Btn::ClearEntry, Rect { x: strip_x + fbw + GAP, y: func_y, w: fbw, h: FUNC_H }));
    // The last button absorbs any rounding remainder so it reaches the edge.
    let c_x: i32 = strip_x + 2 * (fbw + GAP);
    keys.push((Btn::ClearAll, Rect { x: c_x, y: func_y, w: gx + GRID_W - c_x, h: FUNC_H }));

    let grid_top: i32 = func_y + FUNC_H + SECTION_GAP;
    let ghost expected = layout_keys(bounds);
    assert(keys@ =~= expected.take(3));
    let mut row: usize = 0;
    while row < 4
        invariant
            layout_fits(bounds),
            gx == block_x(bounds),
            grid_top == grid_y(bounds),
            row <= 4,
            expected == layout_keys(bounds),
            keys@ =~= expected.take(3 + 6 * row),
        decreases 4 - row,
    {
        let mut col: usize = 0;
        while col < 6
            invariant
                layout_fits(bounds),
                gx == block_x(bounds),
                grid_top == grid_y(bounds),
                row < 4,
                col <= 6,
                expected == layout_keys(bounds),
                keys@ =~= expected.take(3 + 6 * row + col),
            decreases 6 - col,
        {
            assert(col * 42 <= 210 && row * 34 <= 102) by (nonlinear_arith)
                requires
                    col < 6,
                    row < 4,
            ;
            let x: i32 = gx + (col as i32) * (BTN_W + GAP);
            let y: i32 = grid_top + (row as i32) * (BTN_H + GAP);
            let btn = grid_btn(row, col);
            proof {
                let i = 3 + 6 * row + col;
                assert((i - 3) / 6 == row as int) by (nonlinear_arith)
                    requires
                        i == 3 + 6 * row + col,
                        col < 6,
                ;
                assert((i - 3) % 6 == col as int) by (nonlinear_arith)
                    requires
                        i == 3 + 6 * row + col,
                        col < 6,
                ;
                assert(expected[i] == (btn, Rect { x, y, w: BTN_W, h: BTN_H }));
            }
            keys.push((btn, Rect { x, y, w: BTN_W, h: BTN_H }));
            col = col + 1;
        }
        row = row + 1;
    }
    assert(expected.take(27) =~= expected);
    (display, indicator, keys)
}

/// The first key whose rectangle holds `pos`.
pub fn find_key_at(keys: &Vec<(Btn, Rect)>, pos: Point) -> (r: Option<Btn>)
    ensures
        r == key_at(keys@, pos),
{
    let mut i: usize = 0;
    assert(keys@.skip(0) =~= keys@);
    while i < keys.len()
        invariant
            i <= keys.len(),
            key_at(keys@, pos) == key_at(keys@.skip(i as int), pos),
        decreases keys.len() - i,
    {
        assert(keys@.skip(i as int)[0] == keys@[i as int]);
        assert(keys@.skip(i as int).drop_first() =~= keys@.skip(i + 1));
        if keys[i].1.contains(pos) {
            return Some(keys[i].0);
        }
        i = i + 1;
    }
    assert(keys@.skip(i as int).len() == 0);
    None
}

/// The rectangle of `btn` among `keys`.
pub fn find_key_rect(keys: &Vec<(Btn, Rect)>, btn: Btn) -> (r: Option<Rect>)
    ensures
        r == rect_of(keys@, btn),
{
    let mut i: usize = 0;
    assert(keys@.skip(0) =~= keys@);
    while i < keys.len()
        invariant
            i <= keys.len(),
            rect_of(keys@, btn) == rect_of(keys@.skip(i as int), btn),
        decreases keys.len() - i,
    {
        assert(keys@.skip(i as int)[0] == keys@[i as int]);
        assert(keys@.skip(i as int).drop_first() =~= keys@.skip(i + 1));
        if keys[i].0 == btn {
            return Some(keys[i].1);
        }
        i = i + 1;
    }
    assert(keys@.skip(i as int).len() == 0);
    None
}

} // verus!
