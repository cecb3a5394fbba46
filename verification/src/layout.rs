//! Tiling layouts: where each window of a workspace goes on a monitor.
//!
//! Every layout takes the windows of a workspace (only their number matters),
//! the monitor's rectangle, the outer gap and the gap between windows, and
//! gives one rectangle per window, in the order of the windows.
//!
//! The arithmetic is that of `i32`: a layout overflows for some extreme
//! monitors and gaps, and the `*_fits` predicates say exactly when it does
//! not. Each layout requires its predicate, and each has an executable check
//! of it for callers that cannot know in advance.
use vstd::prelude::*;

verus! {

/// A rectangle on the screen: its top-left corner, width and height.
#[derive(Debug, Clone, Copy, PartialEq, Eq, Structural)]
pub struct Rect {
    pub x: i32,
    pub y: i32,
    pub w: i32,
    pub h: i32,
}

/// The ways in which a workspace can be tiled.
#[derive(Debug, Clone, Copy, PartialEq, Eq, Structural)]
pub enum Layout {
    MasterStack,
    Grid,
    Horizontal,
    Vertical,
}

impl Default for Layout {
    fn default() -> (r: Self)
        ensures
            r == Layout::MasterStack,
    {
        Layout::MasterStack
    }
}

// ----------------------------------------------------------------------------
// Integer arithmetic as `i32` does it
// ----------------------------------------------------------------------------

/// `v` is a value of `i32`.
pub open spec fn fits(v: int) -> bool {
    i32::MIN <= v <= i32::MAX
}

/// Division of `i32` by a positive divisor: the quotient rounded toward zero.
pub open spec fn tdiv(a: int, b: int) -> int {
    if a >= 0 {
        a / b
    } else {
        -((-a) / b)
    }
}

/// Half of `v`, rounded toward zero, as `v / 2` computes it on `i32`.
pub open spec fn half(v: int) -> int {
    tdiv(v, 2)
}

/// `v`, raised to `min` where it is smaller.
pub open spec fn at_least(v: int, min: int) -> int {
    if v >= min {
        v
    } else {
        min
    }
}

/// The rectangle with the given corner and size (each of them a value of `i32`).
pub open spec fn rect_of(x: int, y: int, w: int, h: int) -> Rect {
    Rect { x: x as i32, y: y as i32, w: w as i32, h: h as i32 }
}

/// The two rectangles share no point: one lies wholly left of, right of,
/// above or below the other.
pub open spec fn disjoint(a: Rect, b: Rect) -> bool {
    ||| a.x + a.w <= b.x
    ||| b.x + b.w <= a.x
    ||| a.y + a.h <= b.y
    ||| b.y + b.h <= a.y
}

/// `val`, raised to `min` where it is smaller.
pub(crate) fn clamp(val: i32, min: i32) -> (r: i32)
    ensures
        r == at_least(val as int, min as int),
{
    if val >= min {
        val
    } else {
        min
    }
}

/// The rectangle of a monitor given by its edges.
pub fn monitor_rect(left: i32, top: i32, right: i32, bottom: i32) -> (r: Rect)
    requires
        fits(right - left),
        fits(bottom - top),
    ensures
        r == rect_of(left as int, top as int, right - left, bottom - top),
{
    Rect { x: left, y: top, w: right - left, h: bottom - top }
}

// ----------------------------------------------------------------------------
// Master and stack
// ----------------------------------------------------------------------------

/// The height of each window of the stack when `n` windows are tiled (`n >= 2`).
pub open spec fn stack_height(m: Rect, gaps: int, n: int) -> int {
    tdiv(m.h - gaps * 2, n - 1)
}

/// The width of the stack column: what the master column leaves of the monitor.
pub open spec fn stack_width(m: Rect, inner_gap: int, master_w: int) -> int {
    m.w - master_w - inner_gap
}

/// The offset of stack window `i` from the top of the stack.
pub open spec fn stack_offset(inner_gap: int, sh: int, i: int) -> int {
    i * sh + (if i > 0 {
        half(inner_gap)
    } else {
        0
    })
}

/// The only window, when the master and stack layout tiles one window.
pub open spec fn single_rect(m: Rect, gaps: int) -> Rect {
    rect_of(m.x + gaps, m.y + gaps, at_least(m.w - gaps * 2, 1), at_least(m.h - gaps * 2, 1))
}

/// The master window: the first of two or more.
pub open spec fn master_rect(m: Rect, gaps: int, inner_gap: int, master_w: int) -> Rect {
    rect_of(
        m.x + gaps,
        m.y + gaps,
        at_least(master_w - gaps - half(inner_gap), 1),
        at_least(m.h - gaps * 2, 1),
    )
}

/// Window `i` of the stack (the window `i + 1` of the workspace), of `n` windows.
pub open spec fn stack_rect(m: Rect, gaps: int, inner_gap: int, master_w: int, n: int, i: int) -> Rect {
    let sh = stack_height(m, gaps, n);
    rect_of(
        m.x + master_w + half(inner_gap),
        m.y + gaps + stack_offset(inner_gap, sh, i),
        at_least(stack_width(m, inner_gap, master_w) - gaps - half(inner_gap), 1),
        at_least(sh - inner_gap, 1),
    )
}

/// Window `i` of `n` in the master and stack layout, whose master column is
/// `master_w` wide.
pub open spec fn master_stack_rect(
    m: Rect,
    gaps: int,
    inner_gap: int,
    master_w: int,
    n: int,
    i: int,
) -> Rect {
    if n == 1 {
        single_rect(m, gaps)
    } else if i == 0 {
        master_rect(m, gaps, inner_gap, master_w)
    } else {
        stack_rect(m, gaps, inner_gap, master_w, n, i - 1)
    }
}

/// The vertical position of stack window `i` is a value of `i32` at each step.
pub open spec fn stack_row_fits(m: Rect, gaps: int, inner_gap: int, sh: int, i: int) -> bool {
    &&& fits(i * sh)
    &&& fits(m.y + gaps + i * sh)
    &&& fits(m.y + gaps + stack_offset(inner_gap, sh, i))
}

/// Master and stack for `n` windows stays within `i32` at every step.
pub open spec fn master_stack_fits(n: int, m: Rect, gaps: int, inner_gap: int, master_w: int) -> bool {
    &&& n <= i32::MAX
    &&& n == 1 ==> {
        &&& fits(m.x + gaps)
        &&& fits(m.y + gaps)
        &&& fits(gaps * 2)
        &&& fits(m.w - gaps * 2)
        &&& fits(m.h - gaps * 2)
    }
    &&& n >= 2 ==> {
        let sw = stack_width(m, inner_gap, master_w);
        let sh = stack_height(m, gaps, n);
        &&& fits(m.w - master_w)
        &&& fits(sw)
        &&& fits(gaps * 2)
        &&& fits(m.h - gaps * 2)
        &&& fits(m.x + gaps)
        &&& fits(m.y + gaps)
        &&& fits(master_w - gaps)
        &&& fits(master_w - gaps - half(inner_gap))
        &&& fits(m.x + master_w)
        &&& fits(m.x + master_w + half(inner_gap))
        &&& fits(sw - gaps)
        &&& fits(sw - gaps - half(inner_gap))
        &&& fits(sh - inner_gap)
        &&& forall|i: int| 0 <= i < n - 1 ==> #[trigger] stack_row_fits(m, gaps, inner_gap, sh, i)
    }
}

/// Tiles the windows as one master window on the left, `master_w` wide, and
/// the others stacked on the right, one above the other.
///
/// A single window fills the monitor less the outer gap. Every width and
/// height is raised to at least 1.
pub fn compute_master_stack<T>(
    windows: &[T],
    monitor: &Rect,
    gaps: i32,
    inner_gap: i32,
    master_w: i32,
) -> (result: Vec<Rect>)
    requires
        master_stack_fits(windows@.len() as int, *monitor, gaps as int, inner_gap as int, master_w as int),
    ensures
        result@.len() == windows@.len(),
        forall|i: int| 0 <= i < result@.len() ==> result@[i].w >= 1 && result@[i].h >= 1,
        forall|i: int|
            0 <= i < result@.len() ==> result@[i] == master_stack_rect(
                *monitor,
                gaps as int,
                inner_gap as int,
                master_w as int,
                windows@.len() as int,
                i,
            ),
{
    let mut result: Vec<Rect> = Vec::new();
    if windows.len() == 0 {
        return result;
    }
    let count = windows.len();
    let m = monitor;
    if count == 1 {
        result.push(
            Rect {
                x: m.x + gaps,
                y: m.y + gaps,
                w: clamp(m.w - gaps * 2, 1),
                h: clamp(m.h - gaps * 2, 1),
            },
        );
        return result;
    }
    let ghost n = count as int;
    let stack_w = m.w - master_w - inner_gap;
    let stack_count = count - 1;
    let stack_h = (m.h - gaps * 2) / (stack_count as i32);
    assert(stack_h == stack_height(*m, gaps as int, n));
    result.push(
        Rect {
            x: m.x + gaps,
            y: m.y + gaps,
            w: clamp(master_w - gaps - inner_gap / 2, 1),
            h: clamp(m.h - gaps * 2, 1),
        },
    );
    let mut i: usize = 0;
    while i < stack_count
        invariant
            count == windows@.len(),
            n == count,
            2 <= count <= i32::MAX,
            stack_count == count - 1,
            0 <= i <= stack_count,
            stack_w == stack_width(*m, inner_gap as int, master_w as int),
            stack_h == stack_height(*m, gaps as int, n),
            master_stack_fits(n, *m, gaps as int, inner_gap as int, master_w as int),
            result@.len() == i + 1,
            forall|j: int|
                0 <= j < result@.len() ==> result@[j] == master_stack_rect(
                    *m,
                    gaps as int,
                    inner_gap as int,
                    master_w as int,
                    n,
                    j,
                ),
        decreases stack_count - i,
    {
        assert(stack_row_fits(*m, gaps as int, inner_gap as int, stack_h as int, i as int));
        let row = i as i32;
        let extra = if i > 0 {
            inner_gap / 2
        } else {
            0
        };
        let r = Rect {
            x: m.x + master_w + inner_gap / 2,
            y: m.y + gaps + row * stack_h + extra,
            w: clamp(stack_w - gaps - inner_gap / 2, 1),
            h: clamp(stack_h - inner_gap, 1),
        };
        result.push(r);
        i = i + 1;
    }
    result
}

// ----------------------------------------------------------------------------
// Grid
// ----------------------------------------------------------------------------

/// The width of a grid cell with `cols` columns.
pub open spec fn grid_cell_w(m: Rect, gaps: int, inner_gap: int, cols: int) -> int {
    at_least(tdiv(m.w - gaps * 2 - inner_gap * (cols - 1), cols), 1)
}

/// The height of a grid cell with `rows` rows.
pub open spec fn grid_cell_h(m: Rect, gaps: int, inner_gap: int, rows: int) -> int {
    at_least(tdiv(m.h - gaps * 2 - inner_gap * (rows - 1), rows), 1)
}

/// Window `i` of the grid: the cells are filled row by row, `cols` to a row.
pub open spec fn grid_rect(m: Rect, gaps: int, inner_gap: int, cols: int, rows: int, i: int) -> Rect {
    let cw = grid_cell_w(m, gaps, inner_gap, cols);
    let ch = grid_cell_h(m, gaps, inner_gap, rows);
    rect_of(
        m.x + gaps + (i % cols) * (cw + inner_gap),
        m.y + gaps + (i / cols) * (ch + inner_gap),
        cw,
        ch,
    )
}

/// The position of grid window `i` is a value of `i32` at each step.
pub open spec fn grid_cell_fits(
    m: Rect,
    gaps: int,
    inner_gap: int,
    cw: int,
    ch: int,
    cols: int,
    i: int,
) -> bool {
    &&& fits(m.x + gaps)
    &&& fits(cw + inner_gap)
    &&& fits((i % cols) * (cw + inner_gap))
    &&& fits(m.x + gaps + (i % cols) * (cw + inner_gap))
    &&& fits(m.y + gaps)
    &&& fits(ch + inner_gap)
    &&& fits((i / cols) * (ch + inner_gap))
    &&& fits(m.y + gaps + (i / cols) * (ch + inner_gap))
}

/// The grid for `n` windows with `cols` columns and `rows` rows stays
/// within `i32` at every step.
pub open spec fn grid_fits(
    n: int,
    m: Rect,
    gaps: int,
    inner_gap: int,
    cols: int,
    rows: int,
) -> bool {
    &&& n <= i32::MAX
    &&& n >= 1 ==> {
        let cw = grid_cell_w(m, gaps, inner_gap, cols);
        let ch = grid_cell_h(m, gaps, inner_gap, rows);
        &&& cols >= 1
        &&& rows >= 1
        &&& fits(gaps * 2)
        &&& fits(m.w - gaps * 2)
        &&& fits(inner_gap * (cols - 1))
        &&& fits(m.w - gaps * 2 - inner_gap * (cols - 1))
        &&& fits(m.h - gaps * 2)
        &&& fits(inner_gap * (rows - 1))
        &&& fits(m.h - gaps * 2 - inner_gap * (rows - 1))
        &&& forall|i: int| 0 <= i < n ==> #[trigger] grid_cell_fits(m, gaps, inner_gap, cw, ch, cols, i)
    }
}

/// Tiles the windows in a grid of `cols` columns and `rows` rows of equal
/// cells, filled row by row. Cells are at least 1 wide and 1 high.
pub fn compute_grid<T>(
    windows: &[T],
    monitor: &Rect,
    gaps: i32,
    inner_gap: i32,
    cols: i32,
    rows: i32,
) -> (result: Vec<Rect>)
    requires
        grid_fits(windows@.len() as int, *monitor, gaps as int, inner_gap as int, cols as int, rows as int),
    ensures
        result@.len() == windows@.len(),
        forall|i: int| 0 <= i < result@.len() ==> result@[i].w >= 1 && result@[i].h >= 1,
        forall|i: int|
            0 <= i < result@.len() ==> result@[i] == grid_rect(
                *monitor,
                gaps as int,
                inner_gap as int,
                cols as int,
                rows as int,
                i,
            ),
{
    let mut result: Vec<Rect> = Vec::new();
    if windows.len() == 0 {
        return result;
    }
    let count = windows.len();
    let cell_w = clamp((monitor.w - gaps * 2 - inner_gap * (cols - 1)) / cols, 1);
    let cell_h = clamp((monitor.h - gaps * 2 - inner_gap * (rows - 1)) / rows, 1);
    let ghost cw = grid_cell_w(*monitor, gaps as int, inner_gap as int, cols as int);
    let ghost ch = grid_cell_h(*monitor, gaps as int, inner_gap as int, rows as int);
    assert(cell_w == cw && cell_h == ch);
    let mut i: usize = 0;
    while i < count
        invariant
            count == windows@.len(),
            1 <= count <= i32::MAX,
            0 <= i <= count,
            cols >= 1,
            rows >= 1,
            cell_w == cw,
            cell_h == ch,
            cw == grid_cell_w(*monitor, gaps as int, inner_gap as int, cols as int),
            ch == grid_cell_h(*monitor, gaps as int, inner_gap as int, rows as int),
            grid_fits(count as int, *monitor, gaps as int, inner_gap as int, cols as int, rows as int),
            result@.len() == i,
            forall|j: int|
                0 <= j < result@.len() ==> result@[j] == grid_rect(
                    *monitor,
                    gaps as int,
                    inner_gap as int,
                    cols as int,
                    rows as int,
                    j,
                ),
        decreases count - i,
    {
        assert(grid_cell_fits(*monitor, gaps as int, inner_gap as int, cw, ch, cols as int, i as int));
        let idx = i as i32;
        let col = idx % cols;
        let row = idx / cols;
        let r = Rect {
            x: monitor.x + gaps + col * (cell_w + inner_gap),
            y: monitor.y + gaps + row * (cell_h + inner_gap),
            w: cell_w,
            h: cell_h,
        };
        result.push(r);
        i = i + 1;
    }
    result
}

// ----------------------------------------------------------------------------
// Horizontal strips and vertical columns
// ----------------------------------------------------------------------------

/// The height of each strip when `n` windows are stacked top to bottom.
pub open spec fn strip_height(m: Rect, gaps: int, inner_gap: int, n: int) -> int {
    at_least(tdiv(m.h - gaps * 2 - inner_gap * (n - 1), n), 1)
}

/// Window `i` of `n`, stacked top to bottom across the full width.
pub open spec fn horizontal_rect(m: Rect, gaps: int, inner_gap: int, n: int, i: int) -> Rect {
    let sh = strip_height(m, gaps, inner_gap, n);
    rect_of(m.x + gaps, m.y + gaps + i * (sh + inner_gap), at_least(m.w - gaps * 2, 1), sh)
}

/// The position of strip `i` is a value of `i32` at each step.
pub open spec fn strip_fits(m: Rect, gaps: int, inner_gap: int, sh: int, i: int) -> bool {
    &&& fits(i * (sh + inner_gap))
    &&& fits(m.y + gaps + i * (sh + inner_gap))
}

/// Horizontal strips for `n` windows stay within `i32` at every step.
pub open spec fn horizontal_fits(n: int, m: Rect, gaps: int, inner_gap: int) -> bool {
    &&& n <= i32::MAX
    &&& n >= 1 ==> {
        let sh = strip_height(m, gaps, inner_gap, n);
        &&& fits(gaps * 2)
        &&& fits(m.h - gaps * 2)
        &&& fits(inner_gap * (n - 1))
        &&& fits(m.h - gaps * 2 - inner_gap * (n - 1))
        &&& fits(m.x + gaps)
        &&& fits(m.y + gaps)
        &&& fits(sh + inner_gap)
        &&& fits(m.w - gaps * 2)
        &&& forall|i: int| 0 <= i < n ==> #[trigger] strip_fits(m, gaps, inner_gap, sh, i)
    }
}

/// Tiles the windows as strips of equal height, one below the other, each
/// as wide as the monitor less the outer gap.
pub fn compute_horizontal<T>(windows: &[T], monitor: &Rect, gaps: i32, inner_gap: i32) -> (result:
    Vec<Rect>)
    requires
        horizontal_fits(windows@.len() as int, *monitor, gaps as int, inner_gap as int),
    ensures
        result@.len() == windows@.len(),
        forall|i: int| 0 <= i < result@.len() ==> result@[i].w >= 1 && result@[i].h >= 1,
        forall|i: int|
            0 <= i < result@.len() ==> result@[i] == horizontal_rect(
                *monitor,
                gaps as int,
                inner_gap as int,
                windows@.len() as int,
                i,
            ),
{
    let mut result: Vec<Rect> = Vec::new();
    if windows.len() == 0 {
        return result;
    }
    let count = windows.len();
    let ghost n = count as int;
    let strip_h = clamp((monitor.h - gaps * 2 - inner_gap * (count as i32 - 1)) / count as i32, 1);
    assert(strip_h == strip_height(*monitor, gaps as int, inner_gap as int, n));
    let mut i: usize = 0;
    while i < count
        invariant
            count == windows@.len(),
            n == count,
            1 <= count <= i32::MAX,
            0 <= i <= count,
            strip_h == strip_height(*monitor, gaps as int, inner_gap as int, n),
            horizontal_fits(n, *monitor, gaps as int, inner_gap as int),
            result@.len() == i,
            forall|j: int|
                0 <= j < result@.len() ==> result@[j] == horizontal_rect(
                    *monitor,
                    gaps as int,
                    inner_gap as int,
                    n,
                    j,
                ),
        decreases count - i,
    {
        assert(strip_fits(*monitor, gaps as int, inner_gap as int, strip_h as int, i as int));
        let idx = i as i32;
        let r = Rect {
            x: monitor.x + gaps,
            y: monitor.y + gaps + idx * (strip_h + inner_gap),
            w: clamp(monitor.w - gaps * 2, 1),
            h: strip_h,
        };
        result.push(r);
        i = i + 1;
    }
    result
}

/// The width of each column when `n` windows are placed side by side.
pub open spec fn column_width(m: Rect, gaps: int, inner_gap: int, n: int) -> int {
    at_least(tdiv(m.w - gaps * 2 - inner_gap * (n - 1), n), 1)
}

/// Window `i` of `n`, side by side from left to right across the full height.
pub open spec fn vertical_rect(m: Rect, gaps: int, inner_gap: int, n: int, i: int) -> Rect {
    let cw = column_width(m, gaps, inner_gap, n);
    rect_of(m.x + gaps + i * (cw + inner_gap), m.y + gaps, cw, at_least(m.h - gaps * 2, 1))
}

/// The position of column `i` is a value of `i32` at each step.
pub open spec fn column_fits(m: Rect, gaps: int, inner_gap: int, cw: int, i: int) -> bool {
    &&& fits(i * (cw + inner_gap))
    &&& fits(m.x + gaps + i * (cw + inner_gap))
}

/// Vertical columns for `n` windows stay within `i32` at every step.
pub open spec fn vertical_fits(n: int, m: Rect, gaps: int, inner_gap: int) -> bool {
    &&& n <= i32::MAX
    &&& n >= 1 ==> {
        let cw = column_width(m, gaps, inner_gap, n);
        &&& fits(gaps * 2)
        &&& fits(m.w - gaps * 2)
        &&& fits(inner_gap * (n - 1))
        &&& fits(m.w - gaps * 2 - inner_gap * (n - 1))
        &&& fits(m.x + gaps)
        &&& fits(m.y + gaps)
        &&& fits(cw + inner_gap)
        &&& fits(m.h - gaps * 2)
        &&& forall|i: int| 0 <= i < n ==> #[trigger] column_fits(m, gaps, inner_gap, cw, i)
    }
}

/// Tiles the windows as columns of equal width, side by side, each as high
/// as the monitor less the outer gap.
pub fn compute_vertical<T>(windows: &[T], monitor: &Rect, gaps: i32, inner_gap: i32) -> (result:
    Vec<Rect>)
    requires
        vertical_fits(windows@.len() as int, *monitor, gaps as int, inner_gap as int),
    ensures
        result@.len() == windows@.len(),
        forall|i: int| 0 <= i < result@.len() ==> result@[i].w >= 1 && result@[i].h >= 1,
        forall|i: int|
            0 <= i < result@.len() ==> result@[i] == vertical_rect(
                *monitor,
                gaps as int,
                inner_gap as int,
                windows@.len() as int,
                i,
            ),
{
    let mut result: Vec<Rect> = Vec::new();
    if windows.len() == 0 {
        return result;
    }
    let count = windows.len();
    let ghost n = count as int;
    let col_w = clamp((monitor.w - gaps * 2 - inner_gap * (count as i32 - 1)) / count as i32, 1);
    assert(col_w == column_width(*monitor, gaps as int, inner_gap as int, n));
    let mut i: usize = 0;
    while i < count
        invariant
            count == windows@.len(),
            n == count,
            1 <= count <= i32::MAX,
            0 <= i <= count,
            col_w == column_width(*monitor, gaps as int, inner_gap as int, n),
            vertical_fits(n, *monitor, gaps as int, inner_gap as int),
            result@.len() == i,
            forall|j: int|
                0 <= j < result@.len() ==> result@[j] == vertical_rect(
                    *monitor,
                    gaps as int,
                    inner_gap as int,
                    n,
                    j,
                ),
        decreases count - i,
    {
        assert(column_fits(*monitor, gaps as int, inner_gap as int, col_w as int, i as int));
        let idx = i as i32;
        let r = Rect {
            x: monitor.x + gaps + idx * (col_w + inner_gap),
            y: monitor.y + gaps,
            w: col_w,
            h: clamp(monitor.h - gaps * 2, 1),
        };
        result.push(r);
        i = i + 1;
    }
    result
}


// ----------------------------------------------------------------------------
// Tiles do not overlap
// ----------------------------------------------------------------------------

/// For `a < b` and a non-negative step `s`, the step at `b` lies at least one
/// step beyond the step at `a`.
proof fn lemma_steps_apart(a: int, b: int, s: int)
    requires
        0 <= a < b,
        s >= 0,
    ensures
        a * s + s <= b * s,
{
    assert(a * s + s <= b * s) by (nonlinear_arith)
        requires
            a + 1 <= b,
            s >= 0,
    ;
}

/// Horizontal strips never overlap when the gap between windows is not negative.
pub proof fn lemma_horizontal_disjoint(m: Rect, gaps: i32, inner_gap: i32, n: int, i: int, j: int)
    requires
        horizontal_fits(n, m, gaps as int, inner_gap as int),
        inner_gap >= 0,
        0 <= i < n,
        0 <= j < n,
        i != j,
    ensures
        disjoint(
            horizontal_rect(m, gaps as int, inner_gap as int, n, i),
            horizontal_rect(m, gaps as int, inner_gap as int, n, j),
        ),
{
    let sh = strip_height(m, gaps as int, inner_gap as int, n);
    assert(strip_fits(m, gaps as int, inner_gap as int, sh, i));
    assert(strip_fits(m, gaps as int, inner_gap as int, sh, j));
    if i < j {
        lemma_steps_apart(i, j, sh + inner_gap);
    } else {
        lemma_steps_apart(j, i, sh + inner_gap);
    }
}

/// Vertical columns never overlap when the gap between windows is not negative.
pub proof fn lemma_vertical_disjoint(m: Rect, gaps: i32, inner_gap: i32, n: int, i: int, j: int)
    requires
        vertical_fits(n, m, gaps as int, inner_gap as int),
        inner_gap >= 0,
        0 <= i < n,
        0 <= j < n,
        i != j,
    ensures
        disjoint(
            vertical_rect(m, gaps as int, inner_gap as int, n, i),
            vertical_rect(m, gaps as int, inner_gap as int, n, j),
        ),
{
    let cw = column_width(m, gaps as int, inner_gap as int, n);
    assert(column_fits(m, gaps as int, inner_gap as int, cw, i));
    assert(column_fits(m, gaps as int, inner_gap as int, cw, j));
    if i < j {
        lemma_steps_apart(i, j, cw + inner_gap);
    } else {
        lemma_steps_apart(j, i, cw + inner_gap);
    }
}

/// Grid cells never overlap when the gap between windows is not negative:
/// two windows differ in their column or in their row.
pub proof fn lemma_grid_disjoint(
    m: Rect,
    gaps: i32,
    inner_gap: i32,
    cols: i32,
    rows: i32,
    n: int,
    i: int,
    j: int,
)
    requires
        grid_fits(n, m, gaps as int, inner_gap as int, cols as int, rows as int),
        inner_gap >= 0,
        0 <= i < n,
        0 <= j < n,
        i != j,
    ensures
        disjoint(
            grid_rect(m, gaps as int, inner_gap as int, cols as int, rows as int, i),
            grid_rect(m, gaps as int, inner_gap as int, cols as int, rows as int, j),
        ),
{
    let c = cols as int;
    let cw = grid_cell_w(m, gaps as int, inner_gap as int, c);
    let ch = grid_cell_h(m, gaps as int, inner_gap as int, rows as int);
    assert(grid_cell_fits(m, gaps as int, inner_gap as int, cw, ch, c, i));
    assert(grid_cell_fits(m, gaps as int, inner_gap as int, cw, ch, c, j));
    assert(i == c * (i / c) + i % c && 0 <= i % c < c) by (nonlinear_arith)
        requires
            c >= 1,
            i >= 0,
    ;
    assert(j == c * (j / c) + j % c && 0 <= j % c < c) by (nonlinear_arith)
        requires
            c >= 1,
            j >= 0,
    ;
    assert(i / c >= 0 && j / c >= 0) by (nonlinear_arith)
        requires
            c >= 1,
            i >= 0,
            j >= 0,
    ;
    if i % c < j % c {
        lemma_steps_apart(i % c, j % c, cw + inner_gap);
    } else if j % c < i % c {
        lemma_steps_apart(j % c, i % c, cw + inner_gap);
    } else if i / c < j / c {
        lemma_steps_apart(i / c, j / c, ch + inner_gap);
    } else {
        assert(j / c < i / c);
        lemma_steps_apart(j / c, i / c, ch + inner_gap);
    }
}

/// In master and stack, no two windows overlap when the gap between windows
/// is not negative, the master column ends left of the stack
/// (`gaps < master_w + inner_gap / 2`), and each stack window is given at
/// least one row of pixels (`m.h - 2 * gaps >= n - 1`).
pub proof fn lemma_master_stack_disjoint(
    m: Rect,
    gaps: i32,
    inner_gap: i32,
    master_w: i32,
    n: int,
    i: int,
    j: int,
)
    requires
        master_stack_fits(n, m, gaps as int, inner_gap as int, master_w as int),
        inner_gap >= 0,
        gaps < master_w + half(inner_gap as int),
        m.h - 2 * gaps >= n - 1,
        0 <= i < n,
        0 <= j < n,
        i != j,
    ensures
        disjoint(
            master_stack_rect(m, gaps as int, inner_gap as int, master_w as int, n, i),
            master_stack_rect(m, gaps as int, inner_gap as int, master_w as int, n, j),
        ),
{
    let g = gaps as int;
    let ig = inner_gap as int;
    let sh = stack_height(m, g, n);
    assert(sh >= 1) by (nonlinear_arith)
        requires
            sh == tdiv(m.h - g * 2, n - 1),
            m.h - g * 2 >= n - 1,
            n >= 2,
    ;
    if i > 0 && j > 0 {
        let a = if i < j { i - 1 } else { j - 1 };
        let b = if i < j { j - 1 } else { i - 1 };
        assert(stack_row_fits(m, g, ig, sh, a));
        assert(stack_row_fits(m, g, ig, sh, b));
        lemma_steps_apart(a, b, sh);
    }
}


// ----------------------------------------------------------------------------
// Tiles follow their monitor
// ----------------------------------------------------------------------------

/// The monitor `m` moved `dx` to the right and `dy` down.
pub open spec fn shifted(m: Rect, dx: int, dy: int) -> Rect {
    Rect { x: (m.x + dx) as i32, y: (m.y + dy) as i32, w: m.w, h: m.h }
}

/// `b` is `a` moved `dx` to the right and `dy` down, with the same size.
pub open spec fn moved_by(a: Rect, b: Rect, dx: int, dy: int) -> bool {
    &&& b.x == a.x + dx
    &&& b.y == a.y + dy
    &&& b.w == a.w
    &&& b.h == a.h
}

/// Moving the monitor moves every master and stack tile with it, by the
/// same amount, and leaves every size alone: the tiles are laid out from
/// the monitor's own corner, whichever monitor it is.
pub proof fn lemma_master_stack_follows_monitor(
    m: Rect,
    dx: int,
    dy: int,
    gaps: i32,
    inner_gap: i32,
    master_w: i32,
    n: int,
    i: int,
)
    requires
        fits(m.x + dx),
        fits(m.y + dy),
        master_stack_fits(n, m, gaps as int, inner_gap as int, master_w as int),
        master_stack_fits(n, shifted(m, dx, dy), gaps as int, inner_gap as int, master_w as int),
        0 <= i < n,
    ensures
        moved_by(
            master_stack_rect(m, gaps as int, inner_gap as int, master_w as int, n, i),
            master_stack_rect(shifted(m, dx, dy), gaps as int, inner_gap as int, master_w as int, n, i),
            dx,
            dy,
        ),
{
    let m2 = shifted(m, dx, dy);
    let g = gaps as int;
    let ig = inner_gap as int;
    if n >= 2 && i > 0 {
        let sh = stack_height(m, g, n);
        assert(stack_height(m2, g, n) == sh);
        assert(stack_row_fits(m, g, ig, sh, i - 1));
        assert(stack_row_fits(m2, g, ig, sh, i - 1));
    }
}

/// Moving the monitor moves every grid cell with it, by the same amount,
/// and leaves every size alone.
pub proof fn lemma_grid_follows_monitor(
    m: Rect,
    dx: int,
    dy: int,
    gaps: i32,
    inner_gap: i32,
    cols: i32,
    rows: i32,
    n: int,
    i: int,
)
    requires
        fits(m.x + dx),
        fits(m.y + dy),
        grid_fits(n, m, gaps as int, inner_gap as int, cols as int, rows as int),
        grid_fits(n, shifted(m, dx, dy), gaps as int, inner_gap as int, cols as int, rows as int),
        0 <= i < n,
    ensures
        moved_by(
            grid_rect(m, gaps as int, inner_gap as int, cols as int, rows as int, i),
            grid_rect(shifted(m, dx, dy), gaps as int, inner_gap as int, cols as int, rows as int, i),
            dx,
            dy,
        ),
{
    let m2 = shifted(m, dx, dy);
    let g = gaps as int;
    let ig = inner_gap as int;
    let cw = grid_cell_w(m, g, ig, cols as int);
    let ch = grid_cell_h(m, g, ig, rows as int);
    assert(grid_cell_w(m2, g, ig, cols as int) == cw);
    assert(grid_cell_h(m2, g, ig, rows as int) == ch);
    assert(grid_cell_fits(m, g, ig, cw, ch, cols as int, i));
    assert(grid_cell_fits(m2, g, ig, cw, ch, cols as int, i));
}

/// Moving the monitor moves every horizontal strip with it, by the same
/// amount, and leaves every size alone.
pub proof fn lemma_horizontal_follows_monitor(
    m: Rect,
    dx: int,
    dy: int,
    gaps: i32,
    inner_gap: i32,
    n: int,
    i: int,
)
    requires
        fits(m.x + dx),
        fits(m.y + dy),
        horizontal_fits(n, m, gaps as int, inner_gap as int),
        horizontal_fits(n, shifted(m, dx, dy), gaps as int, inner_gap as int),
        0 <= i < n,
    ensures
        moved_by(
            horizontal_rect(m, gaps as int, inner_gap as int, n, i),
            horizontal_rect(shifted(m, dx, dy), gaps as int, inner_gap as int, n, i),
            dx,
            dy,
        ),
{
    let m2 = shifted(m, dx, dy);
    let g = gaps as int;
    let ig = inner_gap as int;
    let sh = strip_height(m, g, ig, n);
    assert(strip_height(m2, g, ig, n) == sh);
    assert(strip_fits(m, g, ig, sh, i));
    assert(strip_fits(m2, g, ig, sh, i));
}

/// Moving the monitor moves every vertical column with it, by the same
/// amount, and leaves every size alone.
pub proof fn lemma_vertical_follows_monitor(
    m: Rect,
    dx: int,
    dy: int,
    gaps: i32,
    inner_gap: i32,
    n: int,
    i: int,
)
    requires
        fits(m.x + dx),
        fits(m.y + dy),
        vertical_fits(n, m, gaps as int, inner_gap as int),
        vertical_fits(n, shifted(m, dx, dy), gaps as int, inner_gap as int),
        0 <= i < n,
    ensures
        moved_by(
            vertical_rect(m, gaps as int, inner_gap as int, n, i),
            vertical_rect(shifted(m, dx, dy), gaps as int, inner_gap as int, n, i),
            dx,
            dy,
        ),
{
    let m2 = shifted(m, dx, dy);
    let g = gaps as int;
    let ig = inner_gap as int;
    let cw = column_width(m, g, ig, n);
    assert(column_width(m2, g, ig, n) == cw);
    assert(column_fits(m, g, ig, cw, i));
    assert(column_fits(m2, g, ig, cw, i));
}


// ----------------------------------------------------------------------------
// Tiles stay on their monitor
// ----------------------------------------------------------------------------

/// `r` lies within the monitor `m`.
pub open spec fn within(r: Rect, m: Rect) -> bool {
    &&& m.x <= r.x
    &&& r.x + r.w <= m.x + m.w
    &&& m.y <= r.y
    &&& r.y + r.h <= m.y + m.h
}

/// `0 <= i * s <= k * s` for `0 <= i <= k` and `s >= 0`.
proof fn lemma_step_bound(i: int, k: int, s: int)
    requires
        0 <= i <= k,
        s >= 0,
    ensures
        0 <= i * s <= k * s,
{
    assert(0 <= i * s <= k * s) by (nonlinear_arith)
        requires
            0 <= i <= k,
            s >= 0,
    ;
}

/// Sharing out `r >= 0` in `n` equal whole parts leaves no part below 0
/// and uses at most `r`.
proof fn lemma_share(r: int, n: int)
    requires
        r >= 0,
        n >= 1,
    ensures
        0 <= r / n,
        n * (r / n) <= r,
        r >= n ==> r / n >= 1,
{
    assert(0 <= r / n && n * (r / n) <= r && (r >= n ==> r / n >= 1)) by (nonlinear_arith)
        requires
            r >= 0,
            n >= 1,
    ;
}

/// With gaps that are not negative, and a monitor large enough that no
/// strip's size had to be raised to 1, every horizontal strip lies within
/// the monitor.
pub proof fn lemma_horizontal_within(m: Rect, gaps: i32, inner_gap: i32, n: int, i: int)
    requires
        horizontal_fits(n, m, gaps as int, inner_gap as int),
        gaps >= 0,
        inner_gap >= 0,
        m.w - 2 * gaps >= 1,
        m.h - 2 * gaps - inner_gap * (n - 1) >= n,
        0 <= i < n,
    ensures
        within(horizontal_rect(m, gaps as int, inner_gap as int, n, i), m),
{
    let g = gaps as int;
    let ig = inner_gap as int;
    let r = m.h - g * 2 - ig * (n - 1);
    lemma_share(r, n);
    let sh = strip_height(m, g, ig, n);
    assert(sh == r / n);
    assert(strip_fits(m, g, ig, sh, i));
    lemma_step_bound(i, n - 1, sh + ig);
    assert((n - 1) * (sh + ig) + sh == n * sh + (n - 1) * ig) by (nonlinear_arith);
}

/// With gaps that are not negative, and a monitor large enough that no
/// column's size had to be raised to 1, every vertical column lies within
/// the monitor.
pub proof fn lemma_vertical_within(m: Rect, gaps: i32, inner_gap: i32, n: int, i: int)
    requires
        vertical_fits(n, m, gaps as int, inner_gap as int),
        gaps >= 0,
        inner_gap >= 0,
        m.h - 2 * gaps >= 1,
        m.w - 2 * gaps - inner_gap * (n - 1) >= n,
        0 <= i < n,
    ensures
        within(vertical_rect(m, gaps as int, inner_gap as int, n, i), m),
{
    let g = gaps as int;
    let ig = inner_gap as int;
    let r = m.w - g * 2 - ig * (n - 1);
    lemma_share(r, n);
    let cw = column_width(m, g, ig, n);
    assert(cw == r / n);
    assert(column_fits(m, g, ig, cw, i));
    lemma_step_bound(i, n - 1, cw + ig);
    assert((n - 1) * (cw + ig) + cw == n * cw + (n - 1) * ig) by (nonlinear_arith);
}

/// With gaps that are not negative, enough cells for the windows
/// (`n <= cols * rows`, as the grid's shape is chosen), and a monitor large
/// enough that no cell's size had to be raised to 1, every grid cell lies
/// within the monitor.
pub proof fn lemma_grid_within(
    m: Rect,
    gaps: i32,
    inner_gap: i32,
    cols: i32,
    rows: i32,
    n: int,
    i: int,
)
    requires
        grid_fits(n, m, gaps as int, inner_gap as int, cols as int, rows as int),
        gaps >= 0,
        inner_gap >= 0,
        n <= cols * rows,
        m.w - 2 * gaps - inner_gap * (cols - 1) >= cols,
        m.h - 2 * gaps - inner_gap * (rows - 1) >= rows,
        0 <= i < n,
    ensures
        within(grid_rect(m, gaps as int, inner_gap as int, cols as int, rows as int, i), m),
{
    let g = gaps as int;
    let ig = inner_gap as int;
    let c = cols as int;
    let rw = rows as int;
    let r1 = m.w - g * 2 - ig * (c - 1);
    let r2 = m.h - g * 2 - ig * (rw - 1);
    lemma_share(r1, c);
    lemma_share(r2, rw);
    let cw = grid_cell_w(m, g, ig, c);
    let ch = grid_cell_h(m, g, ig, rw);
    assert(cw == r1 / c);
    assert(ch == r2 / rw);
    assert(grid_cell_fits(m, g, ig, cw, ch, c, i));
    assert(0 <= i % c <= c - 1 && 0 <= i / c <= rw - 1) by (nonlinear_arith)
        requires
            c >= 1,
            0 <= i < n,
            n <= c * rw,
    ;
    lemma_step_bound(i % c, c - 1, cw + ig);
    lemma_step_bound(i / c, rw - 1, ch + ig);
    assert((c - 1) * (cw + ig) + cw == c * cw + (c - 1) * ig) by (nonlinear_arith);
    assert((rw - 1) * (ch + ig) + ch == rw * ch + (rw - 1) * ig) by (nonlinear_arith);
}

/// With gaps that are not negative, a master column no wider than the
/// monitor, and a monitor large enough that no window's size had to be
/// raised to 1, every master and stack window lies within the monitor.
pub proof fn lemma_master_stack_within(
    m: Rect,
    gaps: i32,
    inner_gap: i32,
    master_w: i32,
    n: int,
    i: int,
)
    requires
        master_stack_fits(n, m, gaps as int, inner_gap as int, master_w as int),
        gaps >= 0,
        inner_gap >= 0,
        0 <= master_w <= m.w,
        m.w - 2 * gaps >= 1,
        m.h - 2 * gaps >= 1,
        n >= 2 ==> master_w - gaps - half(inner_gap as int) >= 1,
        n >= 2 ==> stack_width(m, inner_gap as int, master_w as int) - gaps - half(
            inner_gap as int,
        ) >= 1,
        n >= 2 ==> stack_height(m, gaps as int, n) - inner_gap >= 1,
        0 <= i < n,
    ensures
        within(master_stack_rect(m, gaps as int, inner_gap as int, master_w as int, n, i), m),
{
    let g = gaps as int;
    let ig = inner_gap as int;
    if n >= 2 && i > 0 {
        let r = m.h - g * 2;
        lemma_share(r, n - 1);
        let sh = stack_height(m, g, n);
        assert(sh == r / (n - 1));
        assert(stack_row_fits(m, g, ig, sh, i - 1));
        lemma_step_bound(i - 1, n - 2, sh);
        assert((n - 2) * sh + sh == (n - 1) * sh) by (nonlinear_arith);
    }
}


// ----------------------------------------------------------------------------
// Neighbouring tiles are one inner gap apart
// ----------------------------------------------------------------------------

/// Each horizontal strip starts one inner gap below the end of the one
/// above it, at the same left edge and with the same width and height.
pub proof fn lemma_horizontal_spacing(m: Rect, gaps: i32, inner_gap: i32, n: int, i: int)
    requires
        horizontal_fits(n, m, gaps as int, inner_gap as int),
        0 <= i < n - 1,
    ensures
        ({
            let a = horizontal_rect(m, gaps as int, inner_gap as int, n, i);
            let b = horizontal_rect(m, gaps as int, inner_gap as int, n, i + 1);
            &&& b.y == a.y + a.h + inner_gap
            &&& b.x == a.x
            &&& b.w == a.w
            &&& b.h == a.h
        }),
{
    let g = gaps as int;
    let ig = inner_gap as int;
    let sh = strip_height(m, g, ig, n);
    assert(strip_fits(m, g, ig, sh, i));
    assert(strip_fits(m, g, ig, sh, i + 1));
    assert((i + 1) * (sh + ig) == i * (sh + ig) + sh + ig) by (nonlinear_arith);
}

/// Each vertical column starts one inner gap right of the end of the one
/// before it, at the same top edge and with the same width and height.
pub proof fn lemma_vertical_spacing(m: Rect, gaps: i32, inner_gap: i32, n: int, i: int)
    requires
        vertical_fits(n, m, gaps as int, inner_gap as int),
        0 <= i < n - 1,
    ensures
        ({
            let a = vertical_rect(m, gaps as int, inner_gap as int, n, i);
            let b = vertical_rect(m, gaps as int, inner_gap as int, n, i + 1);
            &&& b.x == a.x + a.w + inner_gap
            &&& b.y == a.y
            &&& b.w == a.w
            &&& b.h == a.h
        }),
{
    let g = gaps as int;
    let ig = inner_gap as int;
    let cw = column_width(m, g, ig, n);
    assert(column_fits(m, g, ig, cw, i));
    assert(column_fits(m, g, ig, cw, i + 1));
    assert((i + 1) * (cw + ig) == i * (cw + ig) + cw + ig) by (nonlinear_arith);
}

/// In the grid, the next window in a row sits one inner gap right of the
/// previous one, and the window below (`cols` further on) one inner gap
/// below it; the first window is at the monitor's corner plus the outer gap.
pub proof fn lemma_grid_spacing(
    m: Rect,
    gaps: i32,
    inner_gap: i32,
    cols: i32,
    rows: i32,
    n: int,
    i: int,
)
    requires
        grid_fits(n, m, gaps as int, inner_gap as int, cols as int, rows as int),
        0 <= i < n,
    ensures
        ({
            let g = gaps as int;
            let ig = inner_gap as int;
            let a = grid_rect(m, g, ig, cols as int, rows as int, i);
            &&& i == 0 ==> a.x == m.x + g && a.y == m.y + g
            &&& (i + 1 < n && (i + 1) % (cols as int) != 0) ==> {
                let b = grid_rect(m, g, ig, cols as int, rows as int, i + 1);
                b.x == a.x + a.w + ig && b.y == a.y && b.w == a.w && b.h == a.h
            }
            &&& i + cols < n ==> {
                let b = grid_rect(m, g, ig, cols as int, rows as int, i + cols);
                b.y == a.y + a.h + ig && b.x == a.x && b.w == a.w && b.h == a.h
            }
        }),
{
    let g = gaps as int;
    let ig = inner_gap as int;
    let c = cols as int;
    let cw = grid_cell_w(m, g, ig, c);
    let ch = grid_cell_h(m, g, ig, rows as int);
    assert(grid_cell_fits(m, g, ig, cw, ch, c, i));
    if i == 0 {
        assert(0int % c == 0 && 0int / c == 0) by (nonlinear_arith)
            requires
                c >= 1,
        ;
        assert(grid_rect(m, g, ig, c, rows as int, i).x == m.x + g);
        assert(grid_rect(m, g, ig, c, rows as int, i).y == m.y + g);
    }
    if i + 1 < n && (i + 1) % c != 0 {
        assert(grid_cell_fits(m, g, ig, cw, ch, c, i + 1));
        assert((i + 1) % c == i % c + 1 && (i + 1) / c == i / c) by (nonlinear_arith)
            requires
                c >= 1,
                i >= 0,
                (i + 1) % c != 0,
        ;
        assert((i % c + 1) * (cw + ig) == (i % c) * (cw + ig) + cw + ig) by (nonlinear_arith);
    }
    if i + c < n {
        assert(grid_cell_fits(m, g, ig, cw, ch, c, i + c));
        assert((i + c) % c == i % c && (i + c) / c == i / c + 1) by (nonlinear_arith)
            requires
                c >= 1,
                i >= 0,
        ;
        assert((i / c + 1) * (ch + ig) == (i / c) * (ch + ig) + ch + ig) by (nonlinear_arith);
        assert(grid_rect(m, g, ig, c, rows as int, i + c).y == grid_rect(m, g, ig, c, rows as int, i).y + ch + ig);
    }
}

/// In master and stack, the master window starts at the monitor's corner
/// plus the outer gap; the stack column starts right of the master column,
/// and all stack windows share its left edge and width; the first stack
/// window starts at the top gap, and each stack window after the second
/// starts one stack height below the one before it.
pub proof fn lemma_master_stack_spacing(
    m: Rect,
    gaps: i32,
    inner_gap: i32,
    master_w: i32,
    n: int,
    i: int,
)
    requires
        master_stack_fits(n, m, gaps as int, inner_gap as int, master_w as int),
        n >= 2,
        1 <= i < n,
    ensures
        ({
            let g = gaps as int;
            let ig = inner_gap as int;
            let mw = master_w as int;
            let master = master_stack_rect(m, g, ig, mw, n, 0);
            let a = master_stack_rect(m, g, ig, mw, n, i);
            let first = master_stack_rect(m, g, ig, mw, n, 1);
            &&& master.x == m.x + g && master.y == m.y + g
            &&& a.x == m.x + mw + half(ig)
            &&& a.x == first.x && a.w == first.w && a.h == first.h
            &&& first.y == m.y + g
            &&& (i >= 2 && i + 1 < n) ==> master_stack_rect(m, g, ig, mw, n, i + 1).y == a.y
                + stack_height(m, g, n)
        }),
{
    let g = gaps as int;
    let ig = inner_gap as int;
    let sh = stack_height(m, g, n);
    assert(stack_row_fits(m, g, ig, sh, i - 1));
    assert(stack_row_fits(m, g, ig, sh, 0));
    if i >= 2 && i + 1 < n {
        assert(stack_row_fits(m, g, ig, sh, i));
        assert(i * sh == (i - 1) * sh + sh) by (nonlinear_arith);
    }
}


/// The master and stack columns, where no width or height had to be raised
/// to 1: the master window keeps the outer gap from the monitor's left,
/// top and bottom edges; the two columns are `2 * (inner_gap / 2)` apart;
/// and the stack keeps the outer gap plus the inner gap from the right edge.
pub proof fn lemma_master_stack_columns(
    m: Rect,
    gaps: i32,
    inner_gap: i32,
    master_w: i32,
    n: int,
    i: int,
)
    requires
        master_stack_fits(n, m, gaps as int, inner_gap as int, master_w as int),
        n >= 2,
        1 <= i < n,
        master_w - gaps - half(inner_gap as int) >= 1,
        stack_width(m, inner_gap as int, master_w as int) - gaps - half(inner_gap as int) >= 1,
        m.h - 2 * gaps >= 1,
    ensures
        ({
            let g = gaps as int;
            let ig = inner_gap as int;
            let mw = master_w as int;
            let master = master_stack_rect(m, g, ig, mw, n, 0);
            let a = master_stack_rect(m, g, ig, mw, n, i);
            &&& master.x - m.x == g
            &&& master.y - m.y == g
            &&& (m.y + m.h) - (master.y + master.h) == g
            &&& a.x - (master.x + master.w) == 2 * half(ig)
            &&& (m.x + m.w) - (a.x + a.w) == g + ig
        }),
{
    let g = gaps as int;
    let ig = inner_gap as int;
    let sh = stack_height(m, g, n);
    assert(stack_row_fits(m, g, ig, sh, i - 1));
}


// ----------------------------------------------------------------------------
// The tiles keep the outer gap from the monitor's edges
// ----------------------------------------------------------------------------

/// Sharing out `r` in `n` whole parts leaves a remainder below `n`.
proof fn lemma_share_remainder(r: int, n: int)
    requires
        r >= 0,
        n >= 1,
    ensures
        0 <= r - n * (r / n) < n,
{
    assert(0 <= r - n * (r / n) < n) by (nonlinear_arith)
        requires
            r >= 0,
            n >= 1,
    ;
}

/// A single window in master and stack keeps exactly the outer gap from
/// each edge of the monitor, where its size did not have to be raised to 1.
pub proof fn lemma_single_window_margins(m: Rect, gaps: i32, inner_gap: i32, master_w: i32)
    requires
        master_stack_fits(1, m, gaps as int, inner_gap as int, master_w as int),
        m.w - 2 * gaps >= 1,
        m.h - 2 * gaps >= 1,
    ensures
        ({
            let r = master_stack_rect(m, gaps as int, inner_gap as int, master_w as int, 1, 0);
            &&& r.x - m.x == gaps
            &&& r.y - m.y == gaps
            &&& (m.x + m.w) - (r.x + r.w) == gaps
            &&& (m.y + m.h) - (r.y + r.h) == gaps
        }),
{
}

/// Horizontal strips keep the outer gap from the monitor's left and right
/// edges and above the first strip; below the last one there is the outer
/// gap plus what is left over from sharing the height out in whole pixels
/// (less than one pixel per window). This holds where no strip's size had
/// to be raised to 1.
pub proof fn lemma_horizontal_margins(m: Rect, gaps: i32, inner_gap: i32, n: int)
    requires
        horizontal_fits(n, m, gaps as int, inner_gap as int),
        n >= 1,
        m.w - 2 * gaps >= 1,
        m.h - 2 * gaps - inner_gap * (n - 1) >= n,
    ensures
        ({
            let first = horizontal_rect(m, gaps as int, inner_gap as int, n, 0);
            let last = horizontal_rect(m, gaps as int, inner_gap as int, n, n - 1);
            &&& first.x - m.x == gaps
            &&& (m.x + m.w) - (first.x + first.w) == gaps
            &&& first.y - m.y == gaps
            &&& gaps <= (m.y + m.h) - (last.y + last.h) < gaps + n
        }),
{
    let g = gaps as int;
    let ig = inner_gap as int;
    let r = m.h - g * 2 - ig * (n - 1);
    lemma_share(r, n);
    lemma_share_remainder(r, n);
    let sh = strip_height(m, g, ig, n);
    assert(sh == r / n);
    assert(strip_fits(m, g, ig, sh, 0));
    assert(strip_fits(m, g, ig, sh, n - 1));
    assert((n - 1) * (sh + ig) + sh == n * sh + (n - 1) * ig) by (nonlinear_arith);
}

/// Vertical columns keep the outer gap from the monitor's top and bottom
/// edges and left of the first column; right of the last one there is the
/// outer gap plus what is left over from sharing the width out in whole
/// pixels (less than one pixel per window). This holds where no column's
/// size had to be raised to 1.
pub proof fn lemma_vertical_margins(m: Rect, gaps: i32, inner_gap: i32, n: int)
    requires
        vertical_fits(n, m, gaps as int, inner_gap as int),
        n >= 1,
        m.h - 2 * gaps >= 1,
        m.w - 2 * gaps - inner_gap * (n - 1) >= n,
    ensures
        ({
            let first = vertical_rect(m, gaps as int, inner_gap as int, n, 0);
            let last = vertical_rect(m, gaps as int, inner_gap as int, n, n - 1);
            &&& first.y - m.y == gaps
            &&& (m.y + m.h) - (first.y + first.h) == gaps
            &&& first.x - m.x == gaps
            &&& gaps <= (m.x + m.w) - (last.x + last.w) < gaps + n
        }),
{
    let g = gaps as int;
    let ig = inner_gap as int;
    let r = m.w - g * 2 - ig * (n - 1);
    lemma_share(r, n);
    lemma_share_remainder(r, n);
    let cw = column_width(m, g, ig, n);
    assert(cw == r / n);
    assert(column_fits(m, g, ig, cw, 0));
    assert(column_fits(m, g, ig, cw, n - 1));
    assert((n - 1) * (cw + ig) + cw == n * cw + (n - 1) * ig) by (nonlinear_arith);
}

/// A grid cell in the last column keeps the outer gap, plus less than one
/// pixel per column left over, from the monitor's right edge; one in the
/// last row likewise from the bottom edge. This holds where no cell's size
/// had to be raised to 1.
pub proof fn lemma_grid_margins(
    m: Rect,
    gaps: i32,
    inner_gap: i32,
    cols: i32,
    rows: i32,
    n: int,
    i: int,
)
    requires
        grid_fits(n, m, gaps as int, inner_gap as int, cols as int, rows as int),
        m.w - 2 * gaps - inner_gap * (cols - 1) >= cols,
        m.h - 2 * gaps - inner_gap * (rows - 1) >= rows,
        0 <= i < n,
    ensures
        ({
            let a = grid_rect(m, gaps as int, inner_gap as int, cols as int, rows as int, i);
            &&& i % (cols as int) == cols - 1 ==> gaps <= (m.x + m.w) - (a.x + a.w) < gaps + cols
            &&& i / (cols as int) == rows - 1 ==> gaps <= (m.y + m.h) - (a.y + a.h) < gaps + rows
        }),
{
    let g = gaps as int;
    let ig = inner_gap as int;
    let c = cols as int;
    let rw = rows as int;
    let r1 = m.w - g * 2 - ig * (c - 1);
    let r2 = m.h - g * 2 - ig * (rw - 1);
    lemma_share(r1, c);
    lemma_share(r2, rw);
    lemma_share_remainder(r1, c);
    lemma_share_remainder(r2, rw);
    let cw = grid_cell_w(m, g, ig, c);
    let ch = grid_cell_h(m, g, ig, rw);
    assert(cw == r1 / c);
    assert(ch == r2 / rw);
    assert(grid_cell_fits(m, g, ig, cw, ch, c, i));
    assert((c - 1) * (cw + ig) + cw == c * cw + (c - 1) * ig) by (nonlinear_arith);
    assert((rw - 1) * (ch + ig) + ch == rw * ch + (rw - 1) * ig) by (nonlinear_arith);
}

} // verus!
