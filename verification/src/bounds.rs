//! Executable checks of the layouts' `i32` bounds.
//!
//! Each layout requires that its arithmetic stays within `i32`. A caller
//! that holds a monitor and gaps from outside asks one of these first; each
//! returns exactly the layout's predicate, computed in `i64` where no step
//! can overflow.
use vstd::prelude::*;

use crate::layout::{
    at_least, column_fits, column_width, fits, grid_cell_fits, grid_cell_h, grid_cell_w, grid_fits,
    half, horizontal_fits, master_stack_fits, stack_height, stack_row_fits, strip_fits,
    strip_height, tdiv, vertical_fits, Rect,
};

verus! {

/// `v` is a value of `i32`.
fn in_i32(v: i64) -> (r: bool)
    ensures
        r == fits(v as int),
{
    (i32::MIN as i64) <= v && v <= (i32::MAX as i64)
}

/// Whether master and stack for `n` windows stays within `i32`.
pub fn master_stack_fits_check(n: usize, m: &Rect, gaps: i32, inner_gap: i32, master_w: i32) -> (r:
    bool)
    ensures
        r == master_stack_fits(n as int, *m, gaps as int, inner_gap as int, master_w as int),
{
    if n > (i32::MAX as usize) {
        return false;
    }
    if n == 0 {
        return true;
    }
    let x = m.x as i64;
    let y = m.y as i64;
    let w = m.w as i64;
    let h = m.h as i64;
    let g = gaps as i64;
    let ig = inner_gap as i64;
    let mw = master_w as i64;
    let g2 = g * 2;
    if n == 1 {
        return in_i32(x + g) && in_i32(y + g) && in_i32(g2) && in_i32(w - g2) && in_i32(h - g2);
    }
    let hig = ig / 2;
    assert(hig == half(inner_gap as int));
    let sw = w - mw - ig;
    let full_h = h - g2;
    let front = in_i32(w - mw) && in_i32(sw) && in_i32(g2) && in_i32(full_h) && in_i32(x + g)
        && in_i32(y + g) && in_i32(mw - g) && in_i32(mw - g - hig) && in_i32(x + mw) && in_i32(
        x + mw + hig,
    ) && in_i32(sw - g) && in_i32(sw - g - hig);
    if !front {
        return false;
    }
    let sc = (n - 1) as i64;
    let sh = full_h / sc;
    assert(sh == stack_height(*m, gaps as int, n as int));
    if !in_i32(sh - ig) {
        return false;
    }
    let mut i: usize = 0;
    while i < n - 1
        invariant
            2 <= n <= i32::MAX,
            0 <= i <= n - 1,
            fits(sh as int),
            sh == stack_height(*m, gaps as int, n as int),
            y == m.y,
            g == gaps,
            ig == inner_gap,
            hig == half(inner_gap as int),
            forall|j: int| 0 <= j < i ==> #[trigger] stack_row_fits(*m, gaps as int, inner_gap as int, sh as int, j),
        decreases n - 1 - i,
    {
        let k = i as i64;
        assert(-0x8000_0000 * 0x8000_0000 <= k * sh <= 0x8000_0000 * 0x8000_0000) by (nonlinear_arith)
            requires
                0 <= k <= 0x7fff_ffff,
                -0x8000_0000 <= sh <= 0x7fff_ffff,
        ;
        let step = k * sh;
        let extra = if i > 0 {
            hig
        } else {
            0
        };
        let ok = in_i32(step) && in_i32(y + g + step) && in_i32(y + g + step + extra);
        if !ok {
            assert(!stack_row_fits(*m, gaps as int, inner_gap as int, sh as int, i as int));
            return false;
        }
        i = i + 1;
    }
    true
}

/// Whether the grid for `n` windows with `cols` columns and `rows` rows stays within `i32`.
pub fn grid_fits_check(n: usize, m: &Rect, gaps: i32, inner_gap: i32, cols: i32, rows: i32) -> (r:
    bool)
    ensures
        r == grid_fits(n as int, *m, gaps as int, inner_gap as int, cols as int, rows as int),
{
    if n > (i32::MAX as usize) {
        return false;
    }
    if n == 0 {
        return true;
    }
    if cols < 1 || rows < 1 {
        return false;
    }
    let x = m.x as i64;
    let y = m.y as i64;
    let w = m.w as i64;
    let h = m.h as i64;
    let g = gaps as i64;
    let ig = inner_gap as i64;
    let c = cols as i64;
    let rw = rows as i64;
    let g2 = g * 2;
    assert(-0x8000_0000 * 0x8000_0000 <= ig * (c - 1) <= 0x8000_0000 * 0x8000_0000) by (nonlinear_arith)
        requires
            0 <= c - 1 <= 0x7fff_ffff,
            -0x8000_0000 <= ig <= 0x7fff_ffff,
    ;
    assert(-0x8000_0000 * 0x8000_0000 <= ig * (rw - 1) <= 0x8000_0000 * 0x8000_0000) by (nonlinear_arith)
        requires
            0 <= rw - 1 <= 0x7fff_ffff,
            -0x8000_0000 <= ig <= 0x7fff_ffff,
    ;
    let gap_w = ig * (c - 1);
    let gap_h = ig * (rw - 1);
    let front = in_i32(g2) && in_i32(w - g2) && in_i32(gap_w) && in_i32(w - g2 - gap_w) && in_i32(
        h - g2,
    ) && in_i32(gap_h) && in_i32(h - g2 - gap_h);
    if !front {
        return false;
    }
    let raw_w = (w - g2 - gap_w) / c;
    let raw_h = (h - g2 - gap_h) / rw;
    let cw = if raw_w >= 1 {
        raw_w
    } else {
        1
    };
    let ch = if raw_h >= 1 {
        raw_h
    } else {
        1
    };
    assert(cw == grid_cell_w(*m, gaps as int, inner_gap as int, cols as int));
    assert(ch == grid_cell_h(*m, gaps as int, inner_gap as int, rows as int));
    let mut i: usize = 0;
    while i < n
        invariant
            1 <= n <= i32::MAX,
            0 <= i <= n,
            c == cols,
            c >= 1,
            fits(cw as int),
            fits(ch as int),
            cw == grid_cell_w(*m, gaps as int, inner_gap as int, cols as int),
            ch == grid_cell_h(*m, gaps as int, inner_gap as int, rows as int),
            x == m.x,
            y == m.y,
            g == gaps,
            ig == inner_gap,
            forall|j: int|
                0 <= j < i ==> #[trigger] grid_cell_fits(
                    *m,
                    gaps as int,
                    inner_gap as int,
                    cw as int,
                    ch as int,
                    cols as int,
                    j,
                ),
        decreases n - i,
    {
        let k = i as i64;
        let col = k % c;
        let row = k / c;
        assert(0 <= col < c && 0 <= row <= k) by (nonlinear_arith)
            requires
                0 <= k,
                c >= 1,
                col == k % c,
                row == k / c,
        ;
        let sx = cw + ig;
        let sy = ch + ig;
        assert(-0x7fff_ffff * 0x1_0000_0000 <= col * sx <= 0x7fff_ffff * 0x1_0000_0000) by (nonlinear_arith)
            requires
                0 <= col <= 0x7fff_ffff,
                -0x1_0000_0000 <= sx <= 0x1_0000_0000,
        ;
        assert(-0x7fff_ffff * 0x1_0000_0000 <= row * sy <= 0x7fff_ffff * 0x1_0000_0000) by (nonlinear_arith)
            requires
                0 <= row <= 0x7fff_ffff,
                -0x1_0000_0000 <= sy <= 0x1_0000_0000,
        ;
        let ok = in_i32(x + g) && in_i32(sx) && in_i32(col * sx) && in_i32(x + g + col * sx)
            && in_i32(y + g) && in_i32(sy) && in_i32(row * sy) && in_i32(y + g + row * sy);
        if !ok {
            assert(!grid_cell_fits(
                *m,
                gaps as int,
                inner_gap as int,
                cw as int,
                ch as int,
                cols as int,
                i as int,
            ));
            return false;
        }
        i = i + 1;
    }
    true
}

/// Whether horizontal strips for `n` windows stay within `i32`.
pub fn horizontal_fits_check(n: usize, m: &Rect, gaps: i32, inner_gap: i32) -> (r: bool)
    ensures
        r == horizontal_fits(n as int, *m, gaps as int, inner_gap as int),
{
    if n > (i32::MAX as usize) {
        return false;
    }
    if n == 0 {
        return true;
    }
    let sh = match strip_size_check(n, m.h, m.w, gaps, inner_gap) {
        Some(v) => v,
        None => {
            return false;
        },
    };
    assert(sh == strip_height(*m, gaps as int, inner_gap as int, n as int));
    if !(in_i32(m.x as i64 + gaps as i64) && in_i32(m.y as i64 + gaps as i64)) {
        return false;
    }
    let base = m.y as i64 + gaps as i64;
    let step = sh + inner_gap as i64;
    if !in_i32(step) {
        return false;
    }
    let mut i: usize = 0;
    while i < n
        invariant
            1 <= n <= i32::MAX,
            0 <= i <= n,
            sh == strip_height(*m, gaps as int, inner_gap as int, n as int),
            step == sh + inner_gap,
            fits(step as int),
            base == m.y + gaps,
            forall|j: int| 0 <= j < i ==> #[trigger] strip_fits(*m, gaps as int, inner_gap as int, sh as int, j),
        decreases n - i,
    {
        let k = i as i64;
        assert(-0x8000_0000 * 0x8000_0000 <= k * step <= 0x8000_0000 * 0x8000_0000) by (nonlinear_arith)
            requires
                0 <= k <= 0x7fff_ffff,
                -0x8000_0000 <= step <= 0x7fff_ffff,
        ;
        if !(in_i32(k * step) && in_i32(base + k * step)) {
            assert(!strip_fits(*m, gaps as int, inner_gap as int, sh as int, i as int));
            return false;
        }
        i = i + 1;
    }
    true
}

/// Whether vertical columns for `n` windows stay within `i32`.
pub fn vertical_fits_check(n: usize, m: &Rect, gaps: i32, inner_gap: i32) -> (r: bool)
    ensures
        r == vertical_fits(n as int, *m, gaps as int, inner_gap as int),
{
    if n > (i32::MAX as usize) {
        return false;
    }
    if n == 0 {
        return true;
    }
    let cw = match strip_size_check(n, m.w, m.h, gaps, inner_gap) {
        Some(v) => v,
        None => {
            return false;
        },
    };
    assert(cw == column_width(*m, gaps as int, inner_gap as int, n as int));
    if !(in_i32(m.x as i64 + gaps as i64) && in_i32(m.y as i64 + gaps as i64)) {
        return false;
    }
    let base = m.x as i64 + gaps as i64;
    let step = cw + inner_gap as i64;
    if !in_i32(step) {
        return false;
    }
    let mut i: usize = 0;
    while i < n
        invariant
            1 <= n <= i32::MAX,
            0 <= i <= n,
            cw == column_width(*m, gaps as int, inner_gap as int, n as int),
            step == cw + inner_gap,
            fits(step as int),
            base == m.x + gaps,
            forall|j: int| 0 <= j < i ==> #[trigger] column_fits(*m, gaps as int, inner_gap as int, cw as int, j),
        decreases n - i,
    {
        let k = i as i64;
        assert(-0x8000_0000 * 0x8000_0000 <= k * step <= 0x8000_0000 * 0x8000_0000) by (nonlinear_arith)
            requires
                0 <= k <= 0x7fff_ffff,
                -0x8000_0000 <= step <= 0x7fff_ffff,
        ;
        if !(in_i32(k * step) && in_i32(base + k * step)) {
            assert(!column_fits(*m, gaps as int, inner_gap as int, cw as int, i as int));
            return false;
        }
        i = i + 1;
    }
    true
}

/// The common front of strips and columns: `along` is the extent that the
/// `n` windows share out, `across` the one that each of them fills. Gives
/// the size of each window along the split when every step before it stays
/// within `i32`, and `None` otherwise.
fn strip_size_check(n: usize, along: i32, across: i32, gaps: i32, inner_gap: i32) -> (r: Option<
    i64,
>)
    requires
        1 <= n <= i32::MAX,
    ensures
        r is Some <==> {
            &&& fits(gaps * 2)
            &&& fits(along - gaps * 2)
            &&& fits(inner_gap * (n - 1))
            &&& fits(along - gaps * 2 - inner_gap * (n - 1))
            &&& fits(across - gaps * 2)
        },
        r matches Some(v) ==> v == at_least(tdiv(along - gaps * 2 - inner_gap * (n - 1), n as int), 1)
            && fits(v as int),
{
    let g2 = gaps as i64 * 2;
    let k = (n - 1) as i64;
    let ig = inner_gap as i64;
    assert(-0x8000_0000 * 0x8000_0000 <= ig * k <= 0x8000_0000 * 0x8000_0000) by (nonlinear_arith)
        requires
            0 <= k <= 0x7fff_ffff,
            -0x8000_0000 <= ig <= 0x7fff_ffff,
    ;
    let gap_total = ig * k;
    let rest = along as i64 - g2 - gap_total;
    if !(in_i32(g2) && in_i32(along as i64 - g2) && in_i32(gap_total) && in_i32(rest) && in_i32(
        across as i64 - g2,
    )) {
        return None;
    }
    let raw = rest / (n as i64);
    if raw >= 1 {
        Some(raw)
    } else {
        Some(1)
    }
}

} // verus!
