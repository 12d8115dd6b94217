//! Cell arithmetic of a bar, in exact integers.
//!
//! A bar of `width` cells at `value` out of `total` has the fill extent
//! `value * width / total`, read as an exact fraction. Its whole part is the
//! number of done cells; a fractional part above a small threshold selects
//! one glyph of the partial-fill palette; the remaining cells are empty. A
//! `total` of zero counts as no progress, and a `value` at or beyond `total`
//! draws a full bar: the three counts always add up to `width`.

use vstd::prelude::*;

verus! {

/// A partial cell is drawn only where the fractional part of the fill extent
/// exceeds one part in this many.
pub const PARTIAL_THRESHOLD_PARTS: u64 = 8388608;

/// Whole part of the fill extent, before it is held to the bar's width.
pub open spec fn covered_cells(value: nat, total: nat, width: nat) -> nat {
    if total == 0 {
        0
    } else {
        (value * width) / total
    }
}

/// Numerator of the fill extent's fractional part, over `total`.
pub open spec fn fill_remainder(value: nat, total: nat, width: nat) -> nat {
    if total == 0 {
        0
    } else {
        (value * width) % total
    }
}

/// Number of done cells: the whole part of the fill extent, at most `width`.
pub open spec fn done_cells(value: nat, total: nat, width: nat) -> nat {
    if covered_cells(value, total, width) < width {
        covered_cells(value, total, width)
    } else {
        width
    }
}

/// Whether a partial cell follows the done cells: the palette has a glyph,
/// the bar is not yet full, and the fractional part of the fill extent
/// exceeds the threshold.
pub open spec fn has_partial(value: nat, total: nat, width: nat, palette: nat) -> bool {
    palette > 0 && value < total && fill_remainder(value, total, width) * PARTIAL_THRESHOLD_PARTS
        > total
}

/// Index into the palette: the fractional part of the fill extent scaled by
/// the palette's length, rounded down.
pub open spec fn partial_index(value: nat, total: nat, width: nat, palette: nat) -> nat {
    if total == 0 {
        0
    } else {
        (fill_remainder(value, total, width) * palette) / total
    }
}

/// Number of cells that the partial glyph takes: one or none.
pub open spec fn partial_cells(value: nat, total: nat, width: nat, palette: nat) -> nat {
    if has_partial(value, total, width, palette) {
        1
    } else {
        0
    }
}

/// Number of empty cells: what the done cells and the partial cell leave.
pub open spec fn empty_cells(value: nat, total: nat, width: nat, palette: nat) -> nat {
    (width - done_cells(value, total, width) - partial_cells(value, total, width, palette)) as nat
}

/// Whole percentage `value * 100 / total`, rounded down and held to `u32`.
pub open spec fn percent(value: nat, total: nat) -> nat {
    if total == 0 {
        0
    } else if (value * 100) / total < u32::MAX {
        (value * 100) / total
    } else {
        u32::MAX as nat
    }
}

/// A product of two 64-bit factors fits 128 bits.
proof fn lemma_product_fits(a: nat, b: nat)
    requires
        a <= u64::MAX,
        b <= u64::MAX,
    ensures
        a * b <= u128::MAX,
{
    assert(a * b <= 0xffff_ffff_ffff_ffff * 0xffff_ffff_ffff_ffff) by (nonlinear_arith)
        requires
            a <= 0xffff_ffff_ffff_ffff,
            b <= 0xffff_ffff_ffff_ffff,
    ;
}

/// The quotient of a scaled remainder stays below the scale.
proof fn lemma_scaled_remainder(rest: nat, scale: nat, total: nat)
    requires
        rest < total,
    ensures
        (rest * scale) / total < scale || scale == 0,
        scale == 0 ==> (rest * scale) / total == 0,
{
    if scale == 0 {
        assert(rest * scale == 0) by (nonlinear_arith)
            requires
                scale == 0,
        ;
    } else {
        assert((rest * scale) / total < scale) by (nonlinear_arith)
            requires
                rest < total,
                scale > 0,
        ;
    }
}

/// Below `total` the fill extent covers fewer cells than the bar has.
proof fn lemma_covered_below_width(value: nat, total: nat, width: nat)
    requires
        value < total,
        width > 0,
    ensures
        covered_cells(value, total, width) < width,
{
    assert((value * width) / total < width) by (nonlinear_arith)
        requires
            value < total,
            width > 0,
    ;
}

/// From `total` on the fill extent covers every cell.
proof fn lemma_covered_from_total(value: nat, total: nat, width: nat)
    requires
        0 < total <= value,
    ensures
        covered_cells(value, total, width) >= width,
{
    assert((value * width) / total >= width) by (nonlinear_arith)
        requires
            0 < total <= value,
    ;
}

/// The done cells, the partial cell and the empty cells fill the bar's width
/// exactly, at every value, total, width and palette length; and the palette
/// index points into every palette that has a glyph.
pub proof fn lemma_cells_fill_the_width(value: nat, total: nat, width: nat, palette: nat)
    ensures
        done_cells(value, total, width) + partial_cells(value, total, width, palette)
            + empty_cells(value, total, width, palette) == width,
        palette > 0 ==> partial_index(value, total, width, palette) < palette,
{
    if total > 0 {
        assert((value * width) % total < total) by (nonlinear_arith)
            requires
                total > 0,
        ;
        lemma_scaled_remainder(fill_remainder(value, total, width), palette, total);
    }
    if has_partial(value, total, width, palette) {
        if width == 0 {
            assert((value * width) % total == 0) by (nonlinear_arith)
                requires
                    width == 0,
                    total > 0,
            ;
        } else {
            lemma_covered_below_width(value, total, width);
        }
    }
}

/// At a value of zero, and at any value out of a total of zero, nothing is
/// done: no done cell, no partial cell, and `width` empty cells.
pub proof fn lemma_nothing_done(value: nat, total: nat, width: nat, palette: nat)
    requires
        value == 0 || total == 0,
    ensures
        done_cells(value, total, width) == 0,
        !has_partial(value, total, width, palette),
        empty_cells(value, total, width, palette) == width,
{
    if total > 0 {
        assert((value * width) / total == 0 && (value * width) % total == 0)
            by (nonlinear_arith)
            requires
                value == 0,
                total > 0,
        ;
    }
}

/// From a non-zero total on everything is done: `width` done cells, no
/// partial cell, no empty cell. A bar without cells is always in that state.
pub proof fn lemma_all_done(value: nat, total: nat, width: nat, palette: nat)
    requires
        0 < total <= value || width == 0,
    ensures
        done_cells(value, total, width) == width,
        !has_partial(value, total, width, palette),
        empty_cells(value, total, width, palette) == 0,
{
    if width == 0 {
        if total > 0 {
            assert((value * width) % total == 0) by (nonlinear_arith)
                requires
                    width == 0,
                    total > 0,
            ;
        }
    } else {
        lemma_covered_from_total(value, total, width);
    }
}

/// For a fixed total and width the number of done cells never falls as the
/// value grows.
pub proof fn lemma_done_cells_monotonic(low: nat, high: nat, total: nat, width: nat)
    requires
        low <= high,
    ensures
        done_cells(low, total, width) <= done_cells(high, total, width),
{
    if total > 0 {
        assert((low * width) / total <= (high * width) / total) by (nonlinear_arith)
            requires
                low <= high,
                total > 0,
        ;
    }
}

/// The counts of a bar: done cells, whether a partial cell is drawn, the
/// palette index of its glyph, and the whole percentage.
pub fn amounts(value: u64, total: u64, width: usize, palette: usize) -> (counts: (
    usize,
    bool,
    usize,
    u32,
))
    ensures
        counts.0 == done_cells(value as nat, total as nat, width as nat),
        counts.1 == has_partial(value as nat, total as nat, width as nat, palette as nat),
        counts.2 == partial_index(value as nat, total as nat, width as nat, palette as nat),
        counts.3 == percent(value as nat, total as nat),
{
    if total == 0 {
        return (0, false, 0, 0);
    }
    proof {
        lemma_product_fits(value as nat, width as nat);
        lemma_product_fits(value as nat, 100);
    }
    let extent: u128 = (value as u128) * (width as u128);
    let covered: u128 = extent / (total as u128);
    let rest: u128 = extent % (total as u128);
    let done: usize = if covered < width as u128 {
        covered as usize
    } else {
        width
    };
    proof {
        lemma_product_fits(rest as nat, PARTIAL_THRESHOLD_PARTS as nat);
        lemma_product_fits(rest as nat, palette as nat);
        lemma_scaled_remainder(rest as nat, palette as nat, total as nat);
    }
    let partial: bool = palette > 0 && value < total && rest * (PARTIAL_THRESHOLD_PARTS as u128)
        > total as u128;
    let index: usize = ((rest * (palette as u128)) / (total as u128)) as usize;
    let ratio: u128 = ((value as u128) * 100) / (total as u128);
    let whole_percent: u32 = if ratio < u32::MAX as u128 {
        ratio as u32
    } else {
        u32::MAX
    };
    (done, partial, index, whole_percent)
}

} // verus!
