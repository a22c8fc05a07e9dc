//! Initial particle placement: a jittered regular grid covering the unit
//! square centred at the origin.
//!
//! The grid side is the ceiling of the square root of the particle count,
//! and cells are emitted in row-major order until the count is reached, so a
//! grid that overproduces cells simply stops early. Cell centres sit at
//! exact fractions of the side, which this module states and proves over
//! integers; turning a centre into a device scalar is the caller's
//! floating-point work.

use vstd::prelude::*;
use vstd::arithmetic::div_mod::lemma_fundamental_div_mod;
use vstd::arithmetic::div_mod::lemma_mod_bound;
use vstd::arithmetic::div_mod::lemma_multiply_divide_lt;

verus! {

/// Holds exactly when `side` is the smallest grid side whose `side × side`
/// cells can hold `n` particles: the ceiling of the square root of `n`.
pub open spec fn is_grid_side(n: int, side: int) -> bool {
    &&& 0 <= side
    &&& n <= side * side
    &&& (side == 0 || (side - 1) * (side - 1) < n)
}

/// The grid side for `n` particles.
pub open spec fn spec_grid_side(n: int) -> int {
    choose|side: int| is_grid_side(n, side)
}

/// At most one side satisfies `is_grid_side` for a given count.
pub proof fn lemma_grid_side_unique(n: int, a: int, b: int)
    requires
        is_grid_side(n, a),
        is_grid_side(n, b),
    ensures
        a == b,
{
    if a < b {
        assert(a * a <= (b - 1) * (b - 1)) by (nonlinear_arith)
            requires
                0 <= a,
                a <= b - 1,
        ;
    }
    if b < a {
        assert(b * b <= (a - 1) * (a - 1)) by (nonlinear_arith)
            requires
                0 <= b,
                b <= a - 1,
        ;
    }
}

/// Any side satisfying `is_grid_side` is the grid side, so a caller can
/// pin `spec_grid_side` of a concrete count by exhibiting the side.
pub proof fn lemma_grid_side_is(n: int, side: int)
    requires
        is_grid_side(n, side),
    ensures
        spec_grid_side(n) == side,
{
    assert(exists|s: int| is_grid_side(n, s));
    lemma_grid_side_unique(n, side, spec_grid_side(n));
}

/// Side of the placement grid: the smallest `side` with
/// `side * side >= particles_len`.
pub fn grid_side(particles_len: u32) -> (side: u32)
    ensures
        is_grid_side(particles_len as int, side as int),
        side as int == spec_grid_side(particles_len as int),
        side <= 0x1_0000,
{
    let n: u64 = particles_len as u64;
    let mut side: u64 = 0;
    loop
        invariant
            n == particles_len,
            side <= 0x1_0000,
            side == 0 || ((side - 1) * (side - 1) < n),
        ensures
            n <= side * side,
            side == 0 || ((side - 1) * (side - 1) < n),
            side <= 0x1_0000,
        decreases 0x1_0001 - side,
    {
        proof {
            assert(side * side <= 0x1_0000_0000) by (nonlinear_arith)
                requires
                    0 <= side <= 0x1_0000,
            ;
        }
        if side * side >= n {
            break ;
        }
        proof {
            assert(side < 0x1_0000) by (nonlinear_arith)
                requires
                    side * side < n,
                    n <= 0xffff_ffffu64,
                    0 <= side <= 0x1_0000,
            ;
        }
        side = side + 1;
    }
    let side32: u32 = side as u32;
    proof {
        lemma_grid_side_is(particles_len as int, side32 as int);
    }
    side32
}

/// One cell of the placement grid.
#[derive(Clone, Copy, PartialEq, Eq, Structural, Debug)]
pub struct GridCell {
    /// Row index, below the grid side.
    pub row: u32,
    /// Column index, below the grid side.
    pub col: u32,
}

/// Row-major truncated enumeration of the placement grid: exactly
/// `particles_len` cells of the `side × side` grid, cell `k` standing at
/// row-major position `k`. Surplus cells past the count are never emitted,
/// so a count that is no perfect square still yields exactly the count.
pub fn placement_cells(particles_len: u32) -> (cells: Vec<GridCell>)
    ensures
        cells@.len() == particles_len,
        forall|k: int|
            0 <= k < cells@.len() ==> {
                let side = spec_grid_side(particles_len as int);
                &&& (#[trigger] cells@[k]).row < side
                &&& cells@[k].col < side
                &&& cells@[k].row * side + cells@[k].col == k
            },
{
    let side = grid_side(particles_len);
    let mut cells: Vec<GridCell> = Vec::new();
    let mut k: u32 = 0;
    while k < particles_len
        invariant
            is_grid_side(particles_len as int, side as int),
            side as int == spec_grid_side(particles_len as int),
            k <= particles_len,
            cells@.len() == k,
            forall|m: int|
                0 <= m < cells@.len() ==> {
                    &&& (#[trigger] cells@[m]).row < side
                    &&& cells@[m].col < side
                    &&& cells@[m].row * (side as int) + cells@[m].col == m
                },
        decreases particles_len - k,
    {
        proof {
            if side == 0 {
                assert(particles_len as int <= 0);
            }
        }
        let row = k / side;
        let col = k % side;
        proof {
            lemma_fundamental_div_mod(k as int, side as int);
            assert(k < side * side) by (nonlinear_arith)
                requires
                    (k as int) < particles_len as int,
                    particles_len as int <= (side as int) * (side as int),
            ;
            lemma_multiply_divide_lt(k as int, side as int, side as int);
            lemma_mod_bound(k as int, side as int);
            assert(row < side);
            assert(col < side);
            assert((row as int) * (side as int) == (side as int) * (row as int)) by (nonlinear_arith);
            assert(row * (side as int) + col == k);
        }
        cells.push(GridCell { row, col });
        k = k + 1;
    }
    cells
}

/// Exact axis coordinate of cell line `i` on a `side`-cell axis, as the
/// numerator of a fraction over `coord_denom(side)`: the cell centre sits at
/// `(2·i + 1 − side) / (2·side)`, which is `−1/2 + (i + 1/2) / side` — the
/// start-plus-spacing placement over the unit interval centred at the
/// origin.
pub open spec fn coord_numer(i: int, side: int) -> int {
    2 * i + 1 - side
}

/// Denominator of the exact axis coordinate on a `side`-cell axis.
pub open spec fn coord_denom(side: int) -> int {
    2 * side
}

/// Placement law: every cell emitted for a count lies inside the unit
/// square centred at the origin. On each axis the coordinate's magnitude is
/// at most one half, stated exactly as `|2 · numerator| ≤ denominator`.
pub proof fn lemma_cells_in_unit_square(particles_len: int, cells: Seq<GridCell>)
    requires
        cells.len() == particles_len,
        forall|k: int|
            0 <= k < cells.len() ==> {
                let side = spec_grid_side(particles_len);
                &&& (#[trigger] cells[k]).row < side
                &&& cells[k].col < side
            },
    ensures
        forall|k: int|
            0 <= k < cells.len() ==> {
                let side = spec_grid_side(particles_len);
                &&& -coord_denom(side) <= 2 * coord_numer((#[trigger] cells[k]).row as int, side)
                    <= coord_denom(side)
                &&& -coord_denom(side) <= 2 * coord_numer(cells[k].col as int, side)
                    <= coord_denom(side)
            },
{
    assert forall|k: int| 0 <= k < cells.len() implies {
        let side = spec_grid_side(particles_len);
        &&& -coord_denom(side) <= 2 * coord_numer((#[trigger] cells[k]).row as int, side)
            <= coord_denom(side)
        &&& -coord_denom(side) <= 2 * coord_numer(cells[k].col as int, side) <= coord_denom(side)
    } by {
        let side = spec_grid_side(particles_len);
        assert(cells[k].row < side && cells[k].col < side);
    }
}

} // verus!
