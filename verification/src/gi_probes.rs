//! Covering the city with global illumination probes: how many, how large, where, and
//! how much progress building them reports.

use vstd::prelude::*;

use crate::numbers::{clamp_to, Uf32};

verus! {

/// The progress that building one probe reports.
pub const LOAD_STEP_MULTIPLIER: u32 = 100;

/// The progress steps that building the probes of a `n` by `n` grid reports.
pub open spec fn probe_load_steps(n: u32) -> int {
    n * n * LOAD_STEP_MULTIPLIER
}

/// The number of progress steps building the probes takes: a hundred for each probe of
/// the square grid.
pub fn load_steps(probe_count: Uf32) -> (r: u32)
    requires
        probe_load_steps(probe_count@) <= u32::MAX,
    ensures
        r == probe_load_steps(probe_count@),
{
    let n = probe_count.into_u32();
    proof {
        assert(n * n <= n * n * LOAD_STEP_MULTIPLIER) by (nonlinear_arith)
            requires
                n >= 0,
        ;
    }
    n * n * LOAD_STEP_MULTIPLIER
}

/// The tiles that one probe covers along each side: the city's size over the number of
/// probes along a side.
pub fn tiles_per_probe(city_size: Uf32, probe_count: Uf32) -> (r: Uf32)
    requires
        city_size.wf(),
        probe_count.wf(),
        probe_count@ != 0,
    ensures
        r@ == clamp_to((city_size@ / probe_count@) as int, 0, 16777216),
        r.wf(),
{
    city_size.div(probe_count)
}

/// The side length of a probe in world units: its tiles times the tile width.
pub fn probe_size(tile_size: u8, tile_count: Uf32) -> (r: Uf32)
    requires
        tile_count.wf(),
        tile_size * tile_count@ <= u32::MAX,
    ensures
        r@ == clamp_to(tile_size * tile_count@, 0, 16777216),
        r.wf(),
{
    Uf32::new(tile_size as u32).mul(tile_count)
}

/// The margin a probe gets beyond its tiles so that probes overlap: two tiles on each
/// side, in world units.
pub fn probe_margin(tile_size: u8) -> (r: u32)
    ensures
        r == tile_size * 4,
{
    tile_size as u32 * 4
}

/// The probes of an `n` by `n` grid, column by column.
pub open spec fn probe_cell(n: u32, i: int) -> (u32, u32) {
    ((i / n as int) as u32, (i % n as int) as u32)
}

/// The positions of the probes in the grid: for each column, each row.
pub fn probe_grid(probe_count: Uf32) -> (r: Vec<(u32, u32)>)
    requires
        probe_count@ * probe_count@ <= usize::MAX,
    ensures
        r@.len() == probe_count@ * probe_count@,
        forall|i: int| 0 <= i < r@.len() ==> #[trigger] r@[i] == probe_cell(probe_count@, i),
{
    let n = probe_count.into_u32();
    let mut cells: Vec<(u32, u32)> = Vec::new();
    let mut x: u32 = 0;
    while x < n
        invariant
            x <= n,
            n * n <= usize::MAX,
            cells@.len() == x * n,
            forall|i: int| 0 <= i < cells@.len() ==> #[trigger] cells@[i] == probe_cell(n, i),
        decreases n - x,
    {
        let mut y: u32 = 0;
        while y < n
            invariant
                y <= n,
                x < n,
                n * n <= usize::MAX,
                cells@.len() == x * n + y,
                forall|i: int| 0 <= i < cells@.len() ==> #[trigger] cells@[i] == probe_cell(n, i),
            decreases n - y,
        {
            proof {
                let i = x * n + y;
                assert(i < n * n) by (nonlinear_arith)
                    requires
                        x < n,
                        y < n,
                        i == x * n + y,
                ;
                vstd::arithmetic::div_mod::lemma_fundamental_div_mod_converse(i as int, n as int, x as int, y as int);
            }
            cells.push((x, y));
            y = y + 1;
        }
        proof {
            assert(x * n + n == (x + 1) * n) by (nonlinear_arith);
        }
        x = x + 1;
    }
    cells
}

} // verus!
