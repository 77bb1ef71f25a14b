//! The instancing demos place one object per cell of a square grid. The grid
//! walk — which cell each instance occupies, in which order — is plain
//! integer logic; the scaling of cells to world positions is float work left
//! to the front end.

use vstd::prelude::*;

verus! {

/// Side length of the instance grid that the demos draw.
pub const NUM_INSTANCES_PER_ROW: u32 = 10;

/// One cell of the instance grid.
#[derive(Clone, Copy, PartialEq, Eq, Structural, Debug)]
pub struct GridPos {
    pub x: u32,
    pub z: u32,
}

/// Walks the n-by-n grid row by row: instance `k` sits in column `k % n` of
/// row `k / n`.
pub fn grid_positions(n: u32) -> (r: Vec<GridPos>)
    requires
        n * n <= usize::MAX,
    ensures
        r@.len() == n * n,
        forall|k: int|
            0 <= k < r@.len() ==> (#[trigger] r@[k]) == (GridPos {
                x: (k % (n as int)) as u32,
                z: (k / (n as int)) as u32,
            }),
{
    let mut r: Vec<GridPos> = Vec::new();
    let mut z: u32 = 0;
    while z < n
        invariant
            z <= n,
            n * n <= usize::MAX,
            r@.len() == z * n,
            forall|k: int|
                0 <= k < r@.len() ==> (#[trigger] r@[k]) == (GridPos {
                    x: (k % (n as int)) as u32,
                    z: (k / (n as int)) as u32,
                }),
        decreases n - z,
    {
        let mut x: u32 = 0;
        while x < n
            invariant
                z < n,
                x <= n,
                n * n <= usize::MAX,
                r@.len() == z * n + x,
                forall|k: int|
                    0 <= k < r@.len() ==> (#[trigger] r@[k]) == (GridPos {
                        x: (k % (n as int)) as u32,
                        z: (k / (n as int)) as u32,
                    }),
            decreases n - x,
        {
            proof {
                lemma_grid_index(z as int, x as int, n as int);
            }
            r.push(GridPos { x, z });
            x = x + 1;
        }
        proof {
            assert((z + 1) * (n as int) == z * (n as int) + n) by (nonlinear_arith);
        }
        z = z + 1;
    }
    r
}

/// Cell `z * n + x` of a row-major grid lies in column `x` of row `z`, and
/// every cell index stays within the `n * n` grid.
proof fn lemma_grid_index(z: int, x: int, n: int) by (nonlinear_arith)
    requires
        0 <= z < n,
        0 <= x < n,
    ensures
        (z * n + x) % n == x,
        (z * n + x) / n == z,
        z * n + x < n * n,
{
}

} // verus!
