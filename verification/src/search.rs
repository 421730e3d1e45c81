//! The parameter space that the back-test searches for the best SAR settings.

use vstd::prelude::*;

verus! {

/// How many values each SAR parameter takes: 1 to 299 thousandths.
pub const SAR_STEPS: u32 = 299;

/// The `k`-th point of the search, in thousandths: the acceleration factor
/// advances in the outer loop, the maximum in the inner one.
pub open spec fn grid_point(k: int) -> (u32, u32) {
    ((k / 299 + 1) as u32, (k % 299 + 1) as u32)
}

/// Every (acceleration, maximum) pair of the search, in thousandths, in the
/// order in which the back-test tries them.
pub fn sar_parameter_grid() -> (grid: Vec<(u32, u32)>)
    ensures
        grid@.len() == SAR_STEPS * SAR_STEPS,
        forall|k: int| 0 <= k < grid@.len() ==> #[trigger] grid@[k] == grid_point(k),
        forall|k: int|
            0 <= k < grid@.len() ==> (#[trigger] grid@[k]).0 == k / 299 + 1 && grid@[k].1 == k % 299 + 1,
        forall|a: u32, m: u32|
            1 <= a <= SAR_STEPS && 1 <= m <= SAR_STEPS ==> #[trigger] grid@.contains((a, m)),
        forall|i: int, j: int| 0 <= i < j < grid@.len() ==> grid@[i] != grid@[j],
{
    let mut grid: Vec<(u32, u32)> = Vec::new();
    let mut accel: u32 = 1;
    while accel <= SAR_STEPS
        invariant
            1 <= accel <= SAR_STEPS + 1,
            grid@.len() == (accel - 1) * 299,
            forall|k: int| 0 <= k < grid@.len() ==> #[trigger] grid@[k] == grid_point(k),
        decreases SAR_STEPS + 1 - accel,
    {
        let mut max: u32 = 1;
        while max <= SAR_STEPS
            invariant
                1 <= accel <= SAR_STEPS,
                1 <= max <= SAR_STEPS + 1,
                grid@.len() == (accel - 1) * 299 + (max - 1),
                forall|k: int| 0 <= k < grid@.len() ==> #[trigger] grid@[k] == grid_point(k),
            decreases SAR_STEPS + 1 - max,
        {
            let ghost k: int = grid@.len() as int;
            assert(k / 299 == accel - 1 && k % 299 == max - 1) by (nonlinear_arith)
                requires
                    k == (accel - 1) * 299 + (max - 1),
                    1 <= max <= 299,
            ;
            grid.push((accel, max));
            max = max + 1;
        }
        accel = accel + 1;
    }
    proof {
        assert forall|a: u32, m: u32| 1 <= a <= SAR_STEPS && 1 <= m <= SAR_STEPS implies #[trigger] grid@.contains((a, m)) by {
            grid_point_at(a, m);
            let k: int = (a - 1) * 299 + (m - 1);
            assert(grid@[k] == (a, m));
        }
        assert forall|i: int, j: int| 0 <= i < j < grid@.len() implies grid@[i] != grid@[j] by {
            grid_points_distinct(i, j);
        }
    }
    grid
}

/// The pair `(a, m)` stands at index `(a - 1) * 299 + (m - 1)`.
pub proof fn grid_point_at(a: u32, m: u32)
    requires
        1 <= a <= SAR_STEPS,
        1 <= m <= SAR_STEPS,
    ensures
        0 <= (a - 1) * 299 + (m - 1) < SAR_STEPS * SAR_STEPS,
        grid_point((a - 1) * 299 + (m - 1)) == (a, m),
{
    let k: int = (a - 1) * 299 + (m - 1);
    assert(k / 299 == a - 1 && k % 299 == m - 1 && 0 <= k < 299 * 299) by (nonlinear_arith)
        requires
            k == (a - 1) * 299 + (m - 1),
            1 <= a <= 299,
            1 <= m <= 299,
    ;
}

/// Different indices of the grid hold different pairs.
pub proof fn grid_points_distinct(i: int, j: int)
    requires
        0 <= i < j < SAR_STEPS * SAR_STEPS,
    ensures
        grid_point(i) != grid_point(j),
{
    assert(i / 299 != j / 299 || i % 299 != j % 299) by (nonlinear_arith)
        requires
            0 <= i < j,
    ;
    assert(0 <= i / 299 < 299 && 0 <= j / 299 < 299) by (nonlinear_arith)
        requires
            0 <= i < j < 299 * 299,
    ;
}

} // verus!
