//! The instance grid: a deterministic generator of an N-by-N field of
//! per-instance transforms. For grid coordinates `(x, z)` in `[0, N)` the
//! position is `(x, 0, z)` minus the displacement `(N/2, 0, N/2)` that
//! centers the grid on the origin. Those coordinates are half-integers, so
//! the model stores them doubled and exact; the application halves them
//! when it packs the instance buffer.

use vstd::prelude::*;
use vstd::arithmetic::div_mod::lemma_fundamental_div_mod;
use vstd::arithmetic::div_mod::lemma_fundamental_div_mod_converse;

verus! {

/// A grid position with every coordinate doubled, so the half-integer
/// displacement of odd grid sizes stays exact.
#[derive(Clone, Copy, Debug, PartialEq, Eq, Structural)]
pub struct InstancePosition {
    pub double_x: i32,
    pub double_y: i32,
    pub double_z: i32,
}

impl InstancePosition {
    /// The grid position at the origin.
    pub open spec fn is_origin(self) -> bool {
        self.double_x == 0 && self.double_y == 0 && self.double_z == 0
    }
}

/// The rotation of one instance. An instance exactly at the origin gets
/// the identity rotation — a rotation of zero about the z-axis — because a
/// rotation about its own zero-length position vector would be degenerate
/// and scale the instance away. Every other instance is rotated by exactly
/// a quarter of pi about its own position vector, normalized.
#[derive(Clone, Copy, Debug, PartialEq, Eq, Structural)]
pub enum InstanceRotation {
    Identity,
    QuarterPiAboutPosition,
}

/// One per-copy transform of the instanced draw: a position and the
/// rotation derived from it. Immutable once generated; the grid never
/// moves.
#[derive(Clone, Copy, Debug, PartialEq, Eq, Structural)]
pub struct Instance {
    pub position: InstancePosition,
    pub rotation: InstanceRotation,
}

/// The instance at flat index `i` of the grid with `per_row` instances per
/// row: rows run over the z axis, so `i = z * per_row + x`.
pub open spec fn instance_at(per_row: u32, i: int) -> Instance {
    let z = i / (per_row as int);
    let x = i % (per_row as int);
    let px = 2 * x - per_row;
    let pz = 2 * z - per_row;
    Instance {
        position: InstancePosition {
            double_x: px as i32,
            double_y: 0,
            double_z: pz as i32,
        },
        rotation: if px == 0 && pz == 0 {
            InstanceRotation::Identity
        } else {
            InstanceRotation::QuarterPiAboutPosition
        },
    }
}

/// Generates the full grid, row by row along z. A pure function of
/// `per_row`: no randomness, reproducible bit for bit. The bound keeps the
/// instance count within the 32-bit counter the draw call takes.
pub fn create_instances(per_row: u32) -> (r: Vec<Instance>)
    requires
        per_row <= 0xFFFF,
    ensures
        r@.len() == per_row * per_row,
        forall|i: int| 0 <= i < r@.len() ==> r@[i] == instance_at(per_row, i),
{
    let n = per_row;
    let mut out: Vec<Instance> = Vec::new();
    let mut z: u32 = 0;
    while z < n
        invariant
            z <= n <= 0xFFFF,
            out@.len() == z * n,
            forall|i: int| 0 <= i < out@.len() ==> out@[i] == instance_at(n, i),
        decreases n - z,
    {
        let mut x: u32 = 0;
        while x < n
            invariant
                x <= n <= 0xFFFF,
                z < n,
                out@.len() == z * n + x,
                forall|i: int| 0 <= i < out@.len() ==> out@[i] == instance_at(n, i),
            decreases n - x,
        {
            let px: i32 = 2 * (x as i32) - (n as i32);
            let pz: i32 = 2 * (z as i32) - (n as i32);
            let rotation = if px == 0 && pz == 0 {
                InstanceRotation::Identity
            } else {
                InstanceRotation::QuarterPiAboutPosition
            };
            let inst = Instance {
                position: InstancePosition { double_x: px, double_y: 0, double_z: pz },
                rotation,
            };
            proof {
                lemma_fundamental_div_mod_converse(
                    z * n + x,
                    n as int,
                    z as int,
                    x as int,
                );
                assert(inst == instance_at(n, out@.len() as int));
            }
            out.push(inst);
            x = x + 1;
        }
        proof {
            assert(z * n + n == (z + 1) * n) by (nonlinear_arith);
        }
        z = z + 1;
    }
    proof {
        assert(n * n == z * n) by (nonlinear_arith)
            requires
                z == n,
        ;
    }
    out
}

/// The default grid is ten by ten: exactly one hundred instances. The one
/// at flat index 55 — grid coordinates (5, 5), whose centered position is
/// the origin — carries the identity rotation, and every other instance is
/// rotated by a quarter of pi about its own normalized position vector.
pub proof fn lemma_grid_ten_by_ten()
    ensures
        forall|i: int|
            0 <= i < 100 ==> ((#[trigger] instance_at(10, i)).rotation
                == InstanceRotation::Identity <==> i == 55),
        forall|i: int|
            0 <= i < 100 && i != 55 ==> (#[trigger] instance_at(10, i)).rotation
                == InstanceRotation::QuarterPiAboutPosition,
        instance_at(10, 55).position.is_origin(),
{
    assert forall|i: int| 0 <= i < 100 implies ((#[trigger] instance_at(10, i)).rotation
        == InstanceRotation::Identity <==> i == 55) by {
        lemma_fundamental_div_mod(i, 10);
    }
}

} // verus!
