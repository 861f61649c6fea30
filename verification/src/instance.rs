//! The startup instance grid and the quad mesh every instance draws.
//!
//! At startup the scene is a cubic grid of instances, one mesh drawn once
//! per instance with a per-instance transform.  The grid positions are exact
//! fixed-point values; the host derives each instance's rotation from its
//! position and uploads the transforms once.

use vstd::prelude::*;

verus! {

use vstd::arithmetic::div_mod::lemma_fundamental_div_mod_converse;

/// Instances per edge of the startup grid.
pub const NUM_INSTANCES_PER_ROW: u32 = 15;

/// One grid instance: its position in fixed-point world units.
#[derive(Clone, Copy, PartialEq, Eq, Structural, Debug)]
pub struct GridInstance {
    /// Position along the world x axis.
    pub x: i64,
    /// Position along the world y axis.
    pub y: i64,
    /// Position along the world z axis.
    pub z: i64,
}

/// One vertex of the textured quad: position and texture coordinates in
/// fixed point.
#[derive(Clone, Copy, PartialEq, Eq, Structural, Debug)]
pub struct Vertex {
    /// Position along x.
    pub px: i64,
    /// Position along y.
    pub py: i64,
    /// Position along z.
    pub pz: i64,
    /// Texture coordinate u.
    pub tu: i64,
    /// Texture coordinate v.
    pub tv: i64,
}

/// The grid coordinate of index `i` along one axis of a grid with `n`
/// instances per edge: the index in whole units, shifted back by half an
/// edge so the grid is centred on the origin.
pub open spec fn grid_coord(i: int, n: int) -> int {
    i * 1_000_000 - (n * 1_000_000) / 2
}

/// The position of the instance at flat index `k` of an `n`-per-edge grid,
/// laid out by depth, then column, then height.
pub open spec fn grid_instance(k: int, n: int) -> GridInstance {
    GridInstance {
        x: grid_coord((k / n) % n, n) as i64,
        y: grid_coord(k % n, n) as i64,
        z: grid_coord(k / (n * n), n) as i64,
    }
}

fn grid_coord_fx(i: u32, n: u32) -> (r: i64)
    requires
        i < n,
        n <= 1024,
    ensures
        r as int == grid_coord(i as int, n as int),
{
    (i as i64) * 1_000_000 - (((n as u64) * 1_000_000) / 2) as i64
}

/// Builds the positions of a cubic grid with `per_row` instances per edge,
/// centred on the origin, laid out by depth, then column, then height.
pub fn grid_positions(per_row: u32) -> (v: Vec<GridInstance>)
    requires
        per_row <= 1024,
    ensures
        v@.len() == (per_row as int) * (per_row as int) * (per_row as int),
        forall|k: int| 0 <= k < v@.len() ==> v@[k] == grid_instance(k, per_row as int),
{
    let n = per_row;
    let ghost ni = n as int;
    let mut v: Vec<GridInstance> = Vec::new();
    let mut zi: u32 = 0;
    while zi < n
        invariant
            zi <= n,
            n <= 1024,
            n == per_row,
            v@.len() == (zi as int) * ni * ni,
            ni == n as int,
            forall|k: int| 0 <= k < v@.len() ==> v@[k] == grid_instance(k, ni),
        decreases n - zi,
    {
        let mut xi: u32 = 0;
        proof {
            assert((zi as int) * ni * ni + 0 * ni == (zi as int) * ni * ni) by (nonlinear_arith);
        }
        while xi < n
            invariant
                zi < n,
                xi <= n,
                n <= 1024,
                n == per_row,
                v@.len() == (zi as int) * ni * ni + (xi as int) * ni,
                ni == n as int,
                forall|k: int| 0 <= k < v@.len() ==> v@[k] == grid_instance(k, ni),
            decreases n - xi,
        {
            let mut yi: u32 = 0;
            while yi < n
                invariant
                    zi < n,
                    xi < n,
                    yi <= n,
                    n <= 1024,
                    n == per_row,
                    v@.len() == (zi as int) * ni * ni + (xi as int) * ni + yi as int,
                    ni == n as int,
                    forall|k: int| 0 <= k < v@.len() ==> v@[k] == grid_instance(k, ni),
                decreases n - yi,
            {
                let x = grid_coord_fx(xi, n);
                let y = grid_coord_fx(yi, n);
                let z = grid_coord_fx(zi, n);
                proof {
                    let k = v@.len() as int;
                    assert(k == ((zi as int) * ni + xi as int) * ni + yi as int
                        && k == (zi as int) * (ni * ni) + ((xi as int) * ni + yi as int)
                        && 0 <= (xi as int) * ni + (yi as int) < ni * ni
                        && 0 <= (zi as int) * ni + xi as int) by (nonlinear_arith)
                        requires
                            k == (zi as int) * ni * ni + (xi as int) * ni + yi as int,
                            0 <= zi as int,
                            0 <= (xi as int) < ni,
                            0 <= (yi as int) < ni,
                            0 < ni,
                    ;
                    lemma_fundamental_div_mod_converse(
                        k,
                        ni,
                        (zi as int) * ni + xi as int,
                        yi as int,
                    );
                    lemma_fundamental_div_mod_converse(
                        (zi as int) * ni + xi as int,
                        ni,
                        zi as int,
                        xi as int,
                    );
                    lemma_fundamental_div_mod_converse(
                        k,
                        ni * ni,
                        zi as int,
                        (xi as int) * ni + yi as int,
                    );
                    assert(grid_instance(k, ni) == (GridInstance { x: x as i64, y: y as i64, z: z as i64 }));
                }
                v.push(GridInstance { x, y, z });
                yi = yi + 1;
            }
            xi = xi + 1;
            proof {
                assert((zi as int) * ni * ni + ((xi as int) - 1) * ni + ni == (zi as int) * ni * ni
                    + (xi as int) * ni) by (nonlinear_arith);
            }
        }
        zi = zi + 1;
        proof {
            assert(((zi as int) - 1) * ni * ni + ni * ni == (zi as int) * ni * ni)
                by (nonlinear_arith);
        }
    }
    v
}

/// The number of instances in a grid with `per_row` instances per edge.
pub fn instance_count(per_row: u32) -> (count: u64)
    requires
        per_row <= 1024,
    ensures
        count == (per_row as int) * (per_row as int) * (per_row as int),
{
    proof {
        assert(0 <= (per_row as int) * (per_row as int) <= 1_048_576) by (nonlinear_arith)
            requires
                0 <= per_row <= 1024,
        ;
        assert(0 <= (per_row as int) * (per_row as int) * (per_row as int)
            <= 1_048_576 * 1024) by (nonlinear_arith)
            requires
                0 <= per_row <= 1024,
                0 <= (per_row as int) * (per_row as int) <= 1_048_576,
        ;
    }
    (per_row as u64) * (per_row as u64) * (per_row as u64)
}

/// The quad's four vertices: a square of one unit's width in the x-y plane,
/// texture coordinates at the corners.
pub fn quad_vertices() -> (v: Vec<Vertex>)
    ensures
        v@.len() == 4,
        v@[0] == (Vertex { px: -500_000i64, py: 500_000, pz: 0, tu: 0, tv: 0 }),
        v@[1] == (Vertex { px: 500_000, py: 500_000, pz: 0, tu: 1_000_000, tv: 0 }),
        v@[2] == (Vertex { px: -500_000i64, py: -500_000i64, pz: 0, tu: 0, tv: 1_000_000 }),
        v@[3] == (Vertex { px: 500_000, py: -500_000i64, pz: 0, tu: 1_000_000, tv: 1_000_000 }),
{
    let mut v: Vec<Vertex> = Vec::new();
    v.push(Vertex { px: -500_000, py: 500_000, pz: 0, tu: 0, tv: 0 });
    v.push(Vertex { px: 500_000, py: 500_000, pz: 0, tu: 1_000_000, tv: 0 });
    v.push(Vertex { px: -500_000, py: -500_000, pz: 0, tu: 0, tv: 1_000_000 });
    v.push(Vertex { px: 500_000, py: -500_000, pz: 0, tu: 1_000_000, tv: 1_000_000 });
    v
}

/// The quad's two triangles as indices into [`quad_vertices`]: six indices,
/// each in range of the four vertices.
pub fn quad_indices() -> (v: Vec<u16>)
    ensures
        v@ =~= seq![1u16, 0u16, 2u16, 1u16, 2u16, 3u16],
        forall|k: int| 0 <= k < v@.len() ==> v@[k] < 4,
{
    let mut v: Vec<u16> = Vec::new();
    v.push(1);
    v.push(0);
    v.push(2);
    v.push(1);
    v.push(2);
    v.push(3);
    v
}

} // verus!
