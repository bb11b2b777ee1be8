use vstd::prelude::*;

verus! {

/// Side length, in texels, of the square position and velocity textures.
pub const IMAGE_SIZE: u32 = 128;

/// Side length of a compute workgroup, in invocations along X and along Y.
pub const WORKGROUP_SIZE: u32 = 8;

/// `a / b` rounded up.
pub open spec fn ceil_div(a: int, b: int) -> int {
    (a + b - 1) / b
}

/// Number of boids the state textures can hold: one texel each.
pub fn texture_capacity() -> (r: u32)
    ensures
        r == IMAGE_SIZE * IMAGE_SIZE,
{
    IMAGE_SIZE * IMAGE_SIZE
}

/// Linear boid index of the texel at column `x`, row `y` (row-major).
pub fn texel_index(x: u32, y: u32) -> (r: u32)
    requires
        x < IMAGE_SIZE,
        y < IMAGE_SIZE,
    ensures
        r == y * IMAGE_SIZE + x,
        r < IMAGE_SIZE * IMAGE_SIZE,
{
    assert(y * IMAGE_SIZE + x < IMAGE_SIZE * IMAGE_SIZE) by (nonlinear_arith)
        requires
            x < IMAGE_SIZE,
            y < IMAGE_SIZE,
            IMAGE_SIZE == 128,
    ;
    y * IMAGE_SIZE + x
}

/// Column and row of the texel that holds boid `index`.
pub fn texel_coords(index: u32) -> (r: (u32, u32))
    requires
        index < IMAGE_SIZE * IMAGE_SIZE,
    ensures
        r.0 == index % IMAGE_SIZE,
        r.1 == index / IMAGE_SIZE,
        r.0 < IMAGE_SIZE,
        r.1 < IMAGE_SIZE,
        r.1 * IMAGE_SIZE + r.0 == index,
{
    let x = index % IMAGE_SIZE;
    let y = index / IMAGE_SIZE;
    assert(y < IMAGE_SIZE && y * IMAGE_SIZE + x == index) by (nonlinear_arith)
        requires
            index < IMAGE_SIZE * IMAGE_SIZE,
            x == index % IMAGE_SIZE,
            y == index / IMAGE_SIZE,
            IMAGE_SIZE == 128,
    ;
    (x, y)
}

/// Number of workgroups of `group` invocations needed to cover `extent`
/// invocations along one axis.
pub fn workgroup_count(extent: u32, group: u32) -> (r: u32)
    requires
        group > 0,
    ensures
        r == ceil_div(extent as int, group as int),
{
    let q = extent / group;
    let m = extent % group;
    proof {
        let (e, g) = (extent as int, group as int);
        assert(e == g * (q as int) + (m as int) && 0 <= m < g) by (nonlinear_arith)
            requires
                g > 0,
                q as int == e / g,
                m as int == e % g,
        ;
        if m == 0 {
            assert(ceil_div(e, g) == q) by (nonlinear_arith)
                requires
                    g > 0,
                    e == g * (q as int),
            ;
        } else {
            assert(ceil_div(e, g) == q + 1) by (nonlinear_arith)
                requires
                    g > 0,
                    e == g * (q as int) + (m as int),
                    0 < m < g,
            ;
        }
        assert(q as int * g <= e) by (nonlinear_arith)
            requires
                g > 0,
                e == g * (q as int) + (m as int),
                0 <= m,
        ;
        if m != 0 {
            assert(q < u32::MAX) by (nonlinear_arith)
                requires
                    q as int * g <= e,
                    e <= u32::MAX,
                    g >= 2,
            ;
        }
    }
    if m == 0 {
        q
    } else {
        q + 1
    }
}

/// Size of a compute dispatch, in workgroups along each axis.
#[derive(Clone, Copy, Debug, PartialEq, Eq, Structural)]
pub struct WorkgroupGrid {
    pub x: u32,
    pub y: u32,
    pub z: u32,
}

/// The grid that gives every texel of the state textures one invocation:
/// `ceil(IMAGE_SIZE / WORKGROUP_SIZE)` along X and Y, depth one.
pub fn dispatch_grid() -> (r: WorkgroupGrid)
    ensures
        r.x == ceil_div(IMAGE_SIZE as int, WORKGROUP_SIZE as int),
        r.y == ceil_div(IMAGE_SIZE as int, WORKGROUP_SIZE as int),
        r.z == 1,
        r.x * WORKGROUP_SIZE >= IMAGE_SIZE,
        r.x == 16,
        r.y == 16,
{
    let n = workgroup_count(IMAGE_SIZE, WORKGROUP_SIZE);
    assert(ceil_div(128, 8) == 16);
    WorkgroupGrid { x: n, y: n, z: 1 }
}

} // verus!
