//! The world a new game starts in: a cube of cubes around the origin, the
//! kind of collision shape they have, and the world generation bundle.
use vstd::prelude::*;

verus! {

/// The kind of a collision body.
#[derive(Clone, Copy, Debug, PartialEq, Eq, PartialOrd, Structural)]
pub enum ObjectType {
    Box,
}

impl Default for ObjectType {
    fn default() -> (r: ObjectType)
        ensures
            r == ObjectType::Box,
    {
        ObjectType::Box
    }
}

impl ObjectType {
    /// Whether two bodies of these kinds push each other apart: they always do.
    pub fn should_generate_contacts(&self, other: &ObjectType) -> (r: bool)
        ensures
            r,
    {
        true
    }
}

/// The systems that generate the world, in one package.
#[derive(Debug)]
pub struct WorldGenBundle {}

impl WorldGenBundle {
    pub fn new() -> (b: WorldGenBundle)
        ensures
            b == (WorldGenBundle {}),
    {
        WorldGenBundle {}
    }
}

/// How many cubes stand along each axis of a grid of radius `radius`: the
/// coordinates run from `-radius` up to, not including, `radius`.
pub open spec fn grid_side(radius: i32) -> nat {
    if radius > 0 {
        (2 * radius) as nat
    } else {
        0
    }
}

/// The number of cubes in a grid of radius `radius`.
pub open spec fn grid_len(radius: i32) -> nat {
    grid_side(radius) * grid_side(radius) * grid_side(radius)
}

/// The cube at place `i` of the grid: x changes slowest, z fastest.
pub open spec fn grid_cell(radius: i32, i: int) -> (int, int, int) {
    let n = grid_side(radius) as int;
    (i / (n * n) - radius, (i / n) % n - radius, i % n - radius)
}

/// The place of the cube at (x, y, z) in the grid.
pub open spec fn grid_index(radius: i32, x: int, y: int, z: int) -> int {
    let n = grid_side(radius) as int;
    ((x + radius) * n + (y + radius)) * n + (z + radius)
}

/// The starting cubes: for x, y and z each running from `-radius` up to
/// `radius`, the cube at (x, y, z), with x in the outer and z in the inner
/// loop.
pub fn cube_grid(radius: i32) -> (cells: Vec<(i32, i32, i32)>)
    requires
        grid_len(radius) <= usize::MAX,
    ensures
        cells@.len() == grid_len(radius),
        forall|i: int|
            0 <= i < cells@.len() ==> {
                let c = grid_cell(radius, i);
                #[trigger] cells@[i] == (c.0 as i32, c.1 as i32, c.2 as i32)
            },
{
    let mut cells: Vec<(i32, i32, i32)> = Vec::new();
    if radius <= 0 {
        return cells;
    }
    let ghost n_int: int = grid_side(radius) as int;
    assert(n_int >= 1 && n_int * n_int >= 1 && n_int * n_int * n_int >= n_int * n_int
        && n_int * n_int >= n_int) by (nonlinear_arith)
        requires
            n_int >= 1,
    ;
    let n: usize = (2 * (radius as i64)) as usize;
    let area: usize = n * n;
    let total: usize = area * n;
    let mut i: usize = 0;
    while i < total
        invariant
            radius > 0,
            n == n_int,
            n_int == grid_side(radius),
            area == n_int * n_int,
            total == grid_len(radius),
            area >= 1,
            i <= total,
            cells@.len() == i,
            forall|j: int|
                0 <= j < i ==> {
                    let c = grid_cell(radius, j);
                    #[trigger] cells@[j] == (c.0 as i32, c.1 as i32, c.2 as i32)
                },
        decreases total - i,
    {
        let qx: usize = i / area;
        let qy: usize = (i / n) % n;
        let qz: usize = i % n;
        proof {
            vstd::arithmetic::div_mod::lemma_multiply_divide_lt(i as int, area as int, n as int);
        }
        let x: i32 = ((qx as i64) - (radius as i64)) as i32;
        let y: i32 = ((qy as i64) - (radius as i64)) as i32;
        let z: i32 = ((qz as i64) - (radius as i64)) as i32;
        cells.push((x, y, z));
        i = i + 1;
    }
    cells
}

/// Every cube of the grid lies within the radius, every cube within the
/// radius stands in the grid, and no cube stands in it twice.
pub proof fn grid_holds_each_cube_once(radius: i32)
    ensures
        forall|i: int|
            0 <= i < grid_len(radius) ==> {
                let c = #[trigger] grid_cell(radius, i);
                &&& -radius <= c.0 < radius
                &&& -radius <= c.1 < radius
                &&& -radius <= c.2 < radius
                &&& grid_index(radius, c.0, c.1, c.2) == i
            },
        forall|x: int, y: int, z: int|
            -radius <= x < radius && -radius <= y < radius && -radius <= z < radius ==> {
                let i = #[trigger] grid_index(radius, x, y, z);
                &&& 0 <= i < grid_len(radius)
                &&& grid_cell(radius, i) == (x, y, z)
            },
{
    let n = grid_side(radius) as int;
    assert forall|i: int| 0 <= i < grid_len(radius) implies {
        let c = #[trigger] grid_cell(radius, i);
        &&& -radius <= c.0 < radius
        &&& -radius <= c.1 < radius
        &&& -radius <= c.2 < radius
        &&& grid_index(radius, c.0, c.1, c.2) == i
    } by {
        assert(radius > 0);
        lemma_cell_of_index(n, i);
    }
    assert forall|x: int, y: int, z: int|
        -radius <= x < radius && -radius <= y < radius && -radius <= z < radius implies {
        let i = #[trigger] grid_index(radius, x, y, z);
        &&& 0 <= i < grid_len(radius)
        &&& grid_cell(radius, i) == (x, y, z)
    } by {
        lemma_index_of_cell(n, x + radius, y + radius, z + radius);
    }
}

proof fn lemma_cell_of_index(n: int, i: int)
    requires
        n >= 1,
        0 <= i < n * n * n,
    ensures
        0 <= i / (n * n) < n,
        0 <= (i / n) % n < n,
        0 <= i % n < n,
        ((i / (n * n)) * n + (i / n) % n) * n + i % n == i,
{
    assert(n * n >= 1 && n * n * n == (n * n) * n) by (nonlinear_arith)
        requires
            n >= 1,
    ;
    vstd::arithmetic::div_mod::lemma_multiply_divide_lt(i, n * n, n);
    vstd::arithmetic::div_mod::lemma_div_pos_is_pos(i, n * n);
    vstd::arithmetic::div_mod::lemma_div_pos_is_pos(i, n);
    vstd::arithmetic::div_mod::lemma_mod_bound(i / n, n);
    vstd::arithmetic::div_mod::lemma_mod_bound(i, n);
    vstd::arithmetic::div_mod::lemma_fundamental_div_mod(i, n);
    vstd::arithmetic::div_mod::lemma_fundamental_div_mod(i / n, n);
    vstd::arithmetic::div_mod::lemma_div_denominator(i, n, n);
    let a = i / (n * n);
    let b = (i / n) % n;
    let c = i % n;
    let q = i / n;
    assert(q / n == a);
    assert(q == n * a + b);
    assert(i == n * q + c);
    assert((a * n + b) * n + c == i) by (nonlinear_arith)
        requires
            q == n * a + b,
            i == n * q + c,
    ;
}

proof fn lemma_index_of_cell(n: int, a: int, b: int, c: int)
    requires
        0 <= a < n,
        0 <= b < n,
        0 <= c < n,
    ensures
        0 <= (a * n + b) * n + c < n * n * n,
        ((a * n + b) * n + c) / (n * n) == a,
        (((a * n + b) * n + c) / n) % n == b,
        ((a * n + b) * n + c) % n == c,
{
    let q = a * n + b;
    let i = q * n + c;
    assert(0 <= q < n * n && 0 <= i < n * n * n) by (nonlinear_arith)
        requires
            0 <= a < n,
            0 <= b < n,
            0 <= c < n,
            q == a * n + b,
            i == q * n + c,
    ;
    vstd::arithmetic::div_mod::lemma_fundamental_div_mod_converse(i, n, q, c);
    vstd::arithmetic::div_mod::lemma_fundamental_div_mod_converse(q, n, a, b);
    vstd::arithmetic::div_mod::lemma_div_denominator(i, n, n);
}

} // verus!
