//! Extraction over a regular lattice of samples: one cube per lattice cell,
//! visited in lexicographic order, with the triangles of all cubes joined.
use vstd::prelude::*;

use vstd::arithmetic::div_mod::{lemma_mod_bound, lemma_multiply_divide_lt};
use vstd::arithmetic::mul::lemma_mul_inequality;

use crate::cube::{Cube, Point, Point3, Triangle, COORD_LIMIT};
use crate::table::CORNER_OFFSETS;

verus! {

/// Number of cubes along each axis.
#[derive(Clone, Copy, Debug, PartialEq, Eq)]
pub struct Resolution {
    pub x: usize,
    pub y: usize,
    pub z: usize,
}

/// The region that the lattice spans, from corner `min` to corner `max`.
/// Lattice point `(i, j, k)` stands for `min + (max - min) * (i / x, j / y, k / z)`,
/// with `(x, y, z)` the resolution.
#[derive(Clone, Copy, Debug, PartialEq, Eq)]
pub struct Bounds {
    pub min: Point3,
    pub max: Point3,
}

/// Why an extraction was refused.
#[derive(Clone, Copy, Debug, PartialEq, Eq)]
pub enum ExtractError {
    /// Some axis has no cube.
    InvalidResolution,
    /// The region is empty or inverted along some axis.
    InvalidBounds,
    /// The number of samples is not the number of lattice points.
    SampleCountMismatch,
}

impl Resolution {
    /// Every axis has at least one cube.
    pub open spec fn valid(self) -> bool {
        self.x >= 1 && self.y >= 1 && self.z >= 1
    }

    /// Number of lattice points.
    pub open spec fn lattice_len(self) -> int {
        (self.x + 1) * (self.y + 1) * (self.z + 1)
    }

    /// Number of cubes.
    pub open spec fn cube_count(self) -> int {
        self.x * self.y * self.z
    }

    /// Position of lattice point `(i, j, k)` in the sample sequence: `i` varies
    /// slowest and `k` fastest.
    pub open spec fn sample_index(self, i: int, j: int, k: int) -> int {
        (i * (self.y + 1) + j) * (self.z + 1) + k
    }

    /// The lattice point whose sample stands at position `s`.
    pub open spec fn lattice_point(self, s: int) -> Point3 {
        Point3 {
            x: (s / ((self.y + 1) * (self.z + 1)) as int) as i64,
            y: ((s / (self.z + 1) as int) % (self.y + 1) as int) as i64,
            z: (s % (self.z + 1) as int) as i64,
        }
    }

    /// First lattice coordinate of cube `n` in traversal order.
    pub open spec fn cube_i(self, n: int) -> int {
        n / (self.y * self.z) as int
    }

    /// Second lattice coordinate of cube `n` in traversal order.
    pub open spec fn cube_j(self, n: int) -> int {
        (n / self.z as int) % self.y as int
    }

    /// Third lattice coordinate of cube `n` in traversal order.
    pub open spec fn cube_k(self, n: int) -> int {
        n % self.z as int
    }
}

impl Bounds {
    /// The region has positive extent along every axis.
    pub open spec fn valid(self) -> bool {
        &&& self.min.x < self.max.x
        &&& self.min.y < self.max.y
        &&& self.min.z < self.max.z
    }
}

/// Corner `q` of the cube whose lowest lattice point is `(i, j, k)`.
pub open spec fn corner_sample(values: Seq<i64>, r: Resolution, i: int, j: int, k: int, q: int) -> Point {
    let x = i + CORNER_OFFSETS[q][0];
    let y = j + CORNER_OFFSETS[q][1];
    let z = k + CORNER_OFFSETS[q][2];
    Point { pos: Point3 { x: x as i64, y: y as i64, z: z as i64 }, value: values[r.sample_index(x, y, z)] }
}

/// Cube `n` of the lattice in traversal order, its corners read from `values`.
pub open spec fn grid_cube(values: Seq<i64>, r: Resolution, n: int) -> Cube {
    let i = r.cube_i(n);
    let j = r.cube_j(n);
    let k = r.cube_k(n);
    Cube([
        corner_sample(values, r, i, j, k, 0),
        corner_sample(values, r, i, j, k, 1),
        corner_sample(values, r, i, j, k, 2),
        corner_sample(values, r, i, j, k, 3),
        corner_sample(values, r, i, j, k, 4),
        corner_sample(values, r, i, j, k, 5),
        corner_sample(values, r, i, j, k, 6),
        corner_sample(values, r, i, j, k, 7),
    ])
}

/// The triangles of the first `n` cubes in traversal order, concatenated.
pub open spec fn grid_triangles(values: Seq<i64>, r: Resolution, n: int) -> Seq<Triangle>
    decreases n,
{
    if n <= 0 {
        Seq::empty()
    } else {
        grid_triangles(values, r, n - 1) + grid_cube(values, r, n - 1).triangles()
    }
}

/// Each axis length of a lattice that fits in memory is far below the
/// coordinate bound, and there are fewer cubes than lattice points.
proof fn lemma_lattice_small(r: Resolution)
    requires
        r.valid(),
        r.lattice_len() <= usize::MAX,
    ensures
        r.x + 1 < COORD_LIMIT,
        r.y + 1 < COORD_LIMIT,
        r.z + 1 < COORD_LIMIT,
        r.cube_count() < r.lattice_len(),
        0 < r.y * r.z <= r.cube_count(),
        r.x * r.y <= r.cube_count(),
        (r.y + 1) * (r.z + 1) <= r.lattice_len(),
        (r.x + 1) * (r.y + 1) <= r.lattice_len(),
        r.x + 1 <= r.lattice_len(),
        r.y + 1 <= r.lattice_len(),
        r.z + 1 <= r.lattice_len(),
        r.lattice_len() == (r.x + 1) * ((r.y + 1) * (r.z + 1)),
{
    let a = r.x + 1;
    let b = r.y + 1;
    let c = r.z + 1;
    lemma_mul_inequality(2, b, c);
    lemma_mul_inequality(4, b * c, a);
    lemma_mul_inequality(2, a, c);
    lemma_mul_inequality(4, a * c, b);
    lemma_mul_inequality(2, a, b);
    lemma_mul_inequality(4, a * b, c);
    assert(a * b * c == (b * c) * a) by (nonlinear_arith);
    assert(a * b * c == (a * c) * b) by (nonlinear_arith);
    assert(r.cube_count() < r.lattice_len()) by (nonlinear_arith)
        requires
            r.x >= 1,
            r.y >= 1,
            r.z >= 1,
    ;
    assert(0 < r.y * r.z <= r.cube_count() && r.x * r.y <= r.cube_count()) by (nonlinear_arith)
        requires
            r.x >= 1,
            r.y >= 1,
            r.z >= 1,
    ;
    assert((r.y + 1) * (r.z + 1) <= r.lattice_len() && (r.x + 1) * (r.y + 1) <= r.lattice_len() && r.x
        + 1 <= r.lattice_len() && r.y + 1 <= r.lattice_len() && r.z + 1 <= r.lattice_len()
        && r.lattice_len() == (r.x + 1) * ((r.y + 1) * (r.z + 1))) by (nonlinear_arith)
        requires
            r.x >= 1,
            r.y >= 1,
            r.z >= 1,
    ;
}

/// Cube `n` lies inside the lattice.
proof fn lemma_cube_in_lattice(r: Resolution, n: int)
    requires
        r.valid(),
        0 <= n < r.cube_count(),
    ensures
        0 <= r.cube_i(n) < r.x,
        0 <= r.cube_j(n) < r.y,
        0 <= r.cube_k(n) < r.z,
{
    assert(0 < r.y * r.z) by (nonlinear_arith)
        requires
            r.y >= 1,
            r.z >= 1,
    ;
    assert(n < (r.y * r.z) * r.x) by (nonlinear_arith)
        requires
            n < r.x * r.y * r.z,
    ;
    lemma_multiply_divide_lt(n, r.y * r.z, r.x as int);
    assert(0 <= n / (r.y * r.z)) by (nonlinear_arith)
        requires
            0 <= n,
            0 < r.y * r.z,
    ;
    assert(0 <= n / (r.z as int)) by (nonlinear_arith)
        requires
            0 <= n,
            0 < r.z,
    ;
    lemma_mod_bound(n / (r.z as int), r.y as int);
    lemma_mod_bound(n, r.z as int);
}

/// A lattice point's sample lies inside the sample sequence.
proof fn lemma_sample_index_bound(r: Resolution, i: int, j: int, k: int)
    requires
        0 <= i <= r.x,
        0 <= j <= r.y,
        0 <= k <= r.z,
    ensures
        0 <= i * (r.y + 1) <= i * (r.y + 1) + j <= (i * (r.y + 1) + j) * (r.z + 1),
        0 <= (i * (r.y + 1) + j) * (r.z + 1) <= r.sample_index(i, j, k),
        0 <= r.sample_index(i, j, k) < r.lattice_len(),
        r.y + 1 <= r.lattice_len(),
        r.z + 1 <= r.lattice_len(),
{
    assert(r.y + 1 <= r.lattice_len() && r.z + 1 <= r.lattice_len()) by (nonlinear_arith)
        requires
            r.x >= 0,
            r.y >= 0,
            r.z >= 0,
    ;
    let a = r.x + 1;
    let b = r.y + 1;
    let c = r.z + 1;
    assert(0 <= i * b <= i * b + j <= a * b - 1) by (nonlinear_arith)
        requires
            0 <= i <= a - 1,
            0 <= j <= b - 1,
            b >= 1,
    ;
    assert(i * b + j <= (i * b + j) * c <= (i * b + j) * c + k <= a * b * c - 1) by (nonlinear_arith)
        requires
            0 <= i * b + j <= a * b - 1,
            0 <= k <= c - 1,
            c >= 1,
    ;
}

/// Every corner offset is 0 or 1 along each axis.
proof fn lemma_corner_offsets()
    ensures
        forall|q: int, a: int| 0 <= q < 8 && 0 <= a < 3 ==> 0 <= #[trigger] CORNER_OFFSETS[q][a] <= 1,
{
    assert forall|q: int, a: int| 0 <= q < 8 && 0 <= a < 3 implies 0 <= #[trigger] CORNER_OFFSETS[q][a] <= 1 by {
        if q == 0 {
        } else if q == 1 {
        } else if q == 2 {
        } else if q == 3 {
        } else if q == 4 {
        } else if q == 5 {
        } else if q == 6 {
        } else if q == 7 {
        }
    }
}

/// Corner `q` of the cube at `(i, j, k)`, read from `values`.
fn corner_sample_of(values: &Vec<i64>, r: Resolution, i: usize, j: usize, k: usize, q: usize) -> (p: Point)
    requires
        q < 8,
        i < r.x,
        j < r.y,
        k < r.z,
        r.lattice_len() <= usize::MAX,
        values@.len() == r.lattice_len(),
        r.x + 1 < COORD_LIMIT,
        r.y + 1 < COORD_LIMIT,
        r.z + 1 < COORD_LIMIT,
    ensures
        p == corner_sample(values@, r, i as int, j as int, k as int, q as int),
        p.pos.fits(),
{
    proof {
        lemma_corner_offsets();
    }
    assert(0 <= CORNER_OFFSETS[q as int][0] <= 1);
    assert(0 <= CORNER_OFFSETS[q as int][1] <= 1);
    assert(0 <= CORNER_OFFSETS[q as int][2] <= 1);
    let x = i + CORNER_OFFSETS[q][0] as usize;
    let y = j + CORNER_OFFSETS[q][1] as usize;
    let z = k + CORNER_OFFSETS[q][2] as usize;
    proof {
        lemma_sample_index_bound(r, x as int, y as int, z as int);
    }
    let s = (x * (r.y + 1) + y) * (r.z + 1) + z;
    Point { pos: Point3 { x: x as i64, y: y as i64, z: z as i64 }, value: values[s] }
}


/// Cube `n` of the lattice in traversal order.
fn grid_cube_of(values: &Vec<i64>, r: Resolution, n: usize) -> (c: Cube)
    requires
        r.valid(),
        n < r.cube_count(),
        r.lattice_len() <= usize::MAX,
        values@.len() == r.lattice_len(),
    ensures
        c == grid_cube(values@, r, n as int),
        c.fits(),
{
    proof {
        lemma_lattice_small(r);
        lemma_cube_in_lattice(r, n as int);
    }
    let i = n / (r.y * r.z);
    let j = (n / r.z) % r.y;
    let k = n % r.z;
    let c = Cube(
        [
            corner_sample_of(values, r, i, j, k, 0),
            corner_sample_of(values, r, i, j, k, 1),
            corner_sample_of(values, r, i, j, k, 2),
            corner_sample_of(values, r, i, j, k, 3),
            corner_sample_of(values, r, i, j, k, 4),
            corner_sample_of(values, r, i, j, k, 5),
            corner_sample_of(values, r, i, j, k, 6),
            corner_sample_of(values, r, i, j, k, 7),
        ],
    );
    assert(c.fits()) by {
        assert forall|q: int| 0 <= q < 8 implies (#[trigger] c.0[q]).pos.fits() by {
            if q == 0 {} else if q == 1 {} else if q == 2 {} else if q == 3 {} else if q == 4 {} else if q == 5 {} else if q == 6 {} else if q == 7 {}
        }
    }
    assert(c == grid_cube(values@, r, n as int));
    c
}

/// Number of lattice points of `r`, or `None` where it exceeds `usize`.
fn lattice_len_of(r: Resolution) -> (o: Option<usize>)
    ensures
        o matches Some(l) ==> l == r.lattice_len(),
        o is None ==> r.lattice_len() > usize::MAX,
{
    proof {
        assert(r.lattice_len() >= r.x + 1 && r.lattice_len() >= r.y + 1 && r.lattice_len() >= r.z + 1
            && r.lattice_len() >= (r.x + 1) * (r.y + 1)) by (nonlinear_arith)
            requires
                r.x >= 0,
                r.y >= 0,
                r.z >= 0,
        ;
    }
    let a = r.x.checked_add(1)?;
    let b = r.y.checked_add(1)?;
    let c = r.z.checked_add(1)?;
    let ab = a.checked_mul(b)?;
    ab.checked_mul(c)
}

/// The surface of a lattice of samples: every cube in traversal order (first
/// axis slowest, third fastest), processed, its triangles appended.
/// `values` holds the sample of lattice point `(i, j, k)` at
/// `resolution.sample_index(i, j, k)`.
pub fn extract_samples(values: &Vec<i64>, bounds: Bounds, resolution: Resolution) -> (r: Result<
    Vec<Triangle>,
    ExtractError,
>)
    ensures
        !resolution.valid() ==> r == Err::<Vec<Triangle>, ExtractError>(ExtractError::InvalidResolution),
        resolution.valid() && !bounds.valid() ==> r == Err::<Vec<Triangle>, ExtractError>(
            ExtractError::InvalidBounds,
        ),
        resolution.valid() && bounds.valid() && values@.len() != resolution.lattice_len() ==> r
            == Err::<Vec<Triangle>, ExtractError>(ExtractError::SampleCountMismatch),
        resolution.valid() && bounds.valid() && values@.len() == resolution.lattice_len() ==> (r matches Ok(t)
            && t@ == grid_triangles(values@, resolution, resolution.cube_count())),
{
    if resolution.x == 0 || resolution.y == 0 || resolution.z == 0 {
        return Err(ExtractError::InvalidResolution);
    }
    if !(bounds.min.x < bounds.max.x && bounds.min.y < bounds.max.y && bounds.min.z < bounds.max.z) {
        return Err(ExtractError::InvalidBounds);
    }
    let n_values = values.len();
    match lattice_len_of(resolution) {
        Some(len) => {
            if n_values != len {
                return Err(ExtractError::SampleCountMismatch);
            }
        },
        None => {
            return Err(ExtractError::SampleCountMismatch);
        },
    }
    proof {
        lemma_lattice_small(resolution);
    }
    let count = resolution.x * resolution.y * resolution.z;
    let mut out: Vec<Triangle> = Vec::new();
    let mut n: usize = 0;
    while n < count
        invariant
            n <= count,
            count == resolution.cube_count(),
            resolution.valid(),
            resolution.lattice_len() <= usize::MAX,
            values@.len() == resolution.lattice_len(),
            out@ == grid_triangles(values@, resolution, n as int),
        decreases count - n,
    {
        let cube = grid_cube_of(values, resolution, n);
        let mut tris = cube.process();
        out.append(&mut tris);
        n = n + 1;
    }
    Ok(out)
}

/// `values` holds, for every lattice point of `r` in sample order, a value
/// that `field` may return there.
pub open spec fn sampled_from<F: Fn(Point3) -> i64>(field: &F, r: Resolution, values: Seq<i64>) -> bool {
    &&& values.len() == r.lattice_len()
    &&& forall|s: int| 0 <= s < values.len() ==> field.ensures((r.lattice_point(s),), #[trigger] values[s])
}

/// The surface of `field` over the lattice of `resolution`: `field` is called
/// once at each lattice point `(i, j, k)`, in sample order, and the samples are
/// extracted as by `extract_samples`.
pub fn extract<F: Fn(Point3) -> i64>(field: &F, bounds: Bounds, resolution: Resolution) -> (r: Result<
    Vec<Triangle>,
    ExtractError,
>)
    requires
        forall|p: Point3| field.requires((p,)),
        resolution.lattice_len() <= usize::MAX,
    ensures
        !resolution.valid() ==> r == Err::<Vec<Triangle>, ExtractError>(ExtractError::InvalidResolution),
        resolution.valid() && !bounds.valid() ==> r == Err::<Vec<Triangle>, ExtractError>(
            ExtractError::InvalidBounds,
        ),
        resolution.valid() && bounds.valid() ==> exists|values: Seq<i64>|
            #[trigger] sampled_from(field, resolution, values) && (r matches Ok(t) && t@ == grid_triangles(
                values,
                resolution,
                resolution.cube_count(),
            )),
{
    if resolution.x == 0 || resolution.y == 0 || resolution.z == 0 {
        return Err(ExtractError::InvalidResolution);
    }
    if !(bounds.min.x < bounds.max.x && bounds.min.y < bounds.max.y && bounds.min.z < bounds.max.z) {
        return Err(ExtractError::InvalidBounds);
    }
    proof {
        lemma_lattice_small(resolution);
    }
    let yz = (resolution.y + 1) * (resolution.z + 1);
    let len = (resolution.x + 1) * (resolution.y + 1) * (resolution.z + 1);
    let mut values: Vec<i64> = Vec::new();
    let mut s: usize = 0;
    while s < len
        invariant
            s <= len,
            len == resolution.lattice_len(),
            yz == (resolution.y + 1) * (resolution.z + 1),
            resolution.valid(),
            resolution.lattice_len() <= usize::MAX,
            resolution.x + 1 < COORD_LIMIT,
            resolution.y + 1 < COORD_LIMIT,
            resolution.z + 1 < COORD_LIMIT,
            resolution.y + 1 <= resolution.lattice_len(),
            resolution.z + 1 <= resolution.lattice_len(),
            len == (resolution.x + 1) * yz,
            forall|p: Point3| field.requires((p,)),
            values@.len() == s,
            forall|t: int| 0 <= t < s ==> field.ensures((resolution.lattice_point(t),), #[trigger] values@[t]),
        decreases len - s,
    {
        proof {
            assert(s < yz * (resolution.x + 1)) by (nonlinear_arith)
                requires
                    s < len,
                    len == (resolution.x + 1) * yz,
            ;
            lemma_multiply_divide_lt(s as int, yz as int, resolution.x + 1);
            assert(0 <= s as int / yz as int) by (nonlinear_arith)
                requires
                    0 < yz,
            ;
            lemma_mod_bound(s as int / (resolution.z + 1) as int, (resolution.y + 1) as int);
            lemma_mod_bound(s as int, (resolution.z + 1) as int);
            assert(0 <= s as int / (resolution.z + 1) as int) by (nonlinear_arith)
                requires
                    0 < resolution.z + 1,
            ;
        }
        let p = Point3 {
            x: (s / yz) as i64,
            y: ((s / (resolution.z + 1)) % (resolution.y + 1)) as i64,
            z: (s % (resolution.z + 1)) as i64,
        };
        assert(p == resolution.lattice_point(s as int));
        let v = field(p);
        values.push(v);
        s = s + 1;
    }
    let r = extract_samples(&values, bounds, resolution);
    assert(sampled_from(field, resolution, values@));
    r
}

} // verus!
