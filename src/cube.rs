//! One cube of samples and the triangles that approximate the surface in it.
use vstd::prelude::*;

use crate::table::{
    corner_a, corner_b, lemma_row_layout, table_slot, triangle_count, triangulation,
    CORNER_INDEX_A_FROM_EDGE, CORNER_INDEX_B_FROM_EDGE, SENTINEL, corner_weight, corner_below,
    edge_crossed, lemma_row_edges_crossed,
};

verus! {

/// Bound on the magnitude of a coordinate that a cube may hold, so that the sum of
/// two coordinates fits in an `i64`.
pub const COORD_LIMIT: i64 = 0x4000_0000_0000_0000;

/// A point of 3D space with integer coordinates.
#[derive(Clone, Copy, Debug, PartialEq, Eq)]
pub struct Point3 {
    pub x: i64,
    pub y: i64,
    pub z: i64,
}

/// A sample of the scalar field: a position and the field's value there.
#[derive(Clone, Copy, Debug, PartialEq, Eq)]
pub struct Point {
    pub pos: Point3,
    pub value: i64,
}

/// Eight samples at the corners of a cube, in the corner order of
/// `CORNER_OFFSETS`.
#[derive(Clone, Copy, Debug, PartialEq, Eq)]
pub struct Cube(pub [Point; 8]);

/// A triangle of the extracted surface. Each vertex holds twice its
/// coordinates (the sum of the two corners of the edge that it halves), so
/// that every midpoint is exact.
#[derive(Clone, Copy, Debug, PartialEq, Eq)]
pub struct Triangle(pub [Point3; 3]);

impl Point3 {
    /// Both coordinates of any two such points can be added without overflow.
    pub open spec fn fits(self) -> bool {
        &&& -COORD_LIMIT <= self.x < COORD_LIMIT
        &&& -COORD_LIMIT <= self.y < COORD_LIMIT
        &&& -COORD_LIMIT <= self.z < COORD_LIMIT
    }

    /// The coordinate-wise sum of two points.
    pub open spec fn sum(self, o: Point3) -> Point3 {
        Point3 { x: (self.x + o.x) as i64, y: (self.y + o.y) as i64, z: (self.z + o.z) as i64 }
    }
}

impl Point {
    /// A sample with value `value` at position `pos`.
    pub fn new(pos: Point3, value: i64) -> (r: Point)
        ensures
            r == (Point { pos, value }),
    {
        Point { pos, value }
    }
}

/// Weight that corner `i` adds to a configuration index when its value is
/// below the surface (strictly negative).
pub open spec fn corner_term(c: Cube, i: int) -> int {
    if c.0[i].value < 0 {
        corner_weight(i)
    } else {
        0
    }
}

impl Cube {
    /// A cube from its eight corner samples.
    pub fn new(vals: [Point; 8]) -> (r: Cube)
        ensures
            r.0 == vals,
    {
        Cube(vals)
    }

    /// Every corner position is small enough for exact midpoints.
    pub open spec fn fits(self) -> bool {
        forall|i: int| 0 <= i < 8 ==> (#[trigger] self.0[i]).pos.fits()
    }

    /// The configuration index: bit `i` is set exactly when corner `i` has a
    /// negative value. Zero counts as not below.
    pub open spec fn config(self) -> int {
        corner_term(self, 0) + corner_term(self, 1) + corner_term(self, 2) + corner_term(self, 3)
            + corner_term(self, 4) + corner_term(self, 5) + corner_term(self, 6) + corner_term(self, 7)
    }

    /// The vertex placed on edge `e`: the midpoint of its corners, doubled.
    pub open spec fn edge_vertex(self, e: int) -> Point3 {
        self.0[CORNER_INDEX_A_FROM_EDGE[e] as int].pos.sum(self.0[CORNER_INDEX_B_FROM_EDGE[e] as int].pos)
    }

    /// Triangle `t` of the row of this cube's configuration.
    pub open spec fn triangle(self, t: int) -> Triangle {
        let c = self.config();
        Triangle([
            self.edge_vertex(table_slot(c, 3 * t)),
            self.edge_vertex(table_slot(c, 3 * t + 1)),
            self.edge_vertex(table_slot(c, 3 * t + 2)),
        ])
    }

    /// The first `n` triangles of this cube, in table order.
    pub open spec fn triangles_upto(self, n: int) -> Seq<Triangle> {
        Seq::new(n as nat, |t: int| self.triangle(t))
    }

    /// All triangles of this cube, in table order.
    pub open spec fn triangles(self) -> Seq<Triangle> {
        self.triangles_upto(triangle_count(self.config()))
    }

    /// The configuration index of this cube.
    pub fn config_index(&self) -> (r: u8)
        ensures
            r as int == self.config(),
    {
        let mut config: u8 = 0;
        if self.0[0].value < 0 {
            config = config + 1;
        }
        if self.0[1].value < 0 {
            config = config + 2;
        }
        if self.0[2].value < 0 {
            config = config + 4;
        }
        if self.0[3].value < 0 {
            config = config + 8;
        }
        if self.0[4].value < 0 {
            config = config + 16;
        }
        if self.0[5].value < 0 {
            config = config + 32;
        }
        if self.0[6].value < 0 {
            config = config + 64;
        }
        if self.0[7].value < 0 {
            config = config + 128;
        }
        config
    }

    fn edge_vertex_of(&self, edge: usize) -> (r: Point3)
        requires
            edge < 12,
            self.fits(),
        ensures
            r == self.edge_vertex(edge as int),
    {
        let ia = corner_a(edge);
        let ib = corner_b(edge);
        let p = self.0[ia].pos;
        let q = self.0[ib].pos;
        assert(self.0[ia as int].pos.fits());
        assert(self.0[ib as int].pos.fits());
        Point3 { x: p.x + q.x, y: p.y + q.y, z: p.z + q.z }
    }

    /// The triangles that approximate the surface inside this cube: one per
    /// entry of its configuration's row, in table order, each vertex at the
    /// midpoint of the edge that the entry names.
    pub fn process(&self) -> (r: Vec<Triangle>)
        requires
            self.fits(),
        ensures
            r@ == self.triangles(),
            r@.len() <= 5,
    {
        let config = self.config_index();
        let row = triangulation(config);
        let ghost c = config as int;
        proof {
            lemma_row_layout(c);
        }
        let mut triangles: Vec<Triangle> = Vec::new();
        let mut x: usize = 0;
        while x < 15 && row[x] != SENTINEL
            invariant
                x % 3 == 0,
                x <= 15,
                c == self.config(),
                0 <= c < 256,
                x <= 3 * triangle_count(c),
                forall|s: int| 0 <= s < 16 ==> #[trigger] row[s] as int == table_slot(c, s),
                0 <= triangle_count(c) <= 5,
                forall|s: int| 0 <= s < 3 * triangle_count(c) ==> 0 <= #[trigger] table_slot(c, s) < 12,
                forall|s: int| 3 * triangle_count(c) <= s < 16 ==> #[trigger] table_slot(c, s) == -1,
                self.fits(),
                triangles@ == self.triangles_upto(x as int / 3),
            decreases 15 - x,
        {
            assert(table_slot(c, x as int) != -1);
            assert(table_slot(c, x as int + 2) >= 0);
            let a = self.edge_vertex_of(row[x] as usize);
            let b = self.edge_vertex_of(row[x + 1] as usize);
            let d = self.edge_vertex_of(row[x + 2] as usize);
            triangles.push(Triangle([a, b, d]));
            x = x + 3;
            assert(triangles@ =~= self.triangles_upto(x as int / 3));
        }
        proof {
            if x < 15 {
                assert(table_slot(c, x as int) == -1);
            }
            assert(x as int / 3 == triangle_count(c));
        }
        triangles
    }
}

/// Processing depends on the cube alone: equal cubes give the same
/// triangles, so processing one cube twice gives identical output.
pub proof fn lemma_process_deterministic(a: Cube, b: Cube)
    requires
        a == b,
    ensures
        a.config() == b.config(),
        a.triangles() == b.triangles(),
{
}

/// Exchanging the values of corners 0 and 1 while each keeps its position
/// changes the configuration index when the two values lie on different sides
/// of the surface.
pub proof fn lemma_swapped_values_change_config(a: Cube, b: Cube)
    requires
        (a.0[0].value < 0) != (a.0[1].value < 0),
        b.0[0] == (Point { pos: a.0[0].pos, value: a.0[1].value }),
        b.0[1] == (Point { pos: a.0[1].pos, value: a.0[0].value }),
        forall|i: int| 2 <= i < 8 ==> #[trigger] b.0[i] == a.0[i],
    ensures
        b.config() != a.config(),
        b.config() - a.config() == if a.0[0].value < 0 { 1int } else { -1int },
{
    assert(b.0[2] == a.0[2] && b.0[3] == a.0[3] && b.0[4] == a.0[4] && b.0[5] == a.0[5]);
    assert(b.0[6] == a.0[6] && b.0[7] == a.0[7]);
}

/// Bit `i` of a cube's configuration index is set exactly when corner `i`
/// has a negative value.
pub proof fn lemma_config_bits(c: Cube, i: int)
    requires
        0 <= i < 8,
    ensures
        0 <= c.config() < 256,
        corner_below(c.config(), i) == (c.0[i].value < 0),
{
    if i == 0 {
    } else if i == 1 {
    } else if i == 2 {
    } else if i == 3 {
    } else if i == 4 {
    } else if i == 5 {
    } else if i == 6 {
    } else if i == 7 {
    }
}

/// Every vertex of every triangle of a cube lies on an edge whose two corners
/// have values on different sides of the surface.
pub proof fn lemma_vertices_on_crossed_edges(c: Cube, t: int, v: int)
    requires
        0 <= t < c.triangles().len(),
        0 <= v < 3,
    ensures
        exists|e: int|
            0 <= e < 12 && (c.0[CORNER_INDEX_A_FROM_EDGE[e] as int].value < 0) != (
            c.0[CORNER_INDEX_B_FROM_EDGE[e] as int].value < 0) && c.triangles()[t].0[v]
                == #[trigger] c.edge_vertex(e),
{
    let cfg = c.config();
    lemma_config_bits(c, 0);
    lemma_row_layout(cfg);
    lemma_row_edges_crossed(cfg);
    let e = table_slot(cfg, 3 * t + v);
    assert(0 <= e < 12);
    assert(edge_crossed(cfg, e));
    lemma_config_bits(c, CORNER_INDEX_A_FROM_EDGE[e] as int);
    lemma_config_bits(c, CORNER_INDEX_B_FROM_EDGE[e] as int);
    assert(c.triangles()[t] == c.triangle(t));
    if v == 0 {
    } else if v == 1 {
    } else {
    }
    assert(c.triangles()[t].0[v] == c.edge_vertex(e));
}

} // verus!
