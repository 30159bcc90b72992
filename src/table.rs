//! The marching-cubes case table: for each of the 256 corner-sign
//! configurations of a cube, the triangles (as edge indices) that approximate
//! the surface inside it, and the two corners joined by each of the 12 edges.
use vstd::prelude::*;

verus! {

/// Marks the end of a row's triangles in the triangulation table.
pub const SENTINEL: i8 = -1;

/// Corner at which each edge starts.
pub const CORNER_INDEX_A_FROM_EDGE: [usize; 12] = [0, 1, 2, 3, 4, 5, 6, 7, 0, 1, 2, 3];

/// Corner at which each edge ends.
pub const CORNER_INDEX_B_FROM_EDGE: [usize; 12] = [1, 2, 3, 0, 5, 6, 7, 4, 4, 5, 6, 7];

/// Offset of each corner from the cube's origin, as (x, y, z): the bottom face
/// (y = 0) counter-clockwise from the origin, then the top face (y = 1) in the
/// same rotational order.
pub const CORNER_OFFSETS: [[i64; 3]; 8] = [
    [0, 0, 0],
    [1, 0, 0],
    [1, 0, 1],
    [0, 0, 1],
    [0, 1, 0],
    [1, 1, 0],
    [1, 1, 1],
    [0, 1, 1],
];

/// Rows 0 to 15 of the triangulation table.
pub const TRIANGULATION_ROWS_0: [[i8; 16]; 16] = [
    [-1, -1, -1, -1, -1, -1, -1, -1, -1, -1, -1, -1, -1, -1, -1, -1],
    [0, 8, 3, -1, -1, -1, -1, -1, -1, -1, -1, -1, -1, -1, -1, -1],
    [0, 1, 9, -1, -1, -1, -1, -1, -1, -1, -1, -1, -1, -1, -1, -1],
    [1, 8, 3, 9, 8, 1, -1, -1, -1, -1, -1, -1, -1, -1, -1, -1],
    [1, 2, 10, -1, -1, -1, -1, -1, -1, -1, -1, -1, -1, -1, -1, -1],
    [0, 8, 3, 1, 2, 10, -1, -1, -1, -1, -1, -1, -1, -1, -1, -1],
    [9, 2, 10, 0, 2, 9, -1, -1, -1, -1, -1, -1, -1, -1, -1, -1],
    [2, 8, 3, 2, 10, 8, 10, 9, 8, -1, -1, -1, -1, -1, -1, -1],
    [3, 11, 2, -1, -1, -1, -1, -1, -1, -1, -1, -1, -1, -1, -1, -1],
    [0, 11, 2, 8, 11, 0, -1, -1, -1, -1, -1, -1, -1, -1, -1, -1],
    [1, 9, 0, 2, 3, 11, -1, -1, -1, -1, -1, -1, -1, -1, -1, -1],
    [1, 11, 2, 1, 9, 11, 9, 8, 11, -1, -1, -1, -1, -1, -1, -1],
    [3, 10, 1, 11, 10, 3, -1, -1, -1, -1, -1, -1, -1, -1, -1, -1],
    [0, 10, 1, 0, 8, 10, 8, 11, 10, -1, -1, -1, -1, -1, -1, -1],
    [3, 9, 0, 3, 11, 9, 11, 10, 9, -1, -1, -1, -1, -1, -1, -1],
    [9, 8, 10, 10, 8, 11, -1, -1, -1, -1, -1, -1, -1, -1, -1, -1],
];

/// Rows 16 to 31 of the triangulation table.
pub const TRIANGULATION_ROWS_1: [[i8; 16]; 16] = [
    [4, 7, 8, -1, -1, -1, -1, -1, -1, -1, -1, -1, -1, -1, -1, -1],
    [4, 3, 0, 7, 3, 4, -1, -1, -1, -1, -1, -1, -1, -1, -1, -1],
    [0, 1, 9, 8, 4, 7, -1, -1, -1, -1, -1, -1, -1, -1, -1, -1],
    [4, 1, 9, 4, 7, 1, 7, 3, 1, -1, -1, -1, -1, -1, -1, -1],
    [1, 2, 10, 8, 4, 7, -1, -1, -1, -1, -1, -1, -1, -1, -1, -1],
    [3, 4, 7, 3, 0, 4, 1, 2, 10, -1, -1, -1, -1, -1, -1, -1],
    [9, 2, 10, 9, 0, 2, 8, 4, 7, -1, -1, -1, -1, -1, -1, -1],
    [2, 10, 9, 2, 9, 7, 2, 7, 3, 7, 9, 4, -1, -1, -1, -1],
    [8, 4, 7, 3, 11, 2, -1, -1, -1, -1, -1, -1, -1, -1, -1, -1],
    [11, 4, 7, 11, 2, 4, 2, 0, 4, -1, -1, -1, -1, -1, -1, -1],
    [9, 0, 1, 8, 4, 7, 2, 3, 11, -1, -1, -1, -1, -1, -1, -1],
    [4, 7, 11, 9, 4, 11, 9, 11, 2, 9, 2, 1, -1, -1, -1, -1],
    [3, 10, 1, 3, 11, 10, 7, 8, 4, -1, -1, -1, -1, -1, -1, -1],
    [1, 11, 10, 1, 4, 11, 1, 0, 4, 7, 11, 4, -1, -1, -1, -1],
    [4, 7, 8, 9, 0, 11, 9, 11, 10, 11, 0, 3, -1, -1, -1, -1],
    [4, 7, 11, 4, 11, 9, 9, 11, 10, -1, -1, -1, -1, -1, -1, -1],
];

/// Rows 32 to 47 of the triangulation table.
pub const TRIANGULATION_ROWS_2: [[i8; 16]; 16] = [
    [9, 5, 4, -1, -1, -1, -1, -1, -1, -1, -1, -1, -1, -1, -1, -1],
    [9, 5, 4, 0, 8, 3, -1, -1, -1, -1, -1, -1, -1, -1, -1, -1],
    [0, 5, 4, 1, 5, 0, -1, -1, -1, -1, -1, -1, -1, -1, -1, -1],
    [8, 5, 4, 8, 3, 5, 3, 1, 5, -1, -1, -1, -1, -1, -1, -1],
    [1, 2, 10, 9, 5, 4, -1, -1, -1, -1, -1, -1, -1, -1, -1, -1],
    [3, 0, 8, 1, 2, 10, 4, 9, 5, -1, -1, -1, -1, -1, -1, -1],
    [5, 2, 10, 5, 4, 2, 4, 0, 2, -1, -1, -1, -1, -1, -1, -1],
    [2, 10, 5, 3, 2, 5, 3, 5, 4, 3, 4, 8, -1, -1, -1, -1],
    [9, 5, 4, 2, 3, 11, -1, -1, -1, -1, -1, -1, -1, -1, -1, -1],
    [0, 11, 2, 0, 8, 11, 4, 9, 5, -1, -1, -1, -1, -1, -1, -1],
    [0, 5, 4, 0, 1, 5, 2, 3, 11, -1, -1, -1, -1, -1, -1, -1],
    [2, 1, 5, 2, 5, 8, 2, 8, 11, 4, 8, 5, -1, -1, -1, -1],
    [10, 3, 11, 10, 1, 3, 9, 5, 4, -1, -1, -1, -1, -1, -1, -1],
    [4, 9, 5, 0, 8, 1, 8, 10, 1, 8, 11, 10, -1, -1, -1, -1],
    [5, 4, 0, 5, 0, 11, 5, 11, 10, 11, 0, 3, -1, -1, -1, -1],
    [5, 4, 8, 5, 8, 10, 10, 8, 11, -1, -1, -1, -1, -1, -1, -1],
];

/// Rows 48 to 63 of the triangulation table.
pub const TRIANGULATION_ROWS_3: [[i8; 16]; 16] = [
    [9, 7, 8, 5, 7, 9, -1, -1, -1, -1, -1, -1, -1, -1, -1, -1],
    [9, 3, 0, 9, 5, 3, 5, 7, 3, -1, -1, -1, -1, -1, -1, -1],
    [0, 7, 8, 0, 1, 7, 1, 5, 7, -1, -1, -1, -1, -1, -1, -1],
    [1, 5, 3, 3, 5, 7, -1, -1, -1, -1, -1, -1, -1, -1, -1, -1],
    [9, 7, 8, 9, 5, 7, 10, 1, 2, -1, -1, -1, -1, -1, -1, -1],
    [10, 1, 2, 9, 5, 0, 5, 3, 0, 5, 7, 3, -1, -1, -1, -1],
    [8, 0, 2, 8, 2, 5, 8, 5, 7, 10, 5, 2, -1, -1, -1, -1],
    [2, 10, 5, 2, 5, 3, 3, 5, 7, -1, -1, -1, -1, -1, -1, -1],
    [7, 9, 5, 7, 8, 9, 3, 11, 2, -1, -1, -1, -1, -1, -1, -1],
    [9, 5, 7, 9, 7, 2, 9, 2, 0, 2, 7, 11, -1, -1, -1, -1],
    [2, 3, 11, 0, 1, 8, 1, 7, 8, 1, 5, 7, -1, -1, -1, -1],
    [11, 2, 1, 11, 1, 7, 7, 1, 5, -1, -1, -1, -1, -1, -1, -1],
    [9, 5, 8, 8, 5, 7, 10, 1, 3, 10, 3, 11, -1, -1, -1, -1],
    [5, 7, 0, 5, 0, 9, 7, 11, 0, 1, 0, 10, 11, 10, 0, -1],
    [11, 10, 0, 11, 0, 3, 10, 5, 0, 8, 0, 7, 5, 7, 0, -1],
    [11, 10, 5, 7, 11, 5, -1, -1, -1, -1, -1, -1, -1, -1, -1, -1],
];

/// Rows 64 to 79 of the triangulation table.
pub const TRIANGULATION_ROWS_4: [[i8; 16]; 16] = [
    [10, 6, 5, -1, -1, -1, -1, -1, -1, -1, -1, -1, -1, -1, -1, -1],
    [0, 8, 3, 5, 10, 6, -1, -1, -1, -1, -1, -1, -1, -1, -1, -1],
    [9, 0, 1, 5, 10, 6, -1, -1, -1, -1, -1, -1, -1, -1, -1, -1],
    [1, 8, 3, 1, 9, 8, 5, 10, 6, -1, -1, -1, -1, -1, -1, -1],
    [1, 6, 5, 2, 6, 1, -1, -1, -1, -1, -1, -1, -1, -1, -1, -1],
    [1, 6, 5, 1, 2, 6, 3, 0, 8, -1, -1, -1, -1, -1, -1, -1],
    [9, 6, 5, 9, 0, 6, 0, 2, 6, -1, -1, -1, -1, -1, -1, -1],
    [5, 9, 8, 5, 8, 2, 5, 2, 6, 3, 2, 8, -1, -1, -1, -1],
    [2, 3, 11, 10, 6, 5, -1, -1, -1, -1, -1, -1, -1, -1, -1, -1],
    [11, 0, 8, 11, 2, 0, 10, 6, 5, -1, -1, -1, -1, -1, -1, -1],
    [0, 1, 9, 2, 3, 11, 5, 10, 6, -1, -1, -1, -1, -1, -1, -1],
    [5, 10, 6, 1, 9, 2, 9, 11, 2, 9, 8, 11, -1, -1, -1, -1],
    [6, 3, 11, 6, 5, 3, 5, 1, 3, -1, -1, -1, -1, -1, -1, -1],
    [0, 8, 11, 0, 11, 5, 0, 5, 1, 5, 11, 6, -1, -1, -1, -1],
    [3, 11, 6, 0, 3, 6, 0, 6, 5, 0, 5, 9, -1, -1, -1, -1],
    [6, 5, 9, 6, 9, 11, 11, 9, 8, -1, -1, -1, -1, -1, -1, -1],
];

/// Rows 80 to 95 of the triangulation table.
pub const TRIANGULATION_ROWS_5: [[i8; 16]; 16] = [
    [5, 10, 6, 4, 7, 8, -1, -1, -1, -1, -1, -1, -1, -1, -1, -1],
    [4, 3, 0, 4, 7, 3, 6, 5, 10, -1, -1, -1, -1, -1, -1, -1],
    [1, 9, 0, 5, 10, 6, 8, 4, 7, -1, -1, -1, -1, -1, -1, -1],
    [10, 6, 5, 1, 9, 7, 1, 7, 3, 7, 9, 4, -1, -1, -1, -1],
    [6, 1, 2, 6, 5, 1, 4, 7, 8, -1, -1, -1, -1, -1, -1, -1],
    [1, 2, 5, 5, 2, 6, 3, 0, 4, 3, 4, 7, -1, -1, -1, -1],
    [8, 4, 7, 9, 0, 5, 0, 6, 5, 0, 2, 6, -1, -1, -1, -1],
    [7, 3, 9, 7, 9, 4, 3, 2, 9, 5, 9, 6, 2, 6, 9, -1],
    [3, 11, 2, 7, 8, 4, 10, 6, 5, -1, -1, -1, -1, -1, -1, -1],
    [5, 10, 6, 4, 7, 2, 4, 2, 0, 2, 7, 11, -1, -1, -1, -1],
    [0, 1, 9, 4, 7, 8, 2, 3, 11, 5, 10, 6, -1, -1, -1, -1],
    [9, 2, 1, 9, 11, 2, 9, 4, 11, 7, 11, 4, 5, 10, 6, -1],
    [8, 4, 7, 3, 11, 5, 3, 5, 1, 5, 11, 6, -1, -1, -1, -1],
    [5, 1, 11, 5, 11, 6, 1, 0, 11, 7, 11, 4, 0, 4, 11, -1],
    [0, 5, 9, 0, 6, 5, 0, 3, 6, 11, 6, 3, 8, 4, 7, -1],
    [6, 5, 9, 6, 9, 11, 4, 7, 9, 7, 11, 9, -1, -1, -1, -1],
];

/// Rows 96 to 111 of the triangulation table.
pub const TRIANGULATION_ROWS_6: [[i8; 16]; 16] = [
    [10, 4, 9, 6, 4, 10, -1, -1, -1, -1, -1, -1, -1, -1, -1, -1],
    [4, 10, 6, 4, 9, 10, 0, 8, 3, -1, -1, -1, -1, -1, -1, -1],
    [10, 0, 1, 10, 6, 0, 6, 4, 0, -1, -1, -1, -1, -1, -1, -1],
    [8, 3, 1, 8, 1, 6, 8, 6, 4, 6, 1, 10, -1, -1, -1, -1],
    [1, 4, 9, 1, 2, 4, 2, 6, 4, -1, -1, -1, -1, -1, -1, -1],
    [3, 0, 8, 1, 2, 9, 2, 4, 9, 2, 6, 4, -1, -1, -1, -1],
    [0, 2, 4, 4, 2, 6, -1, -1, -1, -1, -1, -1, -1, -1, -1, -1],
    [8, 3, 2, 8, 2, 4, 4, 2, 6, -1, -1, -1, -1, -1, -1, -1],
    [10, 4, 9, 10, 6, 4, 11, 2, 3, -1, -1, -1, -1, -1, -1, -1],
    [0, 8, 2, 2, 8, 11, 4, 9, 10, 4, 10, 6, -1, -1, -1, -1],
    [3, 11, 2, 0, 1, 6, 0, 6, 4, 6, 1, 10, -1, -1, -1, -1],
    [6, 4, 1, 6, 1, 10, 4, 8, 1, 2, 1, 11, 8, 11, 1, -1],
    [9, 6, 4, 9, 3, 6, 9, 1, 3, 11, 6, 3, -1, -1, -1, -1],
    [8, 11, 1, 8, 1, 0, 11, 6, 1, 9, 1, 4, 6, 4, 1, -1],
    [3, 11, 6, 3, 6, 0, 0, 6, 4, -1, -1, -1, -1, -1, -1, -1],
    [6, 4, 8, 11, 6, 8, -1, -1, -1, -1, -1, -1, -1, -1, -1, -1],
];

/// Rows 112 to 127 of the triangulation table.
pub const TRIANGULATION_ROWS_7: [[i8; 16]; 16] = [
    [7, 10, 6, 7, 8, 10, 8, 9, 10, -1, -1, -1, -1, -1, -1, -1],
    [0, 7, 3, 0, 10, 7, 0, 9, 10, 6, 7, 10, -1, -1, -1, -1],
    [10, 6, 7, 1, 10, 7, 1, 7, 8, 1, 8, 0, -1, -1, -1, -1],
    [10, 6, 7, 10, 7, 1, 1, 7, 3, -1, -1, -1, -1, -1, -1, -1],
    [1, 2, 6, 1, 6, 8, 1, 8, 9, 8, 6, 7, -1, -1, -1, -1],
    [2, 6, 9, 2, 9, 1, 6, 7, 9, 0, 9, 3, 7, 3, 9, -1],
    [7, 8, 0, 7, 0, 6, 6, 0, 2, -1, -1, -1, -1, -1, -1, -1],
    [7, 3, 2, 6, 7, 2, -1, -1, -1, -1, -1, -1, -1, -1, -1, -1],
    [2, 3, 11, 10, 6, 8, 10, 8, 9, 8, 6, 7, -1, -1, -1, -1],
    [2, 0, 7, 2, 7, 11, 0, 9, 7, 6, 7, 10, 9, 10, 7, -1],
    [1, 8, 0, 1, 7, 8, 1, 10, 7, 6, 7, 10, 2, 3, 11, -1],
    [11, 2, 1, 11, 1, 7, 10, 6, 1, 6, 7, 1, -1, -1, -1, -1],
    [8, 9, 6, 8, 6, 7, 9, 1, 6, 11, 6, 3, 1, 3, 6, -1],
    [0, 9, 1, 11, 6, 7, -1, -1, -1, -1, -1, -1, -1, -1, -1, -1],
    [7, 8, 0, 7, 0, 6, 3, 11, 0, 11, 6, 0, -1, -1, -1, -1],
    [7, 11, 6, -1, -1, -1, -1, -1, -1, -1, -1, -1, -1, -1, -1, -1],
];

/// Rows 128 to 143 of the triangulation table.
pub const TRIANGULATION_ROWS_8: [[i8; 16]; 16] = [
    [7, 6, 11, -1, -1, -1, -1, -1, -1, -1, -1, -1, -1, -1, -1, -1],
    [3, 0, 8, 11, 7, 6, -1, -1, -1, -1, -1, -1, -1, -1, -1, -1],
    [0, 1, 9, 11, 7, 6, -1, -1, -1, -1, -1, -1, -1, -1, -1, -1],
    [8, 1, 9, 8, 3, 1, 11, 7, 6, -1, -1, -1, -1, -1, -1, -1],
    [10, 1, 2, 6, 11, 7, -1, -1, -1, -1, -1, -1, -1, -1, -1, -1],
    [1, 2, 10, 3, 0, 8, 6, 11, 7, -1, -1, -1, -1, -1, -1, -1],
    [2, 9, 0, 2, 10, 9, 6, 11, 7, -1, -1, -1, -1, -1, -1, -1],
    [6, 11, 7, 2, 10, 3, 10, 8, 3, 10, 9, 8, -1, -1, -1, -1],
    [7, 2, 3, 6, 2, 7, -1, -1, -1, -1, -1, -1, -1, -1, -1, -1],
    [7, 0, 8, 7, 6, 0, 6, 2, 0, -1, -1, -1, -1, -1, -1, -1],
    [2, 7, 6, 2, 3, 7, 0, 1, 9, -1, -1, -1, -1, -1, -1, -1],
    [1, 6, 2, 1, 8, 6, 1, 9, 8, 8, 7, 6, -1, -1, -1, -1],
    [10, 7, 6, 10, 1, 7, 1, 3, 7, -1, -1, -1, -1, -1, -1, -1],
    [10, 7, 6, 1, 7, 10, 1, 8, 7, 1, 0, 8, -1, -1, -1, -1],
    [0, 3, 7, 0, 7, 10, 0, 10, 9, 6, 10, 7, -1, -1, -1, -1],
    [7, 6, 10, 7, 10, 8, 8, 10, 9, -1, -1, -1, -1, -1, -1, -1],
];

/// Rows 144 to 159 of the triangulation table.
pub const TRIANGULATION_ROWS_9: [[i8; 16]; 16] = [
    [6, 8, 4, 11, 8, 6, -1, -1, -1, -1, -1, -1, -1, -1, -1, -1],
    [3, 6, 11, 3, 0, 6, 0, 4, 6, -1, -1, -1, -1, -1, -1, -1],
    [8, 6, 11, 8, 4, 6, 9, 0, 1, -1, -1, -1, -1, -1, -1, -1],
    [9, 4, 6, 9, 6, 3, 9, 3, 1, 11, 3, 6, -1, -1, -1, -1],
    [6, 8, 4, 6, 11, 8, 2, 10, 1, -1, -1, -1, -1, -1, -1, -1],
    [1, 2, 10, 3, 0, 11, 0, 6, 11, 0, 4, 6, -1, -1, -1, -1],
    [4, 11, 8, 4, 6, 11, 0, 2, 9, 2, 10, 9, -1, -1, -1, -1],
    [10, 9, 3, 10, 3, 2, 9, 4, 3, 11, 3, 6, 4, 6, 3, -1],
    [8, 2, 3, 8, 4, 2, 4, 6, 2, -1, -1, -1, -1, -1, -1, -1],
    [0, 4, 2, 4, 6, 2, -1, -1, -1, -1, -1, -1, -1, -1, -1, -1],
    [1, 9, 0, 2, 3, 4, 2, 4, 6, 4, 3, 8, -1, -1, -1, -1],
    [1, 9, 4, 1, 4, 2, 2, 4, 6, -1, -1, -1, -1, -1, -1, -1],
    [8, 1, 3, 8, 6, 1, 8, 4, 6, 6, 10, 1, -1, -1, -1, -1],
    [10, 1, 0, 10, 0, 6, 6, 0, 4, -1, -1, -1, -1, -1, -1, -1],
    [4, 6, 3, 4, 3, 8, 6, 10, 3, 0, 3, 9, 10, 9, 3, -1],
    [10, 9, 4, 6, 10, 4, -1, -1, -1, -1, -1, -1, -1, -1, -1, -1],
];

/// Rows 160 to 175 of the triangulation table.
pub const TRIANGULATION_ROWS_10: [[i8; 16]; 16] = [
    [4, 9, 5, 7, 6, 11, -1, -1, -1, -1, -1, -1, -1, -1, -1, -1],
    [0, 8, 3, 4, 9, 5, 11, 7, 6, -1, -1, -1, -1, -1, -1, -1],
    [5, 0, 1, 5, 4, 0, 7, 6, 11, -1, -1, -1, -1, -1, -1, -1],
    [11, 7, 6, 8, 3, 4, 3, 5, 4, 3, 1, 5, -1, -1, -1, -1],
    [9, 5, 4, 10, 1, 2, 7, 6, 11, -1, -1, -1, -1, -1, -1, -1],
    [6, 11, 7, 1, 2, 10, 0, 8, 3, 4, 9, 5, -1, -1, -1, -1],
    [7, 6, 11, 5, 4, 10, 4, 2, 10, 4, 0, 2, -1, -1, -1, -1],
    [3, 4, 8, 3, 5, 4, 3, 2, 5, 10, 5, 2, 11, 7, 6, -1],
    [7, 2, 3, 7, 6, 2, 5, 4, 9, -1, -1, -1, -1, -1, -1, -1],
    [9, 5, 4, 0, 8, 6, 0, 6, 2, 6, 8, 7, -1, -1, -1, -1],
    [3, 6, 2, 3, 7, 6, 1, 5, 0, 5, 4, 0, -1, -1, -1, -1],
    [6, 2, 8, 6, 8, 7, 2, 1, 8, 4, 8, 5, 1, 5, 8, -1],
    [9, 5, 4, 10, 1, 6, 1, 7, 6, 1, 3, 7, -1, -1, -1, -1],
    [1, 6, 10, 1, 7, 6, 1, 0, 7, 8, 7, 0, 9, 5, 4, -1],
    [4, 0, 10, 4, 10, 5, 0, 3, 10, 6, 10, 7, 3, 7, 10, -1],
    [7, 6, 10, 7, 10, 8, 5, 4, 10, 4, 8, 10, -1, -1, -1, -1],
];

/// Rows 176 to 191 of the triangulation table.
pub const TRIANGULATION_ROWS_11: [[i8; 16]; 16] = [
    [6, 9, 5, 6, 11, 9, 11, 8, 9, -1, -1, -1, -1, -1, -1, -1],
    [3, 6, 11, 0, 6, 3, 0, 5, 6, 0, 9, 5, -1, -1, -1, -1],
    [0, 11, 8, 0, 5, 11, 0, 1, 5, 5, 6, 11, -1, -1, -1, -1],
    [6, 11, 3, 6, 3, 5, 5, 3, 1, -1, -1, -1, -1, -1, -1, -1],
    [1, 2, 10, 9, 5, 11, 9, 11, 8, 11, 5, 6, -1, -1, -1, -1],
    [0, 11, 3, 0, 6, 11, 0, 9, 6, 5, 6, 9, 1, 2, 10, -1],
    [11, 8, 5, 11, 5, 6, 8, 0, 5, 10, 5, 2, 0, 2, 5, -1],
    [6, 11, 3, 6, 3, 5, 2, 10, 3, 10, 5, 3, -1, -1, -1, -1],
    [5, 8, 9, 5, 2, 8, 5, 6, 2, 3, 8, 2, -1, -1, -1, -1],
    [9, 5, 6, 9, 6, 0, 0, 6, 2, -1, -1, -1, -1, -1, -1, -1],
    [1, 5, 8, 1, 8, 0, 5, 6, 8, 3, 8, 2, 6, 2, 8, -1],
    [1, 5, 6, 2, 1, 6, -1, -1, -1, -1, -1, -1, -1, -1, -1, -1],
    [1, 3, 6, 1, 6, 10, 3, 8, 6, 5, 6, 9, 8, 9, 6, -1],
    [10, 1, 0, 10, 0, 6, 9, 5, 0, 5, 6, 0, -1, -1, -1, -1],
    [0, 3, 8, 5, 6, 10, -1, -1, -1, -1, -1, -1, -1, -1, -1, -1],
    [10, 5, 6, -1, -1, -1, -1, -1, -1, -1, -1, -1, -1, -1, -1, -1],
];

/// Rows 192 to 207 of the triangulation table.
pub const TRIANGULATION_ROWS_12: [[i8; 16]; 16] = [
    [11, 5, 10, 7, 5, 11, -1, -1, -1, -1, -1, -1, -1, -1, -1, -1],
    [11, 5, 10, 11, 7, 5, 8, 3, 0, -1, -1, -1, -1, -1, -1, -1],
    [5, 11, 7, 5, 10, 11, 1, 9, 0, -1, -1, -1, -1, -1, -1, -1],
    [10, 7, 5, 10, 11, 7, 9, 8, 1, 8, 3, 1, -1, -1, -1, -1],
    [11, 1, 2, 11, 7, 1, 7, 5, 1, -1, -1, -1, -1, -1, -1, -1],
    [0, 8, 3, 1, 2, 7, 1, 7, 5, 7, 2, 11, -1, -1, -1, -1],
    [9, 7, 5, 9, 2, 7, 9, 0, 2, 2, 11, 7, -1, -1, -1, -1],
    [7, 5, 2, 7, 2, 11, 5, 9, 2, 3, 2, 8, 9, 8, 2, -1],
    [2, 5, 10, 2, 3, 5, 3, 7, 5, -1, -1, -1, -1, -1, -1, -1],
    [8, 2, 0, 8, 5, 2, 8, 7, 5, 10, 2, 5, -1, -1, -1, -1],
    [9, 0, 1, 5, 10, 3, 5, 3, 7, 3, 10, 2, -1, -1, -1, -1],
    [9, 8, 2, 9, 2, 1, 8, 7, 2, 10, 2, 5, 7, 5, 2, -1],
    [1, 3, 5, 3, 7, 5, -1, -1, -1, -1, -1, -1, -1, -1, -1, -1],
    [0, 8, 7, 0, 7, 1, 1, 7, 5, -1, -1, -1, -1, -1, -1, -1],
    [9, 0, 3, 9, 3, 5, 5, 3, 7, -1, -1, -1, -1, -1, -1, -1],
    [9, 8, 7, 5, 9, 7, -1, -1, -1, -1, -1, -1, -1, -1, -1, -1],
];

/// Rows 208 to 223 of the triangulation table.
pub const TRIANGULATION_ROWS_13: [[i8; 16]; 16] = [
    [5, 8, 4, 5, 10, 8, 10, 11, 8, -1, -1, -1, -1, -1, -1, -1],
    [5, 0, 4, 5, 11, 0, 5, 10, 11, 11, 3, 0, -1, -1, -1, -1],
    [0, 1, 9, 8, 4, 10, 8, 10, 11, 10, 4, 5, -1, -1, -1, -1],
    [10, 11, 4, 10, 4, 5, 11, 3, 4, 9, 4, 1, 3, 1, 4, -1],
    [2, 5, 1, 2, 8, 5, 2, 11, 8, 4, 5, 8, -1, -1, -1, -1],
    [0, 4, 11, 0, 11, 3, 4, 5, 11, 2, 11, 1, 5, 1, 11, -1],
    [0, 2, 5, 0, 5, 9, 2, 11, 5, 4, 5, 8, 11, 8, 5, -1],
    [9, 4, 5, 2, 11, 3, -1, -1, -1, -1, -1, -1, -1, -1, -1, -1],
    [2, 5, 10, 3, 5, 2, 3, 4, 5, 3, 8, 4, -1, -1, -1, -1],
    [5, 10, 2, 5, 2, 4, 4, 2, 0, -1, -1, -1, -1, -1, -1, -1],
    [3, 10, 2, 3, 5, 10, 3, 8, 5, 4, 5, 8, 0, 1, 9, -1],
    [5, 10, 2, 5, 2, 4, 1, 9, 2, 9, 4, 2, -1, -1, -1, -1],
    [8, 4, 5, 8, 5, 3, 3, 5, 1, -1, -1, -1, -1, -1, -1, -1],
    [0, 4, 5, 1, 0, 5, -1, -1, -1, -1, -1, -1, -1, -1, -1, -1],
    [8, 4, 5, 8, 5, 3, 9, 0, 5, 0, 3, 5, -1, -1, -1, -1],
    [9, 4, 5, -1, -1, -1, -1, -1, -1, -1, -1, -1, -1, -1, -1, -1],
];

/// Rows 224 to 239 of the triangulation table.
pub const TRIANGULATION_ROWS_14: [[i8; 16]; 16] = [
    [4, 11, 7, 4, 9, 11, 9, 10, 11, -1, -1, -1, -1, -1, -1, -1],
    [0, 8, 3, 4, 9, 7, 9, 11, 7, 9, 10, 11, -1, -1, -1, -1],
    [1, 10, 11, 1, 11, 4, 1, 4, 0, 7, 4, 11, -1, -1, -1, -1],
    [3, 1, 4, 3, 4, 8, 1, 10, 4, 7, 4, 11, 10, 11, 4, -1],
    [4, 11, 7, 9, 11, 4, 9, 2, 11, 9, 1, 2, -1, -1, -1, -1],
    [9, 7, 4, 9, 11, 7, 9, 1, 11, 2, 11, 1, 0, 8, 3, -1],
    [11, 7, 4, 11, 4, 2, 2, 4, 0, -1, -1, -1, -1, -1, -1, -1],
    [11, 7, 4, 11, 4, 2, 8, 3, 4, 3, 2, 4, -1, -1, -1, -1],
    [2, 9, 10, 2, 7, 9, 2, 3, 7, 7, 4, 9, -1, -1, -1, -1],
    [9, 10, 7, 9, 7, 4, 10, 2, 7, 8, 7, 0, 2, 0, 7, -1],
    [3, 7, 10, 3, 10, 2, 7, 4, 10, 1, 10, 0, 4, 0, 10, -1],
    [1, 10, 2, 8, 7, 4, -1, -1, -1, -1, -1, -1, -1, -1, -1, -1],
    [4, 9, 1, 4, 1, 7, 7, 1, 3, -1, -1, -1, -1, -1, -1, -1],
    [4, 9, 1, 4, 1, 7, 0, 8, 1, 8, 7, 1, -1, -1, -1, -1],
    [4, 0, 3, 7, 4, 3, -1, -1, -1, -1, -1, -1, -1, -1, -1, -1],
    [4, 8, 7, -1, -1, -1, -1, -1, -1, -1, -1, -1, -1, -1, -1, -1],
];

/// Rows 240 to 255 of the triangulation table.
pub const TRIANGULATION_ROWS_15: [[i8; 16]; 16] = [
    [9, 10, 8, 10, 11, 8, -1, -1, -1, -1, -1, -1, -1, -1, -1, -1],
    [3, 0, 9, 3, 9, 11, 11, 9, 10, -1, -1, -1, -1, -1, -1, -1],
    [0, 1, 10, 0, 10, 8, 8, 10, 11, -1, -1, -1, -1, -1, -1, -1],
    [3, 1, 10, 11, 3, 10, -1, -1, -1, -1, -1, -1, -1, -1, -1, -1],
    [1, 2, 11, 1, 11, 9, 9, 11, 8, -1, -1, -1, -1, -1, -1, -1],
    [3, 0, 9, 3, 9, 11, 1, 2, 9, 2, 11, 9, -1, -1, -1, -1],
    [0, 2, 11, 8, 0, 11, -1, -1, -1, -1, -1, -1, -1, -1, -1, -1],
    [3, 2, 11, -1, -1, -1, -1, -1, -1, -1, -1, -1, -1, -1, -1, -1],
    [2, 3, 8, 2, 8, 10, 10, 8, 9, -1, -1, -1, -1, -1, -1, -1],
    [9, 10, 2, 0, 9, 2, -1, -1, -1, -1, -1, -1, -1, -1, -1, -1],
    [2, 3, 8, 2, 8, 10, 0, 1, 8, 1, 10, 8, -1, -1, -1, -1],
    [1, 10, 2, -1, -1, -1, -1, -1, -1, -1, -1, -1, -1, -1, -1, -1],
    [1, 3, 8, 9, 1, 8, -1, -1, -1, -1, -1, -1, -1, -1, -1, -1],
    [0, 9, 1, -1, -1, -1, -1, -1, -1, -1, -1, -1, -1, -1, -1, -1],
    [0, 3, 8, -1, -1, -1, -1, -1, -1, -1, -1, -1, -1, -1, -1, -1],
    [-1, -1, -1, -1, -1, -1, -1, -1, -1, -1, -1, -1, -1, -1, -1, -1],
];

/// Bit weight of corner `i` in a configuration index.
pub open spec fn corner_weight(i: int) -> int {
    if i == 0 {
        1
    } else if i == 1 {
        2
    } else if i == 2 {
        4
    } else if i == 3 {
        8
    } else if i == 4 {
        16
    } else if i == 5 {
        32
    } else if i == 6 {
        64
    } else {
        128
    }
}

/// Whether configuration `c` marks corner `i` as below the surface.
pub open spec fn corner_below(c: int, i: int) -> bool {
    (c / corner_weight(i)) % 2 == 1
}

/// Whether the surface crosses edge `e` under configuration `c`: its two
/// corners lie on different sides.
pub open spec fn edge_crossed(c: int, e: int) -> bool {
    corner_below(c, CORNER_INDEX_A_FROM_EDGE[e] as int) != corner_below(
        c,
        CORNER_INDEX_B_FROM_EDGE[e] as int,
    )
}

/// Row `c` of the triangulation table.
#[verifier::opaque]
pub open spec fn table_row(c: int) -> [i8; 16] {
    let b = c / 16;
    let i = c % 16;
    if b == 0 {
        TRIANGULATION_ROWS_0[i]
    } else if b == 1 {
        TRIANGULATION_ROWS_1[i]
    } else if b == 2 {
        TRIANGULATION_ROWS_2[i]
    } else if b == 3 {
        TRIANGULATION_ROWS_3[i]
    } else if b == 4 {
        TRIANGULATION_ROWS_4[i]
    } else if b == 5 {
        TRIANGULATION_ROWS_5[i]
    } else if b == 6 {
        TRIANGULATION_ROWS_6[i]
    } else if b == 7 {
        TRIANGULATION_ROWS_7[i]
    } else if b == 8 {
        TRIANGULATION_ROWS_8[i]
    } else if b == 9 {
        TRIANGULATION_ROWS_9[i]
    } else if b == 10 {
        TRIANGULATION_ROWS_10[i]
    } else if b == 11 {
        TRIANGULATION_ROWS_11[i]
    } else if b == 12 {
        TRIANGULATION_ROWS_12[i]
    } else if b == 13 {
        TRIANGULATION_ROWS_13[i]
    } else if b == 14 {
        TRIANGULATION_ROWS_14[i]
    } else {
        TRIANGULATION_ROWS_15[i]
    }
}

/// Entry `s` of row `c` of the table.
pub open spec fn table_slot(c: int, s: int) -> int {
    table_row(c)[s] as int
}

/// Number of triangles that row `c` lists.
pub open spec fn triangle_count(c: int) -> int {
    if table_slot(c, 0) == -1 {
        0
    } else if table_slot(c, 3) == -1 {
        1
    } else if table_slot(c, 6) == -1 {
        2
    } else if table_slot(c, 9) == -1 {
        3
    } else if table_slot(c, 12) == -1 {
        4
    } else {
        5
    }
}

/// Slot `s` of row `c` holds the sentinel or an edge that `c` crosses, and
/// after a sentinel only sentinels follow.
pub open spec fn slot_sound(c: int, s: int) -> bool {
    &&& table_slot(c, s) == -1 || (0 <= table_slot(c, s) < 12 && edge_crossed(c, table_slot(c, s)))
    &&& table_slot(c, s) == -1 ==> table_slot(c, s + 1) == -1
}

/// Triangle slot group `k` of row `c` is either wholly used or wholly empty,
/// and it is used exactly when `k` is below the row's triangle count.
pub open spec fn group_sound(c: int, k: int) -> bool {
    &&& table_slot(c, 3 * k) != -1 ==> table_slot(c, 3 * k + 2) != -1
    &&& (k < triangle_count(c)) == (table_slot(c, 3 * k) != -1)
}

/// Everything that row `c` promises, slot by slot.
pub open spec fn row_sound(c: int) -> bool {
    &&& slot_sound(c, 0) &&& slot_sound(c, 1) &&& slot_sound(c, 2) &&& slot_sound(c, 3)
    &&& slot_sound(c, 4) &&& slot_sound(c, 5) &&& slot_sound(c, 6) &&& slot_sound(c, 7)
    &&& slot_sound(c, 8) &&& slot_sound(c, 9) &&& slot_sound(c, 10) &&& slot_sound(c, 11)
    &&& slot_sound(c, 12) &&& slot_sound(c, 13) &&& slot_sound(c, 14)
    &&& table_slot(c, 15) == -1
    &&& group_sound(c, 0) &&& group_sound(c, 1) &&& group_sound(c, 2)
    &&& group_sound(c, 3) &&& group_sound(c, 4)
}

/// The triangulation row of configuration `config`: the edge indices of its
/// triangles, three per triangle, then the sentinel in each unused slot.
pub fn triangulation(config: u8) -> (r: [i8; 16])
    ensures
        r == table_row(config as int),
{
    reveal(table_row);
    let b: u8 = config / 16;
    let i: usize = (config % 16) as usize;
    if b == 0 {
        TRIANGULATION_ROWS_0[i]
    } else if b == 1 {
        TRIANGULATION_ROWS_1[i]
    } else if b == 2 {
        TRIANGULATION_ROWS_2[i]
    } else if b == 3 {
        TRIANGULATION_ROWS_3[i]
    } else if b == 4 {
        TRIANGULATION_ROWS_4[i]
    } else if b == 5 {
        TRIANGULATION_ROWS_5[i]
    } else if b == 6 {
        TRIANGULATION_ROWS_6[i]
    } else if b == 7 {
        TRIANGULATION_ROWS_7[i]
    } else if b == 8 {
        TRIANGULATION_ROWS_8[i]
    } else if b == 9 {
        TRIANGULATION_ROWS_9[i]
    } else if b == 10 {
        TRIANGULATION_ROWS_10[i]
    } else if b == 11 {
        TRIANGULATION_ROWS_11[i]
    } else if b == 12 {
        TRIANGULATION_ROWS_12[i]
    } else if b == 13 {
        TRIANGULATION_ROWS_13[i]
    } else if b == 14 {
        TRIANGULATION_ROWS_14[i]
    } else {
        TRIANGULATION_ROWS_15[i]
    }
}

/// The corner at which edge `edge` starts.
pub fn corner_a(edge: usize) -> (r: usize)
    requires
        edge < 12,
    ensures
        r == CORNER_INDEX_A_FROM_EDGE[edge as int],
        r < 8,
{
    CORNER_INDEX_A_FROM_EDGE[edge]
}

/// The corner at which edge `edge` ends.
pub fn corner_b(edge: usize) -> (r: usize)
    requires
        edge < 12,
    ensures
        r == CORNER_INDEX_B_FROM_EDGE[edge as int],
        r < 8,
{
    CORNER_INDEX_B_FROM_EDGE[edge]
}

/// Each row of the table, checked slot by slot.
pub proof fn lemma_row_sound(c: int)
    requires
        0 <= c < 256,
    ensures
        row_sound(c),
{
    if c < 16 {
        crate::table_rows_0::lemma_rows_block_0(c);
    } else if c < 32 {
        crate::table_rows_0::lemma_rows_block_1(c);
    } else if c < 48 {
        crate::table_rows_0::lemma_rows_block_2(c);
    } else if c < 64 {
        crate::table_rows_0::lemma_rows_block_3(c);
    } else if c < 80 {
        crate::table_rows_1::lemma_rows_block_4(c);
    } else if c < 96 {
        crate::table_rows_1::lemma_rows_block_5(c);
    } else if c < 112 {
        crate::table_rows_1::lemma_rows_block_6(c);
    } else if c < 128 {
        crate::table_rows_1::lemma_rows_block_7(c);
    } else if c < 144 {
        crate::table_rows_2::lemma_rows_block_8(c);
    } else if c < 160 {
        crate::table_rows_2::lemma_rows_block_9(c);
    } else if c < 176 {
        crate::table_rows_2::lemma_rows_block_10(c);
    } else if c < 192 {
        crate::table_rows_2::lemma_rows_block_11(c);
    } else if c < 208 {
        crate::table_rows_3::lemma_rows_block_12(c);
    } else if c < 224 {
        crate::table_rows_3::lemma_rows_block_13(c);
    } else if c < 240 {
        crate::table_rows_3::lemma_rows_block_14(c);
    } else {
        crate::table_rows_3::lemma_rows_block_15(c);
    }
}

/// Every row lists between zero and five triangles, three edge indices
/// (each below 12) per triangle, and the sentinel in every slot after the
/// last triangle.
pub proof fn lemma_row_layout(c: int)
    requires
        0 <= c < 256,
    ensures
        0 <= triangle_count(c) <= 5,
        forall|s: int| 0 <= s < 3 * triangle_count(c) ==> 0 <= #[trigger] table_slot(c, s) < 12,
        forall|s: int| 3 * triangle_count(c) <= s < 16 ==> #[trigger] table_slot(c, s) == -1,
{
    lemma_row_sound(c);
    assert forall|s: int| 0 <= s < 3 * triangle_count(c) implies 0 <= #[trigger] table_slot(c, s) < 12 by {
        if s == 0 {
        } else if s == 1 {
        } else if s == 2 {
        } else if s == 3 {
        } else if s == 4 {
        } else if s == 5 {
        } else if s == 6 {
        } else if s == 7 {
        } else if s == 8 {
        } else if s == 9 {
        } else if s == 10 {
        } else if s == 11 {
        } else if s == 12 {
        } else if s == 13 {
        } else if s == 14 {
        } else if s == 15 {
        }
    }
    assert forall|s: int| 3 * triangle_count(c) <= s < 16 implies #[trigger] table_slot(c, s) == -1 by {
        if s == 0 {
        } else if s == 1 {
        } else if s == 2 {
        } else if s == 3 {
        } else if s == 4 {
        } else if s == 5 {
        } else if s == 6 {
        } else if s == 7 {
        } else if s == 8 {
        } else if s == 9 {
        } else if s == 10 {
        } else if s == 11 {
        } else if s == 12 {
        } else if s == 13 {
        } else if s == 14 {
        } else if s == 15 {
        }
    }
}

/// Every edge that a row names is crossed by the surface under that row's
/// configuration: its two corners have different sign bits.
pub proof fn lemma_row_edges_crossed(c: int)
    requires
        0 <= c < 256,
    ensures
        forall|s: int|
            0 <= s < 16 && #[trigger] table_slot(c, s) != -1 ==> 0 <= table_slot(c, s) < 12
                && edge_crossed(c, table_slot(c, s)),
{
    lemma_row_sound(c);
    assert forall|s: int| 0 <= s < 16 && #[trigger] table_slot(c, s) != -1 implies 0 <= table_slot(c, s) < 12
        && edge_crossed(c, table_slot(c, s)) by {
        if s == 0 {
        } else if s == 1 {
        } else if s == 2 {
        } else if s == 3 {
        } else if s == 4 {
        } else if s == 5 {
        } else if s == 6 {
        } else if s == 7 {
        } else if s == 8 {
        } else if s == 9 {
        } else if s == 10 {
        } else if s == 11 {
        } else if s == 12 {
        } else if s == 13 {
        } else if s == 14 {
        } else if s == 15 {
        }
    }
}

/// A cube whose corners all lie on one side of the surface gets no triangles.
pub proof fn lemma_uniform_rows_empty()
    ensures
        triangle_count(0) == 0,
        triangle_count(255) == 0,
        forall|s: int| 0 <= s < 16 ==> #[trigger] table_slot(0, s) == -1 && table_slot(255, s) == -1,
{
    reveal(table_row);
    lemma_row_layout(0);
    lemma_row_layout(255);
}

} // verus!
