//! Isosurface extraction by marching cubes.
use vstd::prelude::*;

pub mod table;
pub mod cube;
pub mod grid;
mod table_rows_0;
mod table_rows_1;
mod table_rows_2;
mod table_rows_3;
