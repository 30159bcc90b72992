//! Row-by-row facts about configurations 0 to 63 of the
//! triangulation table.
use vstd::prelude::*;

use crate::table::{row_sound, table_row};

verus! {

#[verifier::rlimit(50)]
pub proof fn lemma_rows_block_0(c: int)
    requires
        0 <= c < 16,
    ensures
        row_sound(c),
{
    reveal(table_row);
    if c == 0 {
        assert(row_sound(0));
    } else if c == 1 {
        assert(row_sound(1));
    } else if c == 2 {
        assert(row_sound(2));
    } else if c == 3 {
        assert(row_sound(3));
    } else if c == 4 {
        assert(row_sound(4));
    } else if c == 5 {
        assert(row_sound(5));
    } else if c == 6 {
        assert(row_sound(6));
    } else if c == 7 {
        assert(row_sound(7));
    } else if c == 8 {
        assert(row_sound(8));
    } else if c == 9 {
        assert(row_sound(9));
    } else if c == 10 {
        assert(row_sound(10));
    } else if c == 11 {
        assert(row_sound(11));
    } else if c == 12 {
        assert(row_sound(12));
    } else if c == 13 {
        assert(row_sound(13));
    } else if c == 14 {
        assert(row_sound(14));
    } else if c == 15 {
        assert(row_sound(15));
    }
}

#[verifier::rlimit(50)]
pub proof fn lemma_rows_block_1(c: int)
    requires
        16 <= c < 32,
    ensures
        row_sound(c),
{
    reveal(table_row);
    if c == 16 {
        assert(row_sound(16));
    } else if c == 17 {
        assert(row_sound(17));
    } else if c == 18 {
        assert(row_sound(18));
    } else if c == 19 {
        assert(row_sound(19));
    } else if c == 20 {
        assert(row_sound(20));
    } else if c == 21 {
        assert(row_sound(21));
    } else if c == 22 {
        assert(row_sound(22));
    } else if c == 23 {
        assert(row_sound(23));
    } else if c == 24 {
        assert(row_sound(24));
    } else if c == 25 {
        assert(row_sound(25));
    } else if c == 26 {
        assert(row_sound(26));
    } else if c == 27 {
        assert(row_sound(27));
    } else if c == 28 {
        assert(row_sound(28));
    } else if c == 29 {
        assert(row_sound(29));
    } else if c == 30 {
        assert(row_sound(30));
    } else if c == 31 {
        assert(row_sound(31));
    }
}

#[verifier::rlimit(50)]
pub proof fn lemma_rows_block_2(c: int)
    requires
        32 <= c < 48,
    ensures
        row_sound(c),
{
    reveal(table_row);
    if c == 32 {
        assert(row_sound(32));
    } else if c == 33 {
        assert(row_sound(33));
    } else if c == 34 {
        assert(row_sound(34));
    } else if c == 35 {
        assert(row_sound(35));
    } else if c == 36 {
        assert(row_sound(36));
    } else if c == 37 {
        assert(row_sound(37));
    } else if c == 38 {
        assert(row_sound(38));
    } else if c == 39 {
        assert(row_sound(39));
    } else if c == 40 {
        assert(row_sound(40));
    } else if c == 41 {
        assert(row_sound(41));
    } else if c == 42 {
        assert(row_sound(42));
    } else if c == 43 {
        assert(row_sound(43));
    } else if c == 44 {
        assert(row_sound(44));
    } else if c == 45 {
        assert(row_sound(45));
    } else if c == 46 {
        assert(row_sound(46));
    } else if c == 47 {
        assert(row_sound(47));
    }
}

#[verifier::rlimit(50)]
pub proof fn lemma_rows_block_3(c: int)
    requires
        48 <= c < 64,
    ensures
        row_sound(c),
{
    reveal(table_row);
    if c == 48 {
        assert(row_sound(48));
    } else if c == 49 {
        assert(row_sound(49));
    } else if c == 50 {
        assert(row_sound(50));
    } else if c == 51 {
        assert(row_sound(51));
    } else if c == 52 {
        assert(row_sound(52));
    } else if c == 53 {
        assert(row_sound(53));
    } else if c == 54 {
        assert(row_sound(54));
    } else if c == 55 {
        assert(row_sound(55));
    } else if c == 56 {
        assert(row_sound(56));
    } else if c == 57 {
        assert(row_sound(57));
    } else if c == 58 {
        assert(row_sound(58));
    } else if c == 59 {
        assert(row_sound(59));
    } else if c == 60 {
        assert(row_sound(60));
    } else if c == 61 {
        assert(row_sound(61));
    } else if c == 62 {
        assert(row_sound(62));
    } else if c == 63 {
        assert(row_sound(63));
    }
}

} // verus!
