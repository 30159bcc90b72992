//! Row-by-row facts about configurations 64 to 127 of the
//! triangulation table.
use vstd::prelude::*;

use crate::table::{row_sound, table_row};

verus! {

#[verifier::rlimit(50)]
pub proof fn lemma_rows_block_4(c: int)
    requires
        64 <= c < 80,
    ensures
        row_sound(c),
{
    reveal(table_row);
    if c == 64 {
        assert(row_sound(64));
    } else if c == 65 {
        assert(row_sound(65));
    } else if c == 66 {
        assert(row_sound(66));
    } else if c == 67 {
        assert(row_sound(67));
    } else if c == 68 {
        assert(row_sound(68));
    } else if c == 69 {
        assert(row_sound(69));
    } else if c == 70 {
        assert(row_sound(70));
    } else if c == 71 {
        assert(row_sound(71));
    } else if c == 72 {
        assert(row_sound(72));
    } else if c == 73 {
        assert(row_sound(73));
    } else if c == 74 {
        assert(row_sound(74));
    } else if c == 75 {
        assert(row_sound(75));
    } else if c == 76 {
        assert(row_sound(76));
    } else if c == 77 {
        assert(row_sound(77));
    } else if c == 78 {
        assert(row_sound(78));
    } else if c == 79 {
        assert(row_sound(79));
    }
}

#[verifier::rlimit(50)]
pub proof fn lemma_rows_block_5(c: int)
    requires
        80 <= c < 96,
    ensures
        row_sound(c),
{
    reveal(table_row);
    if c == 80 {
        assert(row_sound(80));
    } else if c == 81 {
        assert(row_sound(81));
    } else if c == 82 {
        assert(row_sound(82));
    } else if c == 83 {
        assert(row_sound(83));
    } else if c == 84 {
        assert(row_sound(84));
    } else if c == 85 {
        assert(row_sound(85));
    } else if c == 86 {
        assert(row_sound(86));
    } else if c == 87 {
        assert(row_sound(87));
    } else if c == 88 {
        assert(row_sound(88));
    } else if c == 89 {
        assert(row_sound(89));
    } else if c == 90 {
        assert(row_sound(90));
    } else if c == 91 {
        assert(row_sound(91));
    } else if c == 92 {
        assert(row_sound(92));
    } else if c == 93 {
        assert(row_sound(93));
    } else if c == 94 {
        assert(row_sound(94));
    } else if c == 95 {
        assert(row_sound(95));
    }
}

#[verifier::rlimit(50)]
pub proof fn lemma_rows_block_6(c: int)
    requires
        96 <= c < 112,
    ensures
        row_sound(c),
{
    reveal(table_row);
    if c == 96 {
        assert(row_sound(96));
    } else if c == 97 {
        assert(row_sound(97));
    } else if c == 98 {
        assert(row_sound(98));
    } else if c == 99 {
        assert(row_sound(99));
    } else if c == 100 {
        assert(row_sound(100));
    } else if c == 101 {
        assert(row_sound(101));
    } else if c == 102 {
        assert(row_sound(102));
    } else if c == 103 {
        assert(row_sound(103));
    } else if c == 104 {
        assert(row_sound(104));
    } else if c == 105 {
        assert(row_sound(105));
    } else if c == 106 {
        assert(row_sound(106));
    } else if c == 107 {
        assert(row_sound(107));
    } else if c == 108 {
        assert(row_sound(108));
    } else if c == 109 {
        assert(row_sound(109));
    } else if c == 110 {
        assert(row_sound(110));
    } else if c == 111 {
        assert(row_sound(111));
    }
}

#[verifier::rlimit(50)]
pub proof fn lemma_rows_block_7(c: int)
    requires
        112 <= c < 128,
    ensures
        row_sound(c),
{
    reveal(table_row);
    if c == 112 {
        assert(row_sound(112));
    } else if c == 113 {
        assert(row_sound(113));
    } else if c == 114 {
        assert(row_sound(114));
    } else if c == 115 {
        assert(row_sound(115));
    } else if c == 116 {
        assert(row_sound(116));
    } else if c == 117 {
        assert(row_sound(117));
    } else if c == 118 {
        assert(row_sound(118));
    } else if c == 119 {
        assert(row_sound(119));
    } else if c == 120 {
        assert(row_sound(120));
    } else if c == 121 {
        assert(row_sound(121));
    } else if c == 122 {
        assert(row_sound(122));
    } else if c == 123 {
        assert(row_sound(123));
    } else if c == 124 {
        assert(row_sound(124));
    } else if c == 125 {
        assert(row_sound(125));
    } else if c == 126 {
        assert(row_sound(126));
    } else if c == 127 {
        assert(row_sound(127));
    }
}

} // verus!
