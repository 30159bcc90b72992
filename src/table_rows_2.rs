//! Row-by-row facts about configurations 128 to 191 of the
//! triangulation table.
use vstd::prelude::*;

use crate::table::{row_sound, table_row};

verus! {

#[verifier::rlimit(50)]
pub proof fn lemma_rows_block_8(c: int)
    requires
        128 <= c < 144,
    ensures
        row_sound(c),
{
    reveal(table_row);
    if c == 128 {
        assert(row_sound(128));
    } else if c == 129 {
        assert(row_sound(129));
    } else if c == 130 {
        assert(row_sound(130));
    } else if c == 131 {
        assert(row_sound(131));
    } else if c == 132 {
        assert(row_sound(132));
    } else if c == 133 {
        assert(row_sound(133));
    } else if c == 134 {
        assert(row_sound(134));
    } else if c == 135 {
        assert(row_sound(135));
    } else if c == 136 {
        assert(row_sound(136));
    } else if c == 137 {
        assert(row_sound(137));
    } else if c == 138 {
        assert(row_sound(138));
    } else if c == 139 {
        assert(row_sound(139));
    } else if c == 140 {
        assert(row_sound(140));
    } else if c == 141 {
        assert(row_sound(141));
    } else if c == 142 {
        assert(row_sound(142));
    } else if c == 143 {
        assert(row_sound(143));
    }
}

#[verifier::rlimit(50)]
pub proof fn lemma_rows_block_9(c: int)
    requires
        144 <= c < 160,
    ensures
        row_sound(c),
{
    reveal(table_row);
    if c == 144 {
        assert(row_sound(144));
    } else if c == 145 {
        assert(row_sound(145));
    } else if c == 146 {
        assert(row_sound(146));
    } else if c == 147 {
        assert(row_sound(147));
    } else if c == 148 {
        assert(row_sound(148));
    } else if c == 149 {
        assert(row_sound(149));
    } else if c == 150 {
        assert(row_sound(150));
    } else if c == 151 {
        assert(row_sound(151));
    } else if c == 152 {
        assert(row_sound(152));
    } else if c == 153 {
        assert(row_sound(153));
    } else if c == 154 {
        assert(row_sound(154));
    } else if c == 155 {
        assert(row_sound(155));
    } else if c == 156 {
        assert(row_sound(156));
    } else if c == 157 {
        assert(row_sound(157));
    } else if c == 158 {
        assert(row_sound(158));
    } else if c == 159 {
        assert(row_sound(159));
    }
}

#[verifier::rlimit(50)]
pub proof fn lemma_rows_block_10(c: int)
    requires
        160 <= c < 176,
    ensures
        row_sound(c),
{
    reveal(table_row);
    if c == 160 {
        assert(row_sound(160));
    } else if c == 161 {
        assert(row_sound(161));
    } else if c == 162 {
        assert(row_sound(162));
    } else if c == 163 {
        assert(row_sound(163));
    } else if c == 164 {
        assert(row_sound(164));
    } else if c == 165 {
        assert(row_sound(165));
    } else if c == 166 {
        assert(row_sound(166));
    } else if c == 167 {
        assert(row_sound(167));
    } else if c == 168 {
        assert(row_sound(168));
    } else if c == 169 {
        assert(row_sound(169));
    } else if c == 170 {
        assert(row_sound(170));
    } else if c == 171 {
        assert(row_sound(171));
    } else if c == 172 {
        assert(row_sound(172));
    } else if c == 173 {
        assert(row_sound(173));
    } else if c == 174 {
        assert(row_sound(174));
    } else if c == 175 {
        assert(row_sound(175));
    }
}

#[verifier::rlimit(50)]
pub proof fn lemma_rows_block_11(c: int)
    requires
        176 <= c < 192,
    ensures
        row_sound(c),
{
    reveal(table_row);
    if c == 176 {
        assert(row_sound(176));
    } else if c == 177 {
        assert(row_sound(177));
    } else if c == 178 {
        assert(row_sound(178));
    } else if c == 179 {
        assert(row_sound(179));
    } else if c == 180 {
        assert(row_sound(180));
    } else if c == 181 {
        assert(row_sound(181));
    } else if c == 182 {
        assert(row_sound(182));
    } else if c == 183 {
        assert(row_sound(183));
    } else if c == 184 {
        assert(row_sound(184));
    } else if c == 185 {
        assert(row_sound(185));
    } else if c == 186 {
        assert(row_sound(186));
    } else if c == 187 {
        assert(row_sound(187));
    } else if c == 188 {
        assert(row_sound(188));
    } else if c == 189 {
        assert(row_sound(189));
    } else if c == 190 {
        assert(row_sound(190));
    } else if c == 191 {
        assert(row_sound(191));
    }
}

} // verus!
