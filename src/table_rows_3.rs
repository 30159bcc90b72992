//! Row-by-row facts about configurations 192 to 255 of the
//! triangulation table.
use vstd::prelude::*;

use crate::table::{row_sound, table_row};

verus! {

#[verifier::rlimit(50)]
pub proof fn lemma_rows_block_12(c: int)
    requires
        192 <= c < 208,
    ensures
        row_sound(c),
{
    reveal(table_row);
    if c == 192 {
        assert(row_sound(192));
    } else if c == 193 {
        assert(row_sound(193));
    } else if c == 194 {
        assert(row_sound(194));
    } else if c == 195 {
        assert(row_sound(195));
    } else if c == 196 {
        assert(row_sound(196));
    } else if c == 197 {
        assert(row_sound(197));
    } else if c == 198 {
        assert(row_sound(198));
    } else if c == 199 {
        assert(row_sound(199));
    } else if c == 200 {
        assert(row_sound(200));
    } else if c == 201 {
        assert(row_sound(201));
    } else if c == 202 {
        assert(row_sound(202));
    } else if c == 203 {
        assert(row_sound(203));
    } else if c == 204 {
        assert(row_sound(204));
    } else if c == 205 {
        assert(row_sound(205));
    } else if c == 206 {
        assert(row_sound(206));
    } else if c == 207 {
        assert(row_sound(207));
    }
}

#[verifier::rlimit(50)]
pub proof fn lemma_rows_block_13(c: int)
    requires
        208 <= c < 224,
    ensures
        row_sound(c),
{
    reveal(table_row);
    if c == 208 {
        assert(row_sound(208));
    } else if c == 209 {
        assert(row_sound(209));
    } else if c == 210 {
        assert(row_sound(210));
    } else if c == 211 {
        assert(row_sound(211));
    } else if c == 212 {
        assert(row_sound(212));
    } else if c == 213 {
        assert(row_sound(213));
    } else if c == 214 {
        assert(row_sound(214));
    } else if c == 215 {
        assert(row_sound(215));
    } else if c == 216 {
        assert(row_sound(216));
    } else if c == 217 {
        assert(row_sound(217));
    } else if c == 218 {
        assert(row_sound(218));
    } else if c == 219 {
        assert(row_sound(219));
    } else if c == 220 {
        assert(row_sound(220));
    } else if c == 221 {
        assert(row_sound(221));
    } else if c == 222 {
        assert(row_sound(222));
    } else if c == 223 {
        assert(row_sound(223));
    }
}

#[verifier::rlimit(50)]
pub proof fn lemma_rows_block_14(c: int)
    requires
        224 <= c < 240,
    ensures
        row_sound(c),
{
    reveal(table_row);
    if c == 224 {
        assert(row_sound(224));
    } else if c == 225 {
        assert(row_sound(225));
    } else if c == 226 {
        assert(row_sound(226));
    } else if c == 227 {
        assert(row_sound(227));
    } else if c == 228 {
        assert(row_sound(228));
    } else if c == 229 {
        assert(row_sound(229));
    } else if c == 230 {
        assert(row_sound(230));
    } else if c == 231 {
        assert(row_sound(231));
    } else if c == 232 {
        assert(row_sound(232));
    } else if c == 233 {
        assert(row_sound(233));
    } else if c == 234 {
        assert(row_sound(234));
    } else if c == 235 {
        assert(row_sound(235));
    } else if c == 236 {
        assert(row_sound(236));
    } else if c == 237 {
        assert(row_sound(237));
    } else if c == 238 {
        assert(row_sound(238));
    } else if c == 239 {
        assert(row_sound(239));
    }
}

#[verifier::rlimit(50)]
pub proof fn lemma_rows_block_15(c: int)
    requires
        240 <= c < 256,
    ensures
        row_sound(c),
{
    reveal(table_row);
    if c == 240 {
        assert(row_sound(240));
    } else if c == 241 {
        assert(row_sound(241));
    } else if c == 242 {
        assert(row_sound(242));
    } else if c == 243 {
        assert(row_sound(243));
    } else if c == 244 {
        assert(row_sound(244));
    } else if c == 245 {
        assert(row_sound(245));
    } else if c == 246 {
        assert(row_sound(246));
    } else if c == 247 {
        assert(row_sound(247));
    } else if c == 248 {
        assert(row_sound(248));
    } else if c == 249 {
        assert(row_sound(249));
    } else if c == 250 {
        assert(row_sound(250));
    } else if c == 251 {
        assert(row_sound(251));
    } else if c == 252 {
        assert(row_sound(252));
    } else if c == 253 {
        assert(row_sound(253));
    } else if c == 254 {
        assert(row_sound(254));
    } else if c == 255 {
        assert(row_sound(255));
    }
}

} // verus!
