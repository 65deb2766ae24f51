//! Indices of the sprites on the tile sheet.
//!
//! Wall-like terrain owns four consecutive indices starting at its base:
//! the piece joined to the left, the piece joined to the right, the piece
//! joined on both sides and the free-standing piece.  A door owns eight:
//! the wall pieces and then the same four shapes of its frame.

use vstd::prelude::*;

verus! {

pub const CUBE: usize = 0;

pub const CURSOR_BOTTOM: usize = 1;

pub const CURSOR_TOP: usize = 2;

pub const BLOCK_NW: usize = 3;

pub const BLOCK_N: usize = 4;

pub const BLOCK_NE: usize = 5;

pub const BLOCK_DARK: usize = 6;

pub const CHASM: usize = 7;

pub const SHALLOWS: usize = 8;

pub const PORTAL: usize = 9;

pub const BLANK_FLOOR: usize = 10;

pub const FLOOR: usize = 11;

pub const GRASS: usize = 12;

pub const WATER: usize = 13;

pub const MAGMA: usize = 14;

pub const DOWNSTAIRS: usize = 15;

pub const ROCKWALL: usize = 16;

pub const WALL: usize = 20;

pub const FENCE: usize = 24;

pub const BARS: usize = 28;

pub const WINDOW: usize = 32;

pub const DOOR: usize = 36;

pub const XYWALL: usize = 44;

pub const TREE_TRUNK: usize = 48;

pub const TREE_FOLIAGE: usize = 49;

pub const TABLE: usize = 50;

pub const AVATAR: usize = 51;

pub const BLOCK: usize = 52;

pub const FOUNTAIN: usize = 53;

pub const ALTAR: usize = 54;

pub const BARREL: usize = 55;

pub const STALAGMITE: usize = 56;

pub const GRAVE: usize = 58;

pub const MENHIR: usize = 60;

pub const STONE: usize = 61;

pub const TALLGRASS: usize = 62;

pub const DREG: usize = 72;

pub const GRID_BUG: usize = 76;

pub const SERPENT: usize = 94;

pub const SERPENT_MOUND: usize = 95;

/// Where the sprites of a kind of wall start on the sheet: the door has
/// two sets, its wall and its frame.
pub open spec fn wall_bases() -> Seq<usize> {
    seq![ROCKWALL, WALL, FENCE, BARS, WINDOW, DOOR, (DOOR + 4) as usize]
}

/// The sprites that are no wall pieces, in the order of the sheet.
pub open spec fn single_sprites() -> Seq<usize> {
    seq![
        CUBE,
        CURSOR_BOTTOM,
        CURSOR_TOP,
        BLOCK_NW,
        BLOCK_N,
        BLOCK_NE,
        BLOCK_DARK,
        CHASM,
        SHALLOWS,
        PORTAL,
        BLANK_FLOOR,
        FLOOR,
        GRASS,
        WATER,
        MAGMA,
        DOWNSTAIRS,
        XYWALL,
        TREE_TRUNK,
        TREE_FOLIAGE,
        TABLE,
        AVATAR,
        BLOCK,
        FOUNTAIN,
        ALTAR,
        BARREL,
        STALAGMITE,
        GRAVE,
        MENHIR,
        STONE,
        TALLGRASS,
        DREG,
        GRID_BUG,
        SERPENT,
        SERPENT_MOUND,
    ]
}

/// Whether `sprite` is one of the four pieces of the wall whose sprites
/// start at `base`.
pub open spec fn is_piece_of(base: usize, sprite: usize) -> bool {
    base <= sprite < base + 4
}

/// No two names stand for one sprite: the single sprites are listed in
/// rising order, the sets of wall pieces too, and no single sprite is in
/// a set of wall pieces.
pub proof fn lemma_sprites_are_distinct()
    ensures
        forall|i: int, j: int|
            0 <= i < j < single_sprites().len() ==> single_sprites()[i] < single_sprites()[j],
        forall|i: int, j: int|
            0 <= i < j < wall_bases().len() ==> wall_bases()[i] + 4 <= wall_bases()[j],
        forall|i: int, j: int|
            0 <= i < wall_bases().len() && 0 <= j < single_sprites().len() ==> !is_piece_of(
                wall_bases()[i],
                single_sprites()[j],
            ),
{
}

} // verus!
