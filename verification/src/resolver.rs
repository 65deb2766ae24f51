//! The terrain rules: which sprites, on which layers and in which colors,
//! depict a cell of each terrain kind in its neighbourhood.

use vstd::prelude::*;
use crate::color::{
    opaque, rgb, Rgba, BLACK, CORNFLOWERBLUE, DARKGOLDENROD, DARKGREEN, DARKRED, DARKSLATEGRAY,
    GAINSBORO, GOLD, GREEN, LIGHTSLATEGRAY, ROYALBLUE, SADDLEBROWN, SLATEGRAY, YELLOW,
};
use crate::draw::{lemma_shown_all_add, shown_all, DrawContext, DrawOp, Layer, ScreenPos};
use crate::kernel::Kernel;
use crate::terrain::TerrainKind;
use crate::tile::{
    ALTAR, BARREL, BARS, BLANK_FLOOR, BLOCK, CHASM, DOOR, DOWNSTAIRS, FENCE, FLOOR, FOUNTAIN,
    GRASS, GRAVE, MAGMA, MENHIR, PORTAL, ROCKWALL, SHALLOWS, STALAGMITE, STONE, TABLE, TALLGRASS,
    TREE_FOLIAGE, TREE_TRUNK, WALL, WATER, WINDOW,
};
use crate::wallform::{
    block_op, blockform, blockform_ops, kernel_flags, lemma_blockform_back_lines,
    lemma_pieces_count, wallform, wallform_ops,
};

verus! {

/// A floor-layer operation without a back color.
pub open spec fn floor_op(sprite: usize, pos: ScreenPos, color: Rgba) -> DrawOp {
    DrawOp { sprite, pos, layer: Layer::Floor, color, back_color: None }
}

/// The plain floor that shows under furniture and between wall pieces.
pub open spec fn plain_floor(pos: ScreenPos) -> DrawOp {
    floor_op(FLOOR, pos, SLATEGRAY)
}

/// The color of a portal whose glow has brightness `glow`: between deep
/// blue and white, brighter as the glow grows.
pub open spec fn portal_tint(glow: u8) -> Rgba {
    opaque(glow, glow, 255)
}

/// Computes the color of a portal from the brightness of its glow.
pub fn portal_color(glow: u8) -> (c: Rgba)
    ensures
        c == portal_tint(glow),
{
    rgb(glow, glow, 255)
}

/// The floor under a fence: grass where there is grass behind the fence,
/// plain floor elsewhere.
pub open spec fn fence_floor(k: Kernel<TerrainKind>, pos: ScreenPos) -> DrawOp {
    if k.n is Grass || k.ne is Grass || k.nw is Grass {
        floor_op(GRASS, pos, DARKGREEN)
    } else {
        plain_floor(pos)
    }
}

/// The operations that depict the center cell of `k` at `pos`, in drawing
/// order, before the view mode recolors them.  `glow` is the brightness
/// of portals at the moment of drawing.
pub open spec fn terrain_ops(k: Kernel<TerrainKind>, pos: ScreenPos, glow: u8) -> Seq<DrawOp> {
    match k.center {
        TerrainKind::Void => seq![floor_op(BLANK_FLOOR, pos, BLACK)],
        TerrainKind::Water => seq![floor_op(WATER, pos, ROYALBLUE)],
        TerrainKind::Shallows => seq![floor_op(SHALLOWS, pos, CORNFLOWERBLUE)],
        TerrainKind::Magma => seq![
            DrawOp {
                sprite: MAGMA,
                pos,
                layer: Layer::Floor,
                color: DARKRED,
                back_color: Some(YELLOW),
            },
        ],
        TerrainKind::Tree => seq![
            plain_floor(pos),
            block_op(TREE_TRUNK, pos, SADDLEBROWN),
            block_op(TREE_FOLIAGE, pos, GREEN),
        ],
        TerrainKind::Floor => seq![plain_floor(pos)],
        TerrainKind::Chasm => seq![floor_op(CHASM, pos, DARKSLATEGRAY)],
        TerrainKind::Grass => seq![floor_op(FLOOR, pos, DARKGREEN)],
        TerrainKind::Grass2 => seq![floor_op(GRASS, pos, DARKGREEN)],
        TerrainKind::Downstairs => seq![plain_floor(pos), block_op(DOWNSTAIRS, pos, SLATEGRAY)],
        TerrainKind::Portal => seq![block_op(PORTAL, pos, portal_tint(glow))],
        TerrainKind::Rock => blockform_ops(k, pos, BLOCK, DARKGOLDENROD),
        TerrainKind::Wall => seq![plain_floor(pos)] + wallform_ops(
            k,
            pos,
            WALL,
            LIGHTSLATEGRAY,
            true,
        ),
        TerrainKind::RockWall => seq![plain_floor(pos)] + wallform_ops(
            k,
            pos,
            ROCKWALL,
            LIGHTSLATEGRAY,
            true,
        ),
        TerrainKind::Fence => seq![fence_floor(k, pos)] + wallform_ops(
            k,
            pos,
            FENCE,
            DARKGOLDENROD,
            false,
        ),
        TerrainKind::Bars => seq![plain_floor(pos)] + wallform_ops(k, pos, BARS, GAINSBORO, false),
        TerrainKind::Stalagmite => seq![
            plain_floor(pos),
            block_op(STALAGMITE, pos, DARKGOLDENROD),
        ],
        TerrainKind::Window => seq![plain_floor(pos)] + wallform_ops(
            k,
            pos,
            WINDOW,
            LIGHTSLATEGRAY,
            false,
        ),
        TerrainKind::Door => seq![plain_floor(pos)] + wallform_ops(
            k,
            pos,
            DOOR,
            LIGHTSLATEGRAY,
            true,
        ) + wallform_ops(k, pos, (DOOR + 4) as usize, SADDLEBROWN, false),
        TerrainKind::OpenDoor => seq![plain_floor(pos)] + wallform_ops(
            k,
            pos,
            DOOR,
            LIGHTSLATEGRAY,
            true,
        ),
        TerrainKind::Table => seq![plain_floor(pos), block_op(TABLE, pos, DARKGOLDENROD)],
        TerrainKind::Fountain => seq![plain_floor(pos), block_op(FOUNTAIN, pos, GAINSBORO)],
        TerrainKind::Altar => seq![plain_floor(pos), block_op(ALTAR, pos, GAINSBORO)],
        TerrainKind::Barrel => seq![plain_floor(pos), block_op(BARREL, pos, DARKGOLDENROD)],
        TerrainKind::Grave => seq![plain_floor(pos), block_op(GRAVE, pos, SLATEGRAY)],
        TerrainKind::Stone => seq![plain_floor(pos), block_op(STONE, pos, SLATEGRAY)],
        TerrainKind::Menhir => seq![plain_floor(pos), block_op(MENHIR, pos, SLATEGRAY)],
        TerrainKind::DeadTree => seq![plain_floor(pos), block_op(TREE_TRUNK, pos, SADDLEBROWN)],
        TerrainKind::TallGrass => seq![block_op(TALLGRASS, pos, GOLD)],
    }
}

/// Every terrain kind is drawn: whatever the neighbourhood, the center
/// cell gets at least one operation, and at most five.
pub proof fn lemma_resolution_total(k: Kernel<TerrainKind>, pos: ScreenPos, glow: u8)
    ensures
        1 <= terrain_ops(k, pos, glow).len() <= 5,
{
    let flags = kernel_flags(k);
    lemma_pieces_count(
        flags.0,
        flags.1,
        flags.2,
        true,
        k.n.is_wall(),
        k.nw.is_wall(),
        k.ne.is_wall(),
        k.s.is_wall(),
    );
    lemma_pieces_count(
        flags.0,
        flags.1,
        flags.2,
        false,
        k.n.is_wall(),
        k.nw.is_wall(),
        k.ne.is_wall(),
        k.s.is_wall(),
    );
}

/// Whether all of `ops` are drawn at `pos` on the block layer.
pub open spec fn all_blocks_at(ops: Seq<DrawOp>, pos: ScreenPos) -> bool {
    forall|i: int| 0 <= i < ops.len() ==> (#[trigger] ops[i]).pos == pos && ops[i].layer == Layer::Block
}

/// Whether all of `ops` are drawn at `pos`, the first of them on the
/// floor or the block layer and the others on the block layer.
pub open spec fn floor_first_at(ops: Seq<DrawOp>, pos: ScreenPos) -> bool {
    &&& ops.len() > 0
    &&& ops[0].pos == pos
    &&& ops[0].layer == Layer::Floor || ops[0].layer == Layer::Block
    &&& all_blocks_at(ops.skip(1), pos)
}

/// Everything that depicts a cell is drawn at the place of the cell, and
/// what lies on the floor is drawn before what stands on it.
pub proof fn lemma_floor_comes_first(k: Kernel<TerrainKind>, pos: ScreenPos, glow: u8)
    ensures
        floor_first_at(terrain_ops(k, pos, glow), pos),
{
    let ops = terrain_ops(k, pos, glow);
    lemma_resolution_total(k, pos, glow);
    match k.center {
        TerrainKind::Rock => {
            lemma_blockform_back_lines(k, pos, BLOCK, DARKGOLDENROD);
            assert forall|i: int| 0 <= i < ops.skip(1).len() implies (#[trigger] ops.skip(1)[i]).pos
                == pos && ops.skip(1)[i].layer == Layer::Block by {
                let line = ops.skip(1)[i];
                assert(ops.skip(1).contains(line));
            }
        },
        TerrainKind::Wall
        | TerrainKind::RockWall
        | TerrainKind::Fence
        | TerrainKind::Bars
        | TerrainKind::Window
        | TerrainKind::Door
        | TerrainKind::OpenDoor => {
            assert(ops[0].layer == Layer::Floor);
            assert(all_blocks_at(ops.skip(1), pos));
        },
        _ => {
            assert(all_blocks_at(ops.skip(1), pos));
        },
    }
}

/// Draws one sprite on the floor.
fn draw_ground<C: DrawContext>(
    ctx: &mut C,
    pos: ScreenPos,
    sprite: usize,
    color: Rgba,
    back_color: Option<Rgba>,
)
    ensures
        final(ctx).mode() == old(ctx).mode(),
        final(ctx).drawn() == old(ctx).drawn() + shown_all(
            old(ctx).mode(),
            seq![DrawOp { sprite, pos, layer: Layer::Floor, color, back_color }],
        ),
{
    ctx.draw(sprite, pos, Layer::Floor, color, back_color);
    assert(ctx.drawn() =~= old(ctx).drawn() + shown_all(
        old(ctx).mode(),
        seq![DrawOp { sprite, pos, layer: Layer::Floor, color, back_color }],
    ));
}

/// Draws one sprite that stands in the cell.
fn draw_block<C: DrawContext>(ctx: &mut C, pos: ScreenPos, sprite: usize, color: Rgba)
    ensures
        final(ctx).mode() == old(ctx).mode(),
        final(ctx).drawn() == old(ctx).drawn() + shown_all(
            old(ctx).mode(),
            seq![block_op(sprite, pos, color)],
        ),
{
    ctx.draw(sprite, pos, Layer::Block, color, None);
    assert(ctx.drawn() =~= old(ctx).drawn() + shown_all(
        old(ctx).mode(),
        seq![block_op(sprite, pos, color)],
    ));
}

/// Draws the plain floor and one sprite that stands on it.
fn draw_on_floor<C: DrawContext>(ctx: &mut C, pos: ScreenPos, sprite: usize, color: Rgba)
    ensures
        final(ctx).mode() == old(ctx).mode(),
        final(ctx).drawn() == old(ctx).drawn() + shown_all(
            old(ctx).mode(),
            seq![plain_floor(pos), block_op(sprite, pos, color)],
        ),
{
    ctx.draw(FLOOR, pos, Layer::Floor, SLATEGRAY, None);
    ctx.draw(sprite, pos, Layer::Block, color, None);
    assert(ctx.drawn() =~= old(ctx).drawn() + shown_all(
        old(ctx).mode(),
        seq![plain_floor(pos), block_op(sprite, pos, color)],
    ));
}

/// Draws a floor sprite and on it the center cell of `k` as a wall whose
/// sprites start at `idx`.
fn draw_wall<C: DrawContext>(
    ctx: &mut C,
    k: &Kernel<TerrainKind>,
    pos: ScreenPos,
    floor: (usize, Rgba),
    idx: usize,
    color: Rgba,
    opaque: bool,
)
    requires
        idx <= usize::MAX - 3,
    ensures
        final(ctx).mode() == old(ctx).mode(),
        final(ctx).drawn() == old(ctx).drawn() + shown_all(
            old(ctx).mode(),
            seq![floor_op(floor.0, pos, floor.1)] + wallform_ops(*k, pos, idx, color, opaque),
        ),
{
    draw_ground(ctx, pos, floor.0, floor.1, None);
    wallform(ctx, k, pos, idx, color, opaque);
    proof {
        lemma_shown_all_add(
            old(ctx).mode(),
            seq![floor_op(floor.0, pos, floor.1)],
            wallform_ops(*k, pos, idx, color, opaque),
        );
    }
}

/// Draws the center cell of `k` at `pos`.
pub fn terrain_sprites<C: DrawContext>(
    ctx: &mut C,
    k: &Kernel<TerrainKind>,
    pos: ScreenPos,
    glow: u8,
)
    ensures
        final(ctx).mode() == old(ctx).mode(),
        final(ctx).drawn() == old(ctx).drawn() + shown_all(
            old(ctx).mode(),
            terrain_ops(*k, pos, glow),
        ),
        final(ctx).drawn().len() > old(ctx).drawn().len(),
{
    proof {
        lemma_resolution_total(*k, pos, glow);
    }
    match k.center {
        TerrainKind::Void => draw_ground(ctx, pos, BLANK_FLOOR, BLACK, None),
        TerrainKind::Water => draw_ground(ctx, pos, WATER, ROYALBLUE, None),
        TerrainKind::Shallows => draw_ground(ctx, pos, SHALLOWS, CORNFLOWERBLUE, None),
        TerrainKind::Magma => draw_ground(ctx, pos, MAGMA, DARKRED, Some(YELLOW)),
        TerrainKind::Tree => {
            draw_on_floor(ctx, pos, TREE_TRUNK, SADDLEBROWN);
            draw_block(ctx, pos, TREE_FOLIAGE, GREEN);
            proof {
                lemma_shown_all_add(
                    old(ctx).mode(),
                    seq![plain_floor(pos), block_op(TREE_TRUNK, pos, SADDLEBROWN)],
                    seq![block_op(TREE_FOLIAGE, pos, GREEN)],
                );
                assert(terrain_ops(*k, pos, glow) =~= seq![
                    plain_floor(pos),
                    block_op(TREE_TRUNK, pos, SADDLEBROWN),
                ] + seq![block_op(TREE_FOLIAGE, pos, GREEN)]);
            }
        },
        TerrainKind::Floor => draw_ground(ctx, pos, FLOOR, SLATEGRAY, None),
        TerrainKind::Chasm => draw_ground(ctx, pos, CHASM, DARKSLATEGRAY, None),
        TerrainKind::Grass => draw_ground(ctx, pos, FLOOR, DARKGREEN, None),
        TerrainKind::Grass2 => draw_ground(ctx, pos, GRASS, DARKGREEN, None),
        TerrainKind::Downstairs => draw_on_floor(ctx, pos, DOWNSTAIRS, SLATEGRAY),
        TerrainKind::Portal => draw_block(ctx, pos, PORTAL, portal_color(glow)),
        TerrainKind::Rock => blockform(ctx, k, pos, BLOCK, DARKGOLDENROD),
        TerrainKind::Wall => draw_wall(ctx, k, pos, (FLOOR, SLATEGRAY), WALL, LIGHTSLATEGRAY, true),
        TerrainKind::RockWall => draw_wall(
            ctx,
            k,
            pos,
            (FLOOR, SLATEGRAY),
            ROCKWALL,
            LIGHTSLATEGRAY,
            true,
        ),
        TerrainKind::Fence => {
            // The floor under the fence shows: grass if there is grass
            // behind the fence.
            let floor = if k.n == TerrainKind::Grass || k.ne == TerrainKind::Grass || k.nw
                == TerrainKind::Grass {
                (GRASS, DARKGREEN)
            } else {
                (FLOOR, SLATEGRAY)
            };
            draw_wall(ctx, k, pos, floor, FENCE, DARKGOLDENROD, false);
        },
        TerrainKind::Bars => draw_wall(ctx, k, pos, (FLOOR, SLATEGRAY), BARS, GAINSBORO, false),
        TerrainKind::Stalagmite => draw_on_floor(ctx, pos, STALAGMITE, DARKGOLDENROD),
        TerrainKind::Window => draw_wall(
            ctx,
            k,
            pos,
            (FLOOR, SLATEGRAY),
            WINDOW,
            LIGHTSLATEGRAY,
            false,
        ),
        TerrainKind::Door => {
            draw_wall(ctx, k, pos, (FLOOR, SLATEGRAY), DOOR, LIGHTSLATEGRAY, true);
            wallform(ctx, k, pos, DOOR + 4, SADDLEBROWN, false);
            proof {
                lemma_shown_all_add(
                    old(ctx).mode(),
                    seq![plain_floor(pos)] + wallform_ops(*k, pos, DOOR, LIGHTSLATEGRAY, true),
                    wallform_ops(*k, pos, (DOOR + 4) as usize, SADDLEBROWN, false),
                );
            }
        },
        TerrainKind::OpenDoor => draw_wall(
            ctx,
            k,
            pos,
            (FLOOR, SLATEGRAY),
            DOOR,
            LIGHTSLATEGRAY,
            true,
        ),
        TerrainKind::Table => draw_on_floor(ctx, pos, TABLE, DARKGOLDENROD),
        TerrainKind::Fountain => draw_on_floor(ctx, pos, FOUNTAIN, GAINSBORO),
        TerrainKind::Altar => draw_on_floor(ctx, pos, ALTAR, GAINSBORO),
        TerrainKind::Barrel => draw_on_floor(ctx, pos, BARREL, DARKGOLDENROD),
        TerrainKind::Grave => draw_on_floor(ctx, pos, GRAVE, SLATEGRAY),
        TerrainKind::Stone => draw_on_floor(ctx, pos, STONE, SLATEGRAY),
        TerrainKind::Menhir => draw_on_floor(ctx, pos, MENHIR, SLATEGRAY),
        TerrainKind::DeadTree => draw_on_floor(ctx, pos, TREE_TRUNK, SADDLEBROWN),
        TerrainKind::TallGrass => draw_block(ctx, pos, TALLGRASS, GOLD),
    }
}

} // verus!
