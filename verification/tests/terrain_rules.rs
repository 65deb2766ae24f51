use tileview::color::{
    Rgba, BLACK, CORNFLOWERBLUE, DARKGOLDENROD, DARKGREEN, DARKRED, DARKSLATEGRAY, GAINSBORO,
    GOLD, GREEN, LIGHTSLATEGRAY, ROYALBLUE, SADDLEBROWN, SLATEGRAY, YELLOW,
};
use tileview::draw::{
    recolor, DrawContext, DrawOp, Layer, ScreenPos, SpriteCollector, ViewMode, REMEMBERED_BACK,
};
use tileview::kernel::Kernel;
use tileview::resolver::{portal_color, terrain_sprites};
use tileview::terrain::TerrainKind;
use tileview::tile;
use tileview::wallform::WallPiece::{Cube, Joined, Left, Right, Single, XyWall};
use tileview::wallform::{
    blockform, wall_flags, wall_flags_lrb, wall_pieces, wallform, WallPiece,
};

const ALL_KINDS: [TerrainKind; 29] = [
    TerrainKind::Void,
    TerrainKind::Floor,
    TerrainKind::Chasm,
    TerrainKind::Water,
    TerrainKind::Shallows,
    TerrainKind::Magma,
    TerrainKind::Downstairs,
    TerrainKind::Wall,
    TerrainKind::RockWall,
    TerrainKind::Rock,
    TerrainKind::Tree,
    TerrainKind::Grass,
    TerrainKind::Grass2,
    TerrainKind::Stalagmite,
    TerrainKind::Portal,
    TerrainKind::Door,
    TerrainKind::OpenDoor,
    TerrainKind::Window,
    TerrainKind::Table,
    TerrainKind::Fence,
    TerrainKind::Bars,
    TerrainKind::Fountain,
    TerrainKind::Altar,
    TerrainKind::Barrel,
    TerrainKind::Grave,
    TerrainKind::Stone,
    TerrainKind::Menhir,
    TerrainKind::DeadTree,
    TerrainKind::TallGrass,
];

const AT: ScreenPos = ScreenPos { x: 100, y: 60 };

fn floor(sprite: usize, color: Rgba) -> DrawOp {
    DrawOp { sprite, pos: AT, layer: Layer::Floor, color, back_color: None }
}

fn block(sprite: usize, color: Rgba) -> DrawOp {
    DrawOp { sprite, pos: AT, layer: Layer::Block, color, back_color: None }
}

fn terrain_of(wall: bool) -> TerrainKind {
    if wall {
        TerrainKind::Wall
    } else {
        TerrainKind::Floor
    }
}

/// A kernel around `center` whose neighbours are walls where the bit is
/// set: bits 0 to 7 are nw, n, ne, w, sw, e, se, s.
fn kernel_from_bits(center: TerrainKind, bits: u32) -> Kernel<TerrainKind> {
    let wall = |i: u32| terrain_of(bits & (1 << i) != 0);
    Kernel {
        nw: wall(0),
        n: wall(1),
        ne: wall(2),
        w: wall(3),
        sw: wall(4),
        e: wall(5),
        se: wall(6),
        s: wall(7),
        center,
    }
}

fn resolve(k: &Kernel<TerrainKind>, mode: ViewMode, glow: u8) -> Vec<DrawOp> {
    let mut ctx = SpriteCollector::new();
    ctx.mode = mode;
    terrain_sprites(&mut ctx, k, AT, glow);
    ctx.ops
}

#[test]
fn every_kind_in_every_neighbourhood_is_drawn() {
    for &center in ALL_KINDS.iter() {
        for bits in 0..256 {
            let ops = resolve(&kernel_from_bits(center, bits), ViewMode::Normal, 0);
            assert!(!ops.is_empty(), "{:?} in {:08b}", center, bits);
            assert!(ops.len() <= 5);
            for op in ops.iter() {
                assert_eq!(op.pos, AT);
            }
        }
        for &edge in ALL_KINDS.iter() {
            let ops = resolve(&Kernel::new_default(center, edge), ViewMode::FogOfWar, 9);
            assert!(!ops.is_empty(), "{:?} among {:?}", center, edge);
        }
    }
}

#[test]
fn wall_like_kinds_are_the_eight() {
    let walls = [
        TerrainKind::Wall,
        TerrainKind::RockWall,
        TerrainKind::Rock,
        TerrainKind::Door,
        TerrainKind::OpenDoor,
        TerrainKind::Window,
        TerrainKind::Bars,
        TerrainKind::Fence,
    ];
    for &kind in ALL_KINDS.iter() {
        assert_eq!(kind.is_wall(), walls.contains(&kind), "{:?}", kind);
    }
}

#[test]
fn walkable_kinds_do_not_block() {
    let open = [
        TerrainKind::Floor,
        TerrainKind::Shallows,
        TerrainKind::Grass,
        TerrainKind::Grass2,
        TerrainKind::Downstairs,
        TerrainKind::Portal,
        TerrainKind::Door,
        TerrainKind::OpenDoor,
        TerrainKind::TallGrass,
    ];
    for &kind in ALL_KINDS.iter() {
        assert_eq!(kind.blocks_walk(), !open.contains(&kind), "{:?}", kind);
    }
}

#[test]
fn plain_kinds_draw_one_floor_sprite() {
    let cases = [
        (TerrainKind::Void, tile::BLANK_FLOOR, BLACK),
        (TerrainKind::Water, tile::WATER, ROYALBLUE),
        (TerrainKind::Shallows, tile::SHALLOWS, CORNFLOWERBLUE),
        (TerrainKind::Floor, tile::FLOOR, SLATEGRAY),
        (TerrainKind::Chasm, tile::CHASM, DARKSLATEGRAY),
        (TerrainKind::Grass, tile::FLOOR, DARKGREEN),
        (TerrainKind::Grass2, tile::GRASS, DARKGREEN),
    ];
    for &(kind, sprite, color) in cases.iter() {
        for bits in [0u32, 0x55, 0xff] {
            let ops = resolve(&kernel_from_bits(kind, bits), ViewMode::Normal, 0);
            assert_eq!(ops, vec![floor(sprite, color)], "{:?}", kind);
        }
    }
}

#[test]
fn furniture_stands_on_plain_floor() {
    let cases = [
        (TerrainKind::Downstairs, tile::DOWNSTAIRS, SLATEGRAY),
        (TerrainKind::Stalagmite, tile::STALAGMITE, DARKGOLDENROD),
        (TerrainKind::Table, tile::TABLE, DARKGOLDENROD),
        (TerrainKind::Fountain, tile::FOUNTAIN, GAINSBORO),
        (TerrainKind::Altar, tile::ALTAR, GAINSBORO),
        (TerrainKind::Barrel, tile::BARREL, DARKGOLDENROD),
        (TerrainKind::Grave, tile::GRAVE, SLATEGRAY),
        (TerrainKind::Stone, tile::STONE, SLATEGRAY),
        (TerrainKind::Menhir, tile::MENHIR, SLATEGRAY),
        (TerrainKind::DeadTree, tile::TREE_TRUNK, SADDLEBROWN),
    ];
    for &(kind, sprite, color) in cases.iter() {
        let ops = resolve(&kernel_from_bits(kind, 0xa5), ViewMode::Normal, 0);
        assert_eq!(ops, vec![floor(tile::FLOOR, SLATEGRAY), block(sprite, color)], "{:?}", kind);
    }
}

#[test]
fn tree_has_trunk_and_foliage() {
    let ops = resolve(&kernel_from_bits(TerrainKind::Tree, 0), ViewMode::Normal, 0);
    assert_eq!(
        ops,
        vec![
            floor(tile::FLOOR, SLATEGRAY),
            block(tile::TREE_TRUNK, SADDLEBROWN),
            block(tile::TREE_FOLIAGE, GREEN),
        ]
    );
}

#[test]
fn tall_grass_is_one_block_sprite() {
    let ops = resolve(&kernel_from_bits(TerrainKind::TallGrass, 0), ViewMode::Normal, 0);
    assert_eq!(ops, vec![block(tile::TALLGRASS, GOLD)]);
}

#[test]
fn magma_has_two_tones() {
    let ops = resolve(&kernel_from_bits(TerrainKind::Magma, 0), ViewMode::Normal, 0);
    assert_eq!(
        ops,
        vec![DrawOp {
            sprite: tile::MAGMA,
            pos: AT,
            layer: Layer::Floor,
            color: DARKRED,
            back_color: Some(YELLOW),
        }]
    );
}

#[test]
fn portal_color_follows_the_glow() {
    assert_eq!(portal_color(0), (0, 0, 255, 255));
    assert_eq!(portal_color(127), (127, 127, 255, 255));
    assert_eq!(portal_color(254), (254, 254, 255, 255));
    for glow in 0..=255u8 {
        assert_eq!(portal_color(glow), portal_color(glow));
        let ops = resolve(&kernel_from_bits(TerrainKind::Portal, 0), ViewMode::Normal, glow);
        assert_eq!(ops, vec![block(tile::PORTAL, (glow, glow, 255, 255))]);
    }
}

#[test]
fn wall_flags_follow_the_rule_in_all_combinations() {
    for bits in 0..128u32 {
        let bit = |i: u32| bits & (1 << i) != 0;
        let (nw, n, ne, w, sw, e, se) = (bit(0), bit(1), bit(2), bit(3), bit(4), bit(5), bit(6));
        let expected = if nw && n && ne {
            (!(w && sw), !(e && se), true)
        } else {
            (nw, ne, false)
        };
        assert_eq!(wall_flags(nw, n, ne, w, sw, e, se), expected, "{:07b}", bits);
        let k = kernel_from_bits(TerrainKind::Wall, bits);
        assert_eq!(wall_flags_lrb(&k), expected, "{:07b}", bits);
        let k = kernel_from_bits(TerrainKind::Wall, bits | 0x80);
        assert_eq!(wall_flags_lrb(&k), expected, "{:07b}", bits);
    }
}

#[test]
fn wall_flags_of_chosen_neighbourhoods() {
    // Open rear: flags are the rear diagonals.
    assert_eq!(wall_flags(true, false, false, true, true, true, true), (true, false, false));
    assert_eq!(wall_flags(false, true, true, false, false, false, false), (false, true, false));
    assert_eq!(wall_flags(false, false, false, true, true, true, true), (false, false, false));
    // Closed rear: a side has a piece when one of its two cells is open.
    assert_eq!(wall_flags(true, true, true, true, true, true, true), (false, false, true));
    assert_eq!(wall_flags(true, true, true, false, true, true, true), (true, false, true));
    assert_eq!(wall_flags(true, true, true, true, false, true, true), (true, false, true));
    assert_eq!(wall_flags(true, true, true, true, true, false, true), (false, true, true));
    assert_eq!(wall_flags(true, true, true, true, true, true, false), (false, true, true));
    assert_eq!(wall_flags(true, true, true, false, false, false, false), (true, true, true));
}

#[test]
fn pieces_for_each_case_of_the_flags() {
    for rest in 0..16u32 {
        let (north, nw, ne, south) =
            (rest & 1 != 0, rest & 2 != 0, rest & 4 != 0, rest & 8 != 0);
        let loose = if north && nw != ne { XyWall } else { Single };
        let pieces = |left, right, block, opaque| {
            wall_pieces(left, right, block, opaque, north, nw, ne, south)
        };
        // See-through blocks.
        assert_eq!(pieces(true, true, true, false), vec![Joined]);
        assert_eq!(pieces(true, false, true, false), vec![Joined]);
        assert_eq!(pieces(false, true, true, false), vec![Joined]);
        assert_eq!(pieces(false, false, true, false), vec![Joined]);
        // Solid blocks.
        assert_eq!(pieces(true, true, true, true), vec![Cube, Joined]);
        assert_eq!(pieces(true, false, true, true), vec![Cube, Left]);
        assert_eq!(pieces(false, true, true, true), vec![Cube, Right]);
        if south {
            assert_eq!(pieces(false, false, true, true), vec![Cube]);
        } else {
            assert_eq!(pieces(false, false, true, true), vec![Cube, loose]);
        }
        // No block, opaque or not.
        for opaque in [false, true] {
            assert_eq!(pieces(true, true, false, opaque), vec![Joined]);
            assert_eq!(pieces(true, false, false, opaque), vec![Left]);
            assert_eq!(pieces(false, true, false, opaque), vec![Right]);
            assert_eq!(pieces(false, false, false, opaque), vec![loose]);
        }
    }
}

#[test]
fn pieces_have_their_sprites_and_tints() {
    let base = tile::WALL;
    assert_eq!(WallPiece::Cube.sprite(base), tile::CUBE);
    assert_eq!(WallPiece::Left.sprite(base), base);
    assert_eq!(WallPiece::Right.sprite(base), base + 1);
    assert_eq!(WallPiece::Joined.sprite(base), base + 2);
    assert_eq!(WallPiece::Single.sprite(base), base + 3);
    assert_eq!(WallPiece::XyWall.sprite(base), tile::XYWALL);
    assert_eq!(WallPiece::Cube.tint(GOLD), BLACK);
    for piece in [
        WallPiece::Left,
        WallPiece::Right,
        WallPiece::Joined,
        WallPiece::Single,
        WallPiece::XyWall,
    ] {
        assert_eq!(piece.tint(GOLD), GOLD);
    }
}

#[test]
fn corner_piece_needs_exactly_one_open_rear_diagonal() {
    let pick = |north, nw, ne| wall_pieces(false, false, false, true, north, nw, ne, false);
    assert_eq!(pick(true, true, false), vec![WallPiece::XyWall]);
    assert_eq!(pick(true, false, true), vec![WallPiece::XyWall]);
    assert_eq!(pick(true, false, false), vec![WallPiece::Single]);
    assert_eq!(pick(true, true, true), vec![WallPiece::Single]);
    assert_eq!(pick(false, true, false), vec![WallPiece::Single]);
    assert_eq!(pick(false, false, true), vec![WallPiece::Single]);
}

fn wallform_ops(bits: u32, idx: usize, color: Rgba, opaque: bool) -> Vec<DrawOp> {
    let mut ctx = SpriteCollector::new();
    wallform(&mut ctx, &kernel_from_bits(TerrainKind::Wall, bits), AT, idx, color, opaque);
    ctx.ops
}

#[test]
fn wallform_draws_the_joining_sprites() {
    let c = LIGHTSLATEGRAY;
    // bits: nw 1, n 2, ne 4, w 8, sw 16, e 32, se 64, s 128
    assert_eq!(wallform_ops(0, 20, c, true), vec![block(23, c)]);
    assert_eq!(wallform_ops(1, 20, c, true), vec![block(20, c)]);
    assert_eq!(wallform_ops(4, 20, c, true), vec![block(21, c)]);
    assert_eq!(wallform_ops(5, 20, c, true), vec![block(22, c)]);
    assert_eq!(wallform_ops(2, 20, c, true), vec![block(23, c)]);
    assert_eq!(wallform_ops(3, 20, c, true), vec![block(20, c)]);
    // Closed rear, everything around is wall: the cube alone.
    assert_eq!(wallform_ops(0xff, 20, c, true), vec![block(tile::CUBE, BLACK)]);
    // Closed rear, open in front: cube and the free-standing piece.
    assert_eq!(wallform_ops(0x7f, 20, c, true), vec![block(tile::CUBE, BLACK), block(23, c)]);
    // Closed rear, open to the west: cube and the left piece.
    assert_eq!(wallform_ops(0xff & !8, 20, c, true), vec![block(tile::CUBE, BLACK), block(20, c)]);
    // Closed rear, open to the south-east: cube and the right piece.
    assert_eq!(wallform_ops(0xff & !64, 20, c, true), vec![block(tile::CUBE, BLACK), block(21, c)]);
    // Closed rear, open on both sides: cube and the joined piece.
    assert_eq!(wallform_ops(7, 20, c, true), vec![block(tile::CUBE, BLACK), block(22, c)]);
    // See-through block: the joined piece and nothing more.
    assert_eq!(wallform_ops(7, 28, c, false), vec![block(30, c)]);
    assert_eq!(wallform_ops(0xff, 28, c, false), vec![block(30, c)]);
    // See-through, open rear: as a wall.
    assert_eq!(wallform_ops(1, 28, c, false), vec![block(28, c)]);
    assert_eq!(wallform_ops(0, 28, c, false), vec![block(31, c)]);
}

#[test]
fn wallform_of_a_kernel_never_draws_the_corner_piece() {
    for bits in 0..256u32 {
        for opaque in [false, true] {
            let ops = wallform_ops(bits, 20, GOLD, opaque);
            assert!(!ops.is_empty() && ops.len() <= 2);
            assert!(ops.iter().all(|op| op.sprite != tile::XYWALL), "{:08b}", bits);
            assert!(ops.iter().all(|op| op.layer == Layer::Block));
        }
    }
}

#[test]
fn wall_kinds_draw_floor_then_wallform() {
    let cases = [
        (TerrainKind::Wall, tile::WALL, LIGHTSLATEGRAY, true),
        (TerrainKind::RockWall, tile::ROCKWALL, LIGHTSLATEGRAY, true),
        (TerrainKind::Bars, tile::BARS, GAINSBORO, false),
        (TerrainKind::Window, tile::WINDOW, LIGHTSLATEGRAY, false),
        (TerrainKind::OpenDoor, tile::DOOR, LIGHTSLATEGRAY, true),
    ];
    for &(kind, base, color, opaque) in cases.iter() {
        for bits in 0..256u32 {
            let mut expected = vec![floor(tile::FLOOR, SLATEGRAY)];
            expected.extend(wallform_ops(bits, base, color, opaque));
            assert_eq!(resolve(&kernel_from_bits(kind, bits), ViewMode::Normal, 0), expected);
        }
    }
    assert_eq!(
        resolve(&kernel_from_bits(TerrainKind::Wall, 1), ViewMode::Normal, 0),
        vec![floor(tile::FLOOR, SLATEGRAY), block(tile::WALL, LIGHTSLATEGRAY)]
    );
    assert_eq!(
        resolve(&kernel_from_bits(TerrainKind::Bars, 7), ViewMode::Normal, 0),
        vec![floor(tile::FLOOR, SLATEGRAY), block(tile::BARS + 2, GAINSBORO)]
    );
}

#[test]
fn door_draws_wall_and_frame() {
    for bits in 0..256u32 {
        let mut expected = vec![floor(tile::FLOOR, SLATEGRAY)];
        expected.extend(wallform_ops(bits, tile::DOOR, LIGHTSLATEGRAY, true));
        expected.extend(wallform_ops(bits, tile::DOOR + 4, SADDLEBROWN, false));
        assert_eq!(resolve(&kernel_from_bits(TerrainKind::Door, bits), ViewMode::Normal, 0), expected);
    }
    // A door in a wall that runs from the left rear to the right rear.
    assert_eq!(
        resolve(&kernel_from_bits(TerrainKind::Door, 5), ViewMode::Normal, 0),
        vec![
            floor(tile::FLOOR, SLATEGRAY),
            block(tile::DOOR + 2, LIGHTSLATEGRAY),
            block(tile::DOOR + 6, SADDLEBROWN),
        ]
    );
    // A door in a solid block of wall.
    assert_eq!(
        resolve(&kernel_from_bits(TerrainKind::Door, 0xff), ViewMode::Normal, 0),
        vec![
            floor(tile::FLOOR, SLATEGRAY),
            block(tile::CUBE, BLACK),
            block(tile::DOOR + 6, SADDLEBROWN),
        ]
    );
}

#[test]
fn fence_floor_is_grass_behind_grass() {
    let mut k = Kernel::new_default(TerrainKind::Fence, TerrainKind::Floor);
    let plain = resolve(&k, ViewMode::Normal, 0);
    assert_eq!(
        plain,
        vec![floor(tile::FLOOR, SLATEGRAY), block(tile::FENCE + 3, DARKGOLDENROD)]
    );
    for place in 0..3 {
        let mut grassy = k;
        match place {
            0 => grassy.n = TerrainKind::Grass,
            1 => grassy.ne = TerrainKind::Grass,
            _ => grassy.nw = TerrainKind::Grass,
        }
        assert_eq!(
            resolve(&grassy, ViewMode::Normal, 0),
            vec![floor(tile::GRASS, DARKGREEN), block(tile::FENCE + 3, DARKGOLDENROD)]
        );
    }
    // Grass in front of the fence or beside it does not count.
    k.s = TerrainKind::Grass;
    k.e = TerrainKind::Grass;
    k.w = TerrainKind::Grass;
    k.se = TerrainKind::Grass;
    k.sw = TerrainKind::Grass;
    assert_eq!(resolve(&k, ViewMode::Normal, 0), plain);
}

#[test]
fn block_gets_a_back_line_for_each_open_rear_neighbour() {
    for bits in 0..8u32 {
        let k = kernel_from_bits(TerrainKind::Rock, bits);
        let mut expected = vec![block(tile::BLOCK, DARKGOLDENROD)];
        if bits & 1 == 0 {
            expected.push(block(tile::BLOCK_NW, DARKGOLDENROD));
        }
        if bits & 2 == 0 {
            expected.push(block(tile::BLOCK_N, DARKGOLDENROD));
        }
        if bits & 4 == 0 {
            expected.push(block(tile::BLOCK_NE, DARKGOLDENROD));
        }
        assert_eq!(resolve(&k, ViewMode::Normal, 0), expected, "{:03b}", bits);
        // The other five neighbours do not matter.
        assert_eq!(
            resolve(&kernel_from_bits(TerrainKind::Rock, bits | 0xf8), ViewMode::Normal, 0),
            expected
        );
        let mut ctx = SpriteCollector::new();
        blockform(&mut ctx, &k, AT, 77, GOLD);
        assert_eq!(ctx.ops.len(), expected.len());
        assert_eq!(ctx.ops[0], block(77, GOLD));
    }
}

#[test]
fn remembered_cells_lose_their_colors() {
    assert_eq!(
        recolor(ViewMode::FogOfWar, SLATEGRAY, None),
        (BLACK, Some((0x33, 0x22, 0x00, 0xff)))
    );
    assert_eq!(recolor(ViewMode::FogOfWar, DARKRED, Some(YELLOW)), (BLACK, Some(REMEMBERED_BACK)));
    assert_eq!(recolor(ViewMode::FogOfWar, (0, 0, 1, 255), None), (BLACK, Some(REMEMBERED_BACK)));
    assert_eq!(recolor(ViewMode::FogOfWar, (0, 0, 0, 254), None), (BLACK, Some(REMEMBERED_BACK)));
    assert_eq!(recolor(ViewMode::FogOfWar, BLACK, None), (BLACK, None));
    assert_eq!(recolor(ViewMode::FogOfWar, BLACK, Some(YELLOW)), (BLACK, Some(YELLOW)));
    assert_eq!(recolor(ViewMode::Normal, SLATEGRAY, None), (SLATEGRAY, None));
    assert_eq!(recolor(ViewMode::Normal, DARKRED, Some(YELLOW)), (DARKRED, Some(YELLOW)));
    assert_eq!(recolor(ViewMode::Normal, BLACK, None), (BLACK, None));
}

#[test]
fn collector_recolors_what_it_collects() {
    let mut ctx = SpriteCollector::new();
    assert_eq!(ctx.get_mode(), ViewMode::Normal);
    assert!(ctx.ops.is_empty());
    ctx.draw(5, AT, Layer::Fx, GOLD, Some(GREEN));
    ctx.mode = ViewMode::FogOfWar;
    assert_eq!(ctx.get_mode(), ViewMode::FogOfWar);
    ctx.draw(6, AT, Layer::Fog, GOLD, Some(GREEN));
    ctx.draw(7, AT, Layer::Caption, BLACK, None);
    assert_eq!(
        ctx.ops,
        vec![
            DrawOp { sprite: 5, pos: AT, layer: Layer::Fx, color: GOLD, back_color: Some(GREEN) },
            DrawOp {
                sprite: 6,
                pos: AT,
                layer: Layer::Fog,
                color: BLACK,
                back_color: Some(REMEMBERED_BACK),
            },
            DrawOp { sprite: 7, pos: AT, layer: Layer::Caption, color: BLACK, back_color: None },
        ]
    );
}

#[test]
fn remembered_terrain_is_dim_but_for_the_cube() {
    for &center in ALL_KINDS.iter() {
        for bits in [0u32, 7, 0x7f, 0xff] {
            let k = kernel_from_bits(center, bits);
            let seen = resolve(&k, ViewMode::Normal, 200);
            let dim = resolve(&k, ViewMode::FogOfWar, 200);
            assert_eq!(seen.len(), dim.len());
            for (a, b) in seen.iter().zip(dim.iter()) {
                assert_eq!((a.sprite, a.pos, a.layer), (b.sprite, b.pos, b.layer));
                if a.color == BLACK {
                    assert_eq!(a, b);
                } else {
                    assert_eq!((b.color, b.back_color), (BLACK, Some(REMEMBERED_BACK)));
                }
            }
        }
    }
}

#[test]
fn layers_lie_in_order_of_depth() {
    assert_eq!(Layer::Floor.depth(), 500);
    assert_eq!(Layer::Block.depth(), 400);
    assert_eq!(Layer::Fx.depth(), 375);
    assert_eq!(Layer::Fog.depth(), 350);
    assert_eq!(Layer::Caption.depth(), 300);
}
