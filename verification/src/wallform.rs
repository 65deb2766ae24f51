//! Edge joining for wall-like terrain: which wall sprites a cell gets so
//! that it meets its neighbours without a gap, decided from the 3x3
//! neighbourhood alone.

use vstd::prelude::*;
use crate::color::{Rgba, BLACK};
use crate::draw::{lemma_shown_all_add, shown, shown_all, DrawContext, DrawOp, Layer, ScreenPos};
use crate::kernel::Kernel;
use crate::terrain::TerrainKind;
use crate::tile::{BLOCK_N, BLOCK_NE, BLOCK_NW, CUBE, XYWALL};

verus! {

/// A block-layer operation without a back color.
pub open spec fn block_op(sprite: usize, pos: ScreenPos, color: Rgba) -> DrawOp {
    DrawOp { sprite, pos, layer: Layer::Block, color, back_color: None }
}

/// The wall flags of a cell, from the wall-ness of seven neighbours: whether
/// there is a wall piece to the left front of the cell, whether there is
/// one to the right front, and whether the cell holds a solid block.
///
/// The cell is a block when all three neighbours behind it are walls.  A
/// block still needs a wall piece on a side where the neighbour beside it
/// or the one in front of that neighbour is open: the walls there are
/// drawn thin, and the line would show a gap.  A cell that is no block
/// has a piece on each side where the rear neighbour of that side is a
/// wall.
pub open spec fn flags_of(
    nw: bool,
    n: bool,
    ne: bool,
    w: bool,
    sw: bool,
    e: bool,
    se: bool,
) -> (bool, bool, bool) {
    if nw && n && ne {
        (!w || !sw, !e || !se, true)
    } else {
        (nw, ne, false)
    }
}

/// Computes the wall flags from the wall-ness of seven neighbours.
pub fn wall_flags(nw: bool, n: bool, ne: bool, w: bool, sw: bool, e: bool, se: bool) -> (flags: (
    bool,
    bool,
    bool,
))
    ensures
        flags == flags_of(nw, n, ne, w, sw, e, se),
        flags.2 == (nw && n && ne),
        flags.2 ==> flags.0 == (!w || !sw) && flags.1 == (!e || !se),
        !flags.2 ==> flags.0 == nw && flags.1 == ne,
{
    if nw && n && ne {
        (!w || !sw, !e || !se, true)
    } else {
        (nw, ne, false)
    }
}

/// The flags are as symmetric as the sprites: in the mirror, where left
/// and right neighbours change places, the left and the right flag
/// change places and the block flag stays.
pub proof fn lemma_flags_mirror(nw: bool, n: bool, ne: bool, w: bool, sw: bool, e: bool, se: bool)
    ensures
        ({
            let flags = flags_of(nw, n, ne, w, sw, e, se);
            flags_of(ne, n, nw, e, se, w, sw) == (flags.1, flags.0, flags.2)
        }),
{
}

/// The wall flags of the center cell of `k`.
pub open spec fn kernel_flags(k: Kernel<TerrainKind>) -> (bool, bool, bool) {
    flags_of(
        k.nw.is_wall(),
        k.n.is_wall(),
        k.ne.is_wall(),
        k.w.is_wall(),
        k.sw.is_wall(),
        k.e.is_wall(),
        k.se.is_wall(),
    )
}

/// Computes the wall flags of the center cell of `k`.
pub fn wall_flags_lrb(k: &Kernel<TerrainKind>) -> (flags: (bool, bool, bool))
    ensures
        flags == kernel_flags(*k),
{
    wall_flags(
        k.nw.is_wall(),
        k.n.is_wall(),
        k.ne.is_wall(),
        k.w.is_wall(),
        k.sw.is_wall(),
        k.e.is_wall(),
        k.se.is_wall(),
    )
}

/// The shapes that a wall cell is put together from.
#[derive(Clone, Copy, Debug, PartialEq, Eq, Hash, Structural)]
pub enum WallPiece {
    /// The solid cube, the same for every kind of wall.
    Cube,
    /// The piece that runs on to the left.
    Left,
    /// The piece that runs on to the right.
    Right,
    /// The piece that runs on to both sides.
    Joined,
    /// The free-standing piece.
    Single,
    /// The corner piece for a wall that runs on straight behind the cell.
    XyWall,
}

impl WallPiece {
    /// The sprite of this piece for the wall kind whose sprites start at
    /// `idx`, which leaves room for four sprites.
    pub open spec fn spec_sprite(self, idx: usize) -> usize {
        match self {
            WallPiece::Cube => CUBE,
            WallPiece::Left => idx,
            WallPiece::Right => (idx + 1) as usize,
            WallPiece::Joined => (idx + 2) as usize,
            WallPiece::Single => (idx + 3) as usize,
            WallPiece::XyWall => XYWALL,
        }
    }

    #[verifier::when_used_as_spec(spec_sprite)]
    pub fn sprite(self, idx: usize) -> (sprite: usize)
        requires
            idx <= usize::MAX - 3,
        ensures
            sprite == self.spec_sprite(idx),
    {
        match self {
            WallPiece::Cube => CUBE,
            WallPiece::Left => idx,
            WallPiece::Right => idx + 1,
            WallPiece::Joined => idx + 2,
            WallPiece::Single => idx + 3,
            WallPiece::XyWall => XYWALL,
        }
    }

    /// The color of this piece on a wall of color `color`: the cube is a
    /// black silhouette, every other piece has the color of the wall.
    pub open spec fn spec_tint(self, color: Rgba) -> Rgba {
        if self is Cube {
            BLACK
        } else {
            color
        }
    }

    #[verifier::when_used_as_spec(spec_tint)]
    pub fn tint(self, color: Rgba) -> (tint: Rgba)
        ensures
            tint == self.spec_tint(color),
    {
        match self {
            WallPiece::Cube => BLACK,
            _ => color,
        }
    }
}

/// The piece that closes the front of a wall cell, if it gets one.
///
/// `north` and `south` say whether the neighbours straight behind and
/// straight in front of the cell are walls, `nw` and `ne` whether the two
/// rear diagonal neighbours are.  A cell with a piece on neither side gets
/// the free-standing piece, unless it is a block with a wall in front of
/// it, which gets none.  The corner piece takes the place of the
/// free-standing one where the wall runs on straight behind the cell and
/// exactly one of the rear diagonals is open.
pub open spec fn front_piece(
    left: bool,
    right: bool,
    block: bool,
    north: bool,
    nw: bool,
    ne: bool,
    south: bool,
) -> Option<WallPiece> {
    if left && right {
        Some(WallPiece::Joined)
    } else if left {
        Some(WallPiece::Left)
    } else if right {
        Some(WallPiece::Right)
    } else if !block || !south {
        if north && nw != ne {
            Some(WallPiece::XyWall)
        } else {
            Some(WallPiece::Single)
        }
    } else {
        None
    }
}

/// The pieces of a wall cell, in drawing order.
///
/// A see-through block is the joined piece and nothing else.  A solid
/// block is the cube; any other cell starts empty.  Then comes the front
/// piece, where there is one.
pub open spec fn pieces_of(
    left: bool,
    right: bool,
    block: bool,
    opaque: bool,
    north: bool,
    nw: bool,
    ne: bool,
    south: bool,
) -> Seq<WallPiece> {
    if block && !opaque {
        seq![WallPiece::Joined]
    } else {
        let base = if block {
            seq![WallPiece::Cube]
        } else {
            Seq::<WallPiece>::empty()
        };
        match front_piece(left, right, block, north, nw, ne, south) {
            Some(piece) => base.push(piece),
            None => base,
        }
    }
}

/// Selects the pieces of a wall cell from its flags and from the
/// wall-ness of the neighbours behind and in front of it.
pub fn wall_pieces(
    left: bool,
    right: bool,
    block: bool,
    opaque: bool,
    north: bool,
    nw: bool,
    ne: bool,
    south: bool,
) -> (pieces: Vec<WallPiece>)
    ensures
        pieces@ == pieces_of(left, right, block, opaque, north, nw, ne, south),
{
    let mut pieces: Vec<WallPiece> = Vec::new();
    if block {
        if opaque {
            pieces.push(WallPiece::Cube);
        } else {
            pieces.push(WallPiece::Joined);
            return pieces;
        }
    }
    if left && right {
        pieces.push(WallPiece::Joined);
    } else if left {
        pieces.push(WallPiece::Left);
    } else if right {
        pieces.push(WallPiece::Right);
    } else if !block || !south {
        if north && nw != ne {
            pieces.push(WallPiece::XyWall);
        } else {
            pieces.push(WallPiece::Single);
        }
    }
    pieces
}

/// The selection of wall pieces, case by case over the two side flags,
/// the block flag and opacity.
pub proof fn lemma_piece_table(
    left: bool,
    right: bool,
    block: bool,
    opaque: bool,
    north: bool,
    nw: bool,
    ne: bool,
    south: bool,
)
    ensures
        ({
            let pieces = pieces_of(left, right, block, opaque, north, nw, ne, south);
            let loose = if north && nw != ne {
                WallPiece::XyWall
            } else {
                WallPiece::Single
            };
            &&& block && !opaque ==> pieces == seq![WallPiece::Joined]
            &&& block && opaque && left && right ==> pieces == seq![
                WallPiece::Cube,
                WallPiece::Joined,
            ]
            &&& block && opaque && left && !right ==> pieces == seq![
                WallPiece::Cube,
                WallPiece::Left,
            ]
            &&& block && opaque && !left && right ==> pieces == seq![
                WallPiece::Cube,
                WallPiece::Right,
            ]
            &&& block && opaque && !left && !right && south ==> pieces == seq![WallPiece::Cube]
            &&& block && opaque && !left && !right && !south ==> pieces == seq![
                WallPiece::Cube,
                loose,
            ]
            &&& !block && left && right ==> pieces == seq![WallPiece::Joined]
            &&& !block && left && !right ==> pieces == seq![WallPiece::Left]
            &&& !block && !left && right ==> pieces == seq![WallPiece::Right]
            &&& !block && !left && !right ==> pieces == seq![loose]
        }),
{
    let pieces = pieces_of(left, right, block, opaque, north, nw, ne, south);
    if block && opaque {
        assert(pieces =~= match front_piece(left, right, block, north, nw, ne, south) {
            Some(piece) => seq![WallPiece::Cube, piece],
            None => seq![WallPiece::Cube],
        });
    } else if !block {
        assert(pieces =~= match front_piece(left, right, block, north, nw, ne, south) {
            Some(piece) => seq![piece],
            None => Seq::<WallPiece>::empty(),
        });
    }
}

/// The piece that a piece is in the mirror: the pieces that run on to
/// one side change places, every other piece looks the same.
pub open spec fn mirrored(piece: WallPiece) -> WallPiece {
    match piece {
        WallPiece::Left => WallPiece::Right,
        WallPiece::Right => WallPiece::Left,
        _ => piece,
    }
}

/// The pieces of the mirrored cell are the mirrored pieces of the cell.
pub proof fn lemma_pieces_mirror(
    left: bool,
    right: bool,
    block: bool,
    opaque: bool,
    north: bool,
    nw: bool,
    ne: bool,
    south: bool,
)
    ensures
        pieces_of(right, left, block, opaque, north, ne, nw, south) == pieces_of(
            left,
            right,
            block,
            opaque,
            north,
            nw,
            ne,
            south,
        ).map_values(|piece: WallPiece| mirrored(piece)),
{
    let pieces = pieces_of(left, right, block, opaque, north, nw, ne, south);
    lemma_piece_table(left, right, block, opaque, north, nw, ne, south);
    lemma_piece_table(right, left, block, opaque, north, ne, nw, south);
    assert(pieces_of(right, left, block, opaque, north, ne, nw, south) =~= pieces.map_values(
        |piece: WallPiece| mirrored(piece),
    ));
}

/// Every wall cell is drawn with at least one piece and at most two.
pub proof fn lemma_pieces_count(
    left: bool,
    right: bool,
    block: bool,
    opaque: bool,
    north: bool,
    nw: bool,
    ne: bool,
    south: bool,
)
    ensures
        1 <= pieces_of(left, right, block, opaque, north, nw, ne, south).len() <= 2,
{
}

/// The pieces of the center cell of `k` for a wall that is opaque or not.
pub open spec fn kernel_pieces(k: Kernel<TerrainKind>, opaque: bool) -> Seq<WallPiece> {
    let flags = kernel_flags(k);
    pieces_of(
        flags.0,
        flags.1,
        flags.2,
        opaque,
        k.n.is_wall(),
        k.nw.is_wall(),
        k.ne.is_wall(),
        k.s.is_wall(),
    )
}

/// With flags that come from a kernel, a cell has a piece on neither
/// side only when its rear diagonals are both open or both walls, so the
/// corner piece is never among the pieces of a kernel's center cell.
pub proof fn lemma_kernel_pieces_have_no_corner(k: Kernel<TerrainKind>, opaque: bool)
    ensures
        !kernel_pieces(k, opaque).contains(WallPiece::XyWall),
{
    let flags = kernel_flags(k);
    lemma_piece_table(
        flags.0,
        flags.1,
        flags.2,
        opaque,
        k.n.is_wall(),
        k.nw.is_wall(),
        k.ne.is_wall(),
        k.s.is_wall(),
    );
}

/// The operations that draw the wall pieces of the center cell of `k`.
pub open spec fn wallform_ops(
    k: Kernel<TerrainKind>,
    pos: ScreenPos,
    idx: usize,
    color: Rgba,
    opaque: bool,
) -> Seq<DrawOp> {
    kernel_pieces(k, opaque).map_values(
        |piece: WallPiece| block_op(piece.sprite(idx), pos, piece.tint(color)),
    )
}

/// Draws the center cell of `k` as a wall whose sprites start at `idx`.
pub fn wallform<C: DrawContext>(
    ctx: &mut C,
    k: &Kernel<TerrainKind>,
    pos: ScreenPos,
    idx: usize,
    color: Rgba,
    opaque: bool,
)
    requires
        idx <= usize::MAX - 3,
    ensures
        final(ctx).mode() == old(ctx).mode(),
        final(ctx).drawn() == old(ctx).drawn() + shown_all(
            old(ctx).mode(),
            wallform_ops(*k, pos, idx, color, opaque),
        ),
{
    let (left, right, block) = wall_flags_lrb(k);
    let pieces = wall_pieces(
        left,
        right,
        block,
        opaque,
        k.n.is_wall(),
        k.nw.is_wall(),
        k.ne.is_wall(),
        k.s.is_wall(),
    );
    let ghost ops = wallform_ops(*k, pos, idx, color, opaque);
    let mut i: usize = 0;
    while i < pieces.len()
        invariant
            i <= pieces.len(),
            idx <= usize::MAX - 3,
            pieces@ == kernel_pieces(*k, opaque),
            ops == wallform_ops(*k, pos, idx, color, opaque),
            ctx.mode() == old(ctx).mode(),
            ctx.drawn() == old(ctx).drawn() + shown_all(old(ctx).mode(), ops.take(i as int)),
        decreases pieces.len() - i,
    {
        let piece = pieces[i];
        ctx.draw(piece.sprite(idx), pos, Layer::Block, piece.tint(color), None);
        proof {
            assert(ops.take(i + 1) == ops.take(i as int).push(ops[i as int]));
            lemma_shown_all_add(old(ctx).mode(), ops.take(i as int), seq![ops[i as int]]);
            assert(ops.take(i as int).push(ops[i as int]) == ops.take(i as int) + seq![
                ops[i as int],
            ]);
            assert(shown_all(old(ctx).mode(), seq![ops[i as int]]) == seq![
                shown(old(ctx).mode(), ops[i as int]),
            ]);
        }
        i += 1;
    }
    assert(ops.take(pieces.len() as int) == ops);
}

/// The operations that draw a free-standing block: the block itself, then
/// a line along each of its three rear edges that has no wall behind it.
pub open spec fn blockform_ops(
    k: Kernel<TerrainKind>,
    pos: ScreenPos,
    idx: usize,
    color: Rgba,
) -> Seq<DrawOp> {
    seq![block_op(idx, pos, color)] + (if k.nw.is_wall() {
        Seq::<DrawOp>::empty()
    } else {
        seq![block_op(BLOCK_NW, pos, color)]
    }) + (if k.n.is_wall() {
        Seq::<DrawOp>::empty()
    } else {
        seq![block_op(BLOCK_N, pos, color)]
    }) + (if k.ne.is_wall() {
        Seq::<DrawOp>::empty()
    } else {
        seq![block_op(BLOCK_NE, pos, color)]
    })
}

/// A block is drawn as itself and then one line for each rear neighbour
/// that is no wall, and for no other: the lines for the north-west, the
/// north and the north-east, in that order.
pub proof fn lemma_blockform_back_lines(
    k: Kernel<TerrainKind>,
    pos: ScreenPos,
    idx: usize,
    color: Rgba,
)
    ensures
        ({
            let ops = blockform_ops(k, pos, idx, color);
            let lines = ops.skip(1);
            let count = |wall: bool| if wall { 0int } else { 1int };
            &&& ops[0] == block_op(idx, pos, color)
            &&& lines.len() == count(k.nw.is_wall()) + count(k.n.is_wall()) + count(
                k.ne.is_wall(),
            )
            &&& lines.contains(block_op(BLOCK_NW, pos, color)) <==> !k.nw.is_wall()
            &&& lines.contains(block_op(BLOCK_N, pos, color)) <==> !k.n.is_wall()
            &&& lines.contains(block_op(BLOCK_NE, pos, color)) <==> !k.ne.is_wall()
            &&& forall|i: int, j: int|
                0 <= i < j < lines.len() ==> (#[trigger] lines[i]).sprite < (
                #[trigger] lines[j]).sprite
        }),
{
    let ops = blockform_ops(k, pos, idx, color);
    let lines = ops.skip(1);
    let nw = block_op(BLOCK_NW, pos, color);
    let n = block_op(BLOCK_N, pos, color);
    let ne = block_op(BLOCK_NE, pos, color);
    let expected = (if k.nw.is_wall() {
        Seq::<DrawOp>::empty()
    } else {
        seq![nw]
    }) + (if k.n.is_wall() {
        Seq::<DrawOp>::empty()
    } else {
        seq![n]
    }) + (if k.ne.is_wall() {
        Seq::<DrawOp>::empty()
    } else {
        seq![ne]
    });
    assert(lines =~= expected);
    if !k.nw.is_wall() {
        assert(lines[0] == nw);
    }
    if !k.n.is_wall() {
        assert(lines[if k.nw.is_wall() { 0int } else { 1int }] == n);
    }
    if !k.ne.is_wall() {
        assert(lines[lines.len() - 1] == ne);
    }
}

/// Draws the center cell of `k` as a free-standing block with sprite `idx`.
pub fn blockform<C: DrawContext>(
    ctx: &mut C,
    k: &Kernel<TerrainKind>,
    pos: ScreenPos,
    idx: usize,
    color: Rgba,
)
    ensures
        final(ctx).mode() == old(ctx).mode(),
        final(ctx).drawn() == old(ctx).drawn() + shown_all(
            old(ctx).mode(),
            blockform_ops(*k, pos, idx, color),
        ),
{
    ctx.draw(idx, pos, Layer::Block, color, None);
    if !k.nw.is_wall() {
        ctx.draw(BLOCK_NW, pos, Layer::Block, color, None);
    }
    if !k.n.is_wall() {
        ctx.draw(BLOCK_N, pos, Layer::Block, color, None);
    }
    if !k.ne.is_wall() {
        ctx.draw(BLOCK_NE, pos, Layer::Block, color, None);
    }
    assert(ctx.drawn() =~= old(ctx).drawn() + shown_all(
        old(ctx).mode(),
        blockform_ops(*k, pos, idx, color),
    ));
}

} // verus!
