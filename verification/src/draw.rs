//! Draw operations, and the context that recolors them for the view mode
//! before they reach the screen.

use vstd::prelude::*;
use crate::color::{same_color, Rgba, BLACK};

verus! {

/// How a cell is being looked at.
#[derive(Clone, Copy, Debug, PartialEq, Eq, Hash, Structural)]
pub enum ViewMode {
    /// The cell is in sight.
    Normal,
    /// The cell is out of sight and drawn from memory.
    FogOfWar,
}

/// The depth layers of the screen, from the farthest to the nearest.
#[derive(Clone, Copy, Debug, PartialEq, Eq, Hash, Structural)]
pub enum Layer {
    Floor,
    Block,
    Fx,
    Fog,
    Caption,
}

impl Layer {
    /// The depth of the layer in thousandths of the depth range; a
    /// smaller depth is nearer to the viewer.
    pub open spec fn spec_depth(self) -> u16 {
        match self {
            Layer::Floor => 500,
            Layer::Block => 400,
            Layer::Fx => 375,
            Layer::Fog => 350,
            Layer::Caption => 300,
        }
    }

    #[verifier::when_used_as_spec(spec_depth)]
    pub fn depth(self) -> (d: u16)
        ensures
            d == self.spec_depth(),
    {
        match self {
            Layer::Floor => 500,
            Layer::Block => 400,
            Layer::Fx => 375,
            Layer::Fog => 350,
            Layer::Caption => 300,
        }
    }
}

/// A position on the screen, in pixels.
#[derive(Clone, Copy, Debug, PartialEq, Eq, Hash, Structural)]
pub struct ScreenPos {
    pub x: i32,
    pub y: i32,
}

impl ScreenPos {
    pub fn new(x: i32, y: i32) -> (p: ScreenPos)
        ensures
            p == (ScreenPos { x, y }),
    {
        ScreenPos { x, y }
    }
}

/// One sprite to put on the screen.
#[derive(Clone, Copy, Debug, PartialEq, Eq)]
pub struct DrawOp {
    /// Index of the sprite on the tile sheet.
    pub sprite: usize,
    pub pos: ScreenPos,
    pub layer: Layer,
    pub color: Rgba,
    /// The second color of a two-tone sprite; a sprite without one is
    /// drawn over black.
    pub back_color: Option<Rgba>,
}

/// The back color that goes with black for everything drawn from memory.
pub const REMEMBERED_BACK: Rgba = (0x33, 0x22, 0x00, 0xff);

/// The colors that a sprite is drawn in under `mode`.  A remembered cell
/// loses its colors to one dim pair.  Black is left alone there: it is
/// kept for silhouettes that blot out what is behind them.
pub open spec fn recolored(mode: ViewMode, color: Rgba, back_color: Option<Rgba>) -> (
    Rgba,
    Option<Rgba>,
) {
    if mode == ViewMode::FogOfWar && color != BLACK {
        (BLACK, Some(REMEMBERED_BACK))
    } else {
        (color, back_color)
    }
}

/// Computes the colors that a sprite is drawn in under `mode`.
pub fn recolor(mode: ViewMode, color: Rgba, back_color: Option<Rgba>) -> (pair: (
    Rgba,
    Option<Rgba>,
))
    ensures
        pair == recolored(mode, color, back_color),
        mode == ViewMode::Normal ==> pair == (color, back_color),
        color == BLACK ==> pair == (color, back_color),
        mode == ViewMode::FogOfWar && color != BLACK ==> pair == (BLACK, Some(REMEMBERED_BACK)),
{
    if mode == ViewMode::FogOfWar && !same_color(color, BLACK) {
        (BLACK, Some(REMEMBERED_BACK))
    } else {
        (color, back_color)
    }
}

/// The operation that reaches the screen when `op` is drawn under `mode`.
pub open spec fn shown(mode: ViewMode, op: DrawOp) -> DrawOp {
    let pair = recolored(mode, op.color, op.back_color);
    DrawOp { color: pair.0, back_color: pair.1, ..op }
}

/// The operations that reach the screen when `ops` are drawn under
/// `mode`, in the same order.
pub open spec fn shown_all(mode: ViewMode, ops: Seq<DrawOp>) -> Seq<DrawOp> {
    ops.map_values(|op: DrawOp| shown(mode, op))
}

/// Something that sprites can be drawn on.  It knows the view mode and
/// recolors each sprite for it; nothing else changes a color once a rule
/// has picked it.
pub trait DrawContext {
    /// The view mode that sprites are recolored for.
    spec fn mode(&self) -> ViewMode;

    /// Everything drawn so far, as it reached the screen.
    spec fn drawn(&self) -> Seq<DrawOp>;

    /// Draws sprite `idx` at `pos` on layer `z`.
    fn draw(
        &mut self,
        idx: usize,
        pos: ScreenPos,
        z: Layer,
        color: Rgba,
        back_color: Option<Rgba>,
    )
        ensures
            final(self).mode() == old(self).mode(),
            final(self).drawn() == old(self).drawn().push(
                shown(
                    old(self).mode(),
                    (DrawOp { sprite: idx, pos, layer: z, color, back_color }),
                ),
            ),
    ;

    fn get_mode(&self) -> (m: ViewMode)
        ensures
            m == self.mode(),
    ;
}

/// A draw context that keeps what was drawn in a list, for the caller to
/// put on the screen.
#[derive(Debug)]
pub struct SpriteCollector {
    pub mode: ViewMode,
    pub ops: Vec<DrawOp>,
}

impl SpriteCollector {
    /// An empty collector in normal view.
    pub fn new() -> (c: SpriteCollector)
        ensures
            c.mode == ViewMode::Normal,
            c.ops@ == Seq::<DrawOp>::empty(),
    {
        SpriteCollector { mode: ViewMode::Normal, ops: Vec::new() }
    }
}

impl DrawContext for SpriteCollector {
    open spec fn mode(&self) -> ViewMode {
        self.mode
    }

    open spec fn drawn(&self) -> Seq<DrawOp> {
        self.ops@
    }

    fn draw(
        &mut self,
        idx: usize,
        pos: ScreenPos,
        z: Layer,
        color: Rgba,
        back_color: Option<Rgba>,
    ) {
        let pair = recolor(self.mode, color, back_color);
        self.ops.push(DrawOp { sprite: idx, pos, layer: z, color: pair.0, back_color: pair.1 });
    }

    fn get_mode(&self) -> (m: ViewMode) {
        self.mode
    }
}

/// What a view mode does to a sprite: normal view changes nothing; a
/// remembered cell keeps what is black as it is and shows everything
/// else in black on the remembered back color; no mode changes the
/// sprite, the place or the layer.
pub proof fn lemma_shown_colors(mode: ViewMode, op: DrawOp)
    ensures
        mode == ViewMode::Normal ==> shown(mode, op) == op,
        op.color == BLACK ==> shown(mode, op) == op,
        mode == ViewMode::FogOfWar && op.color != BLACK ==> shown(mode, op).color == BLACK
            && shown(mode, op).back_color == Some(REMEMBERED_BACK),
        shown(mode, op).sprite == op.sprite,
        shown(mode, op).pos == op.pos,
        shown(mode, op).layer == op.layer,
        shown(mode, shown(mode, op)) == shown(mode, op),
{
}

/// Recoloring a list that is made of two parts recolors each part.
pub proof fn lemma_shown_all_add(mode: ViewMode, a: Seq<DrawOp>, b: Seq<DrawOp>)
    ensures
        shown_all(mode, a + b) == shown_all(mode, a) + shown_all(mode, b),
{
    assert(shown_all(mode, a + b) =~= shown_all(mode, a) + shown_all(mode, b));
}

} // verus!
