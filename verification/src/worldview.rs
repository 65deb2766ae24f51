//! Drawing the map: the cells of the chart around the viewer, each with
//! its terrain and what stands on it, as far as the viewer knows them.

use std::collections::HashMap;
use vstd::prelude::*;
use crate::color::{BLACK, FIREBRICK};
use crate::draw::{
    lemma_shown_all_add, shown_all, DrawContext, DrawOp, Layer, ScreenPos, SpriteCollector,
    ViewMode,
};
use crate::entity::{draw_entities, draw_order, entities_ops, Entity};
use crate::kernel::{Kernel, Location};
use crate::resolver::{floor_op, terrain_ops, terrain_sprites};
use crate::terrain::TerrainKind;
use crate::tile::{BLOCK_DARK, CUBE, CURSOR_BOTTOM, CURSOR_TOP};
use crate::wallform::block_op;

verus! {

/// What the viewer knows of a cell that was in sight at some time.
#[derive(Clone, Copy, Debug, PartialEq, Eq, Hash, Structural)]
pub enum FovStatus {
    /// The cell is in sight now.
    Seen,
    /// The cell was in sight earlier and is drawn from memory.
    Remembered,
}

/// A cell of the chart: a position on the map relative to the cell in the
/// middle of the screen.
#[derive(Clone, Copy, Debug, PartialEq, Eq, Hash, Structural)]
pub struct ChartPos {
    pub x: i32,
    pub y: i32,
}

impl ChartPos {
    pub fn new(x: i32, y: i32) -> (c: ChartPos)
        ensures
            c == (ChartPos { x, y }),
    {
        ChartPos { x, y }
    }
}

/// The column of the screen where the chart cell in the middle of the
/// screen is drawn.
pub const CENTER_X: i32 = 320;

/// The row of the screen where the chart cell in the middle of the screen
/// is drawn.
pub const CENTER_Y: i32 = 180;

/// The column of the screen where chart cell `c` is drawn.  One step
/// along the first axis of the chart is 16 pixels to the right and 8
/// down, one step along the second 16 to the left and 8 down.
pub open spec fn screen_x(c: ChartPos) -> int {
    CENTER_X + 16 * c.x - 16 * c.y
}

/// The row of the screen where chart cell `c` is drawn.
pub open spec fn screen_y(c: ChartPos) -> int {
    CENTER_Y + 8 * c.x + 8 * c.y
}

/// Whether the place where chart cell `c` is drawn can be written as a
/// screen position.
pub open spec fn has_screen_pos(c: ChartPos) -> bool {
    &&& i32::MIN <= screen_x(c) <= i32::MAX
    &&& i32::MIN <= screen_y(c) <= i32::MAX
}

/// Whether chart cell `pos` has a screen position.
pub fn is_on_canvas(pos: ChartPos) -> (b: bool)
    ensures
        b == has_screen_pos(pos),
{
    let x: i64 = CENTER_X as i64 + 16 * (pos.x as i64) - 16 * (pos.y as i64);
    let y: i64 = CENTER_Y as i64 + 8 * (pos.x as i64) + 8 * (pos.y as i64);
    -0x8000_0000 <= x && x <= 0x7fff_ffff && -0x8000_0000 <= y && y <= 0x7fff_ffff
}

/// The screen position where chart cell `pos` is drawn.
pub fn to_screen(pos: ChartPos) -> (p: ScreenPos)
    requires
        has_screen_pos(pos),
    ensures
        p.x == screen_x(pos),
        p.y == screen_y(pos),
{
    let x: i64 = CENTER_X as i64 + 16 * (pos.x as i64) - 16 * (pos.y as i64);
    let y: i64 = CENTER_Y as i64 + 8 * (pos.x as i64) + 8 * (pos.y as i64);
    ScreenPos { x: x as i32, y: y as i32 }
}

/// The chart cell that the pixel at `p` belongs to.  The screen is cut
/// into columns 16 pixels wide, and each column into pieces 16 pixels
/// high that lie 8 pixels lower from one column to the next.
pub open spec fn chart_of(p: ScreenPos) -> ChartPos {
    let column = (p.x + 8 - CENTER_X) / 16;
    let row = (p.y - CENTER_Y - column * 8) / 16;
    ChartPos { x: (column + row) as i32, y: row as i32 }
}

/// The largest whole number that is not above `a / 16`.
fn floor_div_16(a: i64) -> (q: i64)
    requires
        -0x1_0000_0000_0000 <= a <= 0x1_0000_0000_0000,
    ensures
        q == a / 16,
{
    if a >= 0 {
        a / 16
    } else {
        -((15 - a) / 16)
    }
}

/// Finds the chart cell that the pixel at `pos` belongs to.
pub fn to_chart(pos: ScreenPos) -> (c: ChartPos)
    ensures
        c == chart_of(pos),
{
    let column = floor_div_16(pos.x as i64 + 8 - CENTER_X as i64);
    let row = floor_div_16(pos.y as i64 - CENTER_Y as i64 - column * 8);
    ChartPos { x: (column + row) as i32, y: row as i32 }
}

/// The pixel where a chart cell is drawn belongs to that cell.
pub proof fn lemma_chart_round_trip(c: ChartPos)
    requires
        has_screen_pos(c),
    ensures
        chart_of(ScreenPos { x: screen_x(c) as i32, y: screen_y(c) as i32 }) == c,
{
}

/// A rectangle of chart cells, its corners included.
#[derive(Clone, Copy, Debug, PartialEq, Eq, Hash, Structural)]
pub struct ChartBounds {
    pub min: ChartPos,
    pub max: ChartPos,
}

impl ChartBounds {
    /// Whether `c` is in the rectangle.
    pub open spec fn contains(self, c: ChartPos) -> bool {
        self.min.x <= c.x <= self.max.x && self.min.y <= c.y <= self.max.y
    }

    /// The smallest rectangle that holds both `a` and `b`.
    pub fn new(a: ChartPos, b: ChartPos) -> (bounds: ChartBounds)
        ensures
            bounds.contains(a),
            bounds.contains(b),
            bounds.min.x == a.x || bounds.min.x == b.x,
            bounds.min.y == a.y || bounds.min.y == b.y,
            bounds.max.x == a.x || bounds.max.x == b.x,
            bounds.max.y == a.y || bounds.max.y == b.y,
    {
        ChartBounds {
            min: ChartPos { x: if a.x < b.x { a.x } else { b.x }, y: if a.y < b.y { a.y } else { b.y } },
            max: ChartPos { x: if a.x < b.x { b.x } else { a.x }, y: if a.y < b.y { b.y } else { a.y } },
        }
    }

    /// The smallest rectangle that holds this rectangle and `c`.
    pub fn grow(self, c: ChartPos) -> (bounds: ChartBounds)
        ensures
            bounds == self.grown(c),
    {
        ChartBounds {
            min: ChartPos {
                x: if c.x < self.min.x { c.x } else { self.min.x },
                y: if c.y < self.min.y { c.y } else { self.min.y },
            },
            max: ChartPos {
                x: if c.x > self.max.x { c.x } else { self.max.x },
                y: if c.y > self.max.y { c.y } else { self.max.y },
            },
        }
    }

    /// The smallest rectangle that holds this rectangle and `c`.
    pub open spec fn grown(self, c: ChartPos) -> ChartBounds {
        ChartBounds {
            min: ChartPos {
                x: if c.x < self.min.x { c.x } else { self.min.x },
                y: if c.y < self.min.y { c.y } else { self.min.y },
            },
            max: ChartPos {
                x: if c.x > self.max.x { c.x } else { self.max.x },
                y: if c.y > self.max.y { c.y } else { self.max.y },
            },
        }
    }

    /// The number of cells in a row of the rectangle.
    pub open spec fn width(self) -> nat {
        if self.min.x <= self.max.x {
            (self.max.x - self.min.x + 1) as nat
        } else {
            0
        }
    }

    /// The cells of row `y` of the rectangle, from left to right.
    pub open spec fn row(self, y: int) -> Seq<ChartPos> {
        Seq::new(self.width(), |i: int| ChartPos { x: (self.min.x + i) as i32, y: y as i32 })
    }

    /// The cells of the first `rows` rows of the rectangle, row by row.
    pub open spec fn rows(self, rows: int) -> Seq<ChartPos>
        decreases rows,
    {
        if rows <= 0 {
            Seq::empty()
        } else {
            self.rows(rows - 1) + self.row(self.min.y + rows - 1)
        }
    }

    /// The cells of the rectangle, row by row.
    pub open spec fn cells(self) -> Seq<ChartPos> {
        self.rows(self.max.y - self.min.y + 1)
    }

    /// The first rows of a rectangle hold the cells of the rectangle
    /// that are in those rows, and no other.
    pub proof fn lemma_rows_hold_their_cells(self, rows: int, c: ChartPos)
        requires
            rows <= self.max.y - self.min.y + 1,
        ensures
            self.rows(rows).contains(c) <==> self.min.x <= c.x <= self.max.x && self.min.y <= c.y
                < self.min.y + rows,
        decreases rows,
    {
        if rows <= 0 {
            assert(self.rows(rows) =~= Seq::<ChartPos>::empty());
        } else {
            let before = self.rows(rows - 1);
            let last = self.row(self.min.y + rows - 1);
            self.lemma_rows_hold_their_cells(rows - 1, c);
            if before.contains(c) {
                let i = choose|i: int| 0 <= i < before.len() && before[i] == c;
                assert((before + last)[i] == c);
            }
            if self.min.x <= c.x <= self.max.x && c.y == self.min.y + rows - 1 {
                assert(last[c.x - self.min.x] == c);
                assert((before + last)[before.len() + (c.x - self.min.x)] == c);
            }
            if (before + last).contains(c) {
                let i = choose|i: int| 0 <= i < (before + last).len() && (before + last)[i] == c;
                if i < before.len() {
                    assert(before[i] == c);
                } else {
                    assert(last[i - before.len()] == c);
                }
            }
        }
    }

    /// A rectangle whose corners are the wrong way round has no cells.
    pub proof fn lemma_no_width_no_cells(self, rows: int)
        requires
            self.min.x > self.max.x || rows <= 0,
        ensures
            self.rows(rows) == Seq::<ChartPos>::empty(),
        decreases rows,
    {
        if rows > 0 {
            self.lemma_no_width_no_cells(rows - 1);
            assert(self.rows(rows) =~= Seq::<ChartPos>::empty());
        }
    }

    /// The cells of a rectangle are the cells that it contains.
    pub proof fn lemma_cells_are_contained(self, c: ChartPos)
        ensures
            self.cells().contains(c) <==> self.contains(c),
    {
        self.lemma_rows_hold_their_cells(self.max.y - self.min.y + 1, c);
    }

    /// Lists the cells of the rectangle, row by row.
    pub fn list(self) -> (cells: Vec<ChartPos>)
        ensures
            cells@ == self.cells(),
    {
        let mut cells: Vec<ChartPos> = Vec::new();
        if self.min.x > self.max.x || self.min.y > self.max.y {
            proof {
                self.lemma_no_width_no_cells(self.max.y - self.min.y + 1);
            }
            return cells;
        }
        let mut y: i64 = self.min.y as i64;
        while y <= self.max.y as i64
            invariant
                self.min.x <= self.max.x,
                self.min.y <= y <= self.max.y + 1,
                cells@ == self.rows(y - self.min.y),
            decreases self.max.y + 1 - y,
        {
            let mut x: i64 = self.min.x as i64;
            let ghost before = cells@;
            while x <= self.max.x as i64
                invariant
                    self.min.x <= x <= self.max.x + 1,
                    self.min.y <= y <= self.max.y,
                    cells@ == before + self.row(y as int).take(x - self.min.x),
                decreases self.max.x + 1 - x,
            {
                cells.push(ChartPos { x: x as i32, y: y as i32 });
                assert(cells@ =~= before + self.row(y as int).take(x - self.min.x + 1));
                x += 1;
            }
            assert(self.row(y as int).take(self.max.x - self.min.x + 1) =~= self.row(y as int));
            y += 1;
        }
        cells
    }
}

/// The rectangle of chart cells around the cells of the four corners of
/// a screen that is `width` pixels wide and `height` pixels high.
pub open spec fn bounds_of_screen(width: u16, height: u16) -> ChartBounds {
    let top_left = chart_of(ScreenPos { x: 0, y: 0 });
    let bottom_right = chart_of(ScreenPos { x: width as i32, y: height as i32 });
    let top_right = chart_of(ScreenPos { x: width as i32, y: 0 });
    let bottom_left = chart_of(ScreenPos { x: 0, y: height as i32 });
    ChartBounds {
        min: ChartPos { x: top_left.x, y: top_right.y },
        max: ChartPos { x: bottom_right.x, y: bottom_left.y },
    }
}

/// Finds the rectangle of chart cells around the cells of the four
/// corners of the screen.
pub fn chart_bounds(width: u16, height: u16) -> (bounds: ChartBounds)
    ensures
        bounds == bounds_of_screen(width, height),
        bounds.min.x <= bounds.max.x,
        bounds.min.y <= bounds.max.y,
{
    let bounds = ChartBounds::new(
        to_chart(ScreenPos { x: 0, y: 0 }),
        to_chart(ScreenPos { x: width as i32, y: height as i32 }),
    );
    let bounds = bounds.grow(to_chart(ScreenPos { x: width as i32, y: 0 }));
    bounds.grow(to_chart(ScreenPos { x: 0, y: height as i32 }))
}

/// Lists the chart cells that may show on a screen that is `width`
/// pixels wide and `height` pixels high, row by row.
pub fn cells_on_screen(width: u16, height: u16) -> (cells: Vec<ChartPos>)
    ensures
        cells@ == bounds_of_screen(width, height).cells(),
{
    chart_bounds(width, height).list()
}

/// Every pixel of the screen belongs to a chart cell in the rectangle
/// around the cells of its corners: the first chart axis grows to the
/// right and down the screen, the second to the left and down.
pub proof fn lemma_screen_is_covered(width: u16, height: u16, p: ScreenPos)
    requires
        0 <= p.x <= width,
        0 <= p.y <= height,
    ensures
        bounds_of_screen(width, height).contains(chart_of(p)),
        bounds_of_screen(width, height).cells().contains(chart_of(p)),
{
    let bounds = bounds_of_screen(width, height);
    assert(bounds.contains(chart_of(p)));
    bounds.lemma_cells_are_contained(chart_of(p));
}

/// The map location that shows at chart cell `at` while the location
/// `center` shows in the middle of the screen.
pub open spec fn location_of(center: Location, at: ChartPos) -> Location {
    center.neighbor(at.x as int, at.y as int)
}

/// Finds the map location that shows at chart cell `at`.
pub fn location_at(center: Location, at: ChartPos) -> (loc: Location)
    ensures
        loc == location_of(center, at),
{
    center.moved(at.x, at.y)
}

/// The view mode that a cell with the given status is drawn in.
pub open spec fn mode_of(fov: Option<FovStatus>) -> ViewMode {
    if fov == Some(FovStatus::Remembered) {
        ViewMode::FogOfWar
    } else {
        ViewMode::Normal
    }
}

/// What is behind a cell that was never in sight, from its two rear
/// neighbours: whether the cell is in front of a wall, and whether it is
/// in front of a door, which is a wall that can be walked through.
pub open spec fn classified(nw: TerrainKind, ne: TerrainKind) -> (bool, bool) {
    (
        nw.is_wall() || ne.is_wall(),
        (nw.is_wall() && !nw.blocks_walk()) || (ne.is_wall() && !ne.blocks_walk()),
    )
}

/// Classifies a cell that was never in sight by its two rear neighbours.
pub fn classify(nw: TerrainKind, ne: TerrainKind) -> (class: (bool, bool))
    ensures
        class == classified(nw, ne),
{
    let mut front_of_wall = false;
    let mut is_door = false;
    if nw.is_wall() {
        front_of_wall = true;
        if !nw.blocks_walk() {
            is_door = true;
        }
    }
    if ne.is_wall() {
        front_of_wall = true;
        if !ne.blocks_walk() {
            is_door = true;
        }
    }
    (front_of_wall, is_door)
}

/// The operations that draw a cell that was never in sight.  In front of
/// a wall it is the black cube, so that the wall does not show through.
/// In front of a door it is nothing, so that the door does.  In the open
/// it is the dark block.
pub open spec fn unseen_ops(k: Kernel<TerrainKind>, pos: ScreenPos) -> Seq<DrawOp> {
    let class = classified(k.nw, k.ne);
    if class.0 && !class.1 {
        seq![block_op(CUBE, pos, BLACK)]
    } else if !class.0 {
        seq![block_op(BLOCK_DARK, pos, BLACK)]
    } else {
        Seq::<DrawOp>::empty()
    }
}

/// The moment that a frame is drawn for.
#[derive(Clone, Copy, Debug, PartialEq, Eq, Hash, Structural)]
pub struct FrameTime {
    /// Milliseconds since the start.
    pub millis: u64,
    /// The brightness of portals at this moment.
    pub glow: u8,
}

/// One cell of the map, as the viewer knows it, ready to be drawn.
#[derive(Debug)]
pub struct CellDrawable {
    pub loc: Location,
    pub fov: Option<FovStatus>,
    /// The terrain at `loc` and around it.
    pub kernel: Kernel<TerrainKind>,
    /// The things at `loc`, in the order they are stored in.
    pub entities: Vec<Entity>,
}

impl CellDrawable {
    pub fn new(
        loc: Location,
        fov: Option<FovStatus>,
        kernel: Kernel<TerrainKind>,
        entities: Vec<Entity>,
    ) -> (cell: CellDrawable)
        ensures
            cell == (CellDrawable { loc, fov, kernel, entities }),
    {
        CellDrawable { loc, fov, kernel, entities }
    }

    /// The operations that depict a cell that is or was in sight, before
    /// the view mode recolors them: the terrain, and on it, while the
    /// cell is in sight, the things that stand there.
    pub open spec fn known_ops(
        self,
        pos: ScreenPos,
        damage_timers: Map<u64, u32>,
        time: FrameTime,
    ) -> Seq<DrawOp> {
        let terrain = terrain_ops(self.kernel, pos, time.glow);
        if self.fov == Some(FovStatus::Seen) {
            terrain + entities_ops(
                draw_order(self.entities@),
                pos,
                damage_timers,
                time.millis,
            )
        } else {
            terrain
        }
    }

    /// The operations that depict the cell before the view mode recolors
    /// them.
    pub open spec fn ops(
        self,
        pos: ScreenPos,
        damage_timers: Map<u64, u32>,
        time: FrameTime,
    ) -> Seq<DrawOp> {
        if self.fov is None {
            unseen_ops(self.kernel, pos)
        } else {
            self.known_ops(pos, damage_timers, time)
        }
    }

    /// The operations that reach the screen for the cell.
    pub open spec fn shown_ops(
        self,
        pos: ScreenPos,
        damage_timers: Map<u64, u32>,
        time: FrameTime,
    ) -> Seq<DrawOp> {
        shown_all(mode_of(self.fov), self.ops(pos, damage_timers, time))
    }

    /// Draws the terrain of the cell and, while the cell is in sight,
    /// the things that stand on it.
    pub fn draw_cell<C: DrawContext>(
        &self,
        ctx: &mut C,
        offset: ScreenPos,
        damage_timers: &HashMap<u64, u32>,
        time: FrameTime,
    )
        requires
            offset.y > i32::MIN,
        ensures
            final(ctx).mode() == old(ctx).mode(),
            final(ctx).drawn() == old(ctx).drawn() + shown_all(
                old(ctx).mode(),
                self.known_ops(offset, damage_timers@, time),
            ),
    {
        terrain_sprites(ctx, &self.kernel, offset, time.glow);
        match self.fov {
            Some(FovStatus::Seen) => {
                draw_entities(ctx, offset, &self.entities, damage_timers, time.millis);
                proof {
                    lemma_shown_all_add(
                        old(ctx).mode(),
                        terrain_ops(self.kernel, offset, time.glow),
                        entities_ops(
                            draw_order(self.entities@),
                            offset,
                            damage_timers@,
                            time.millis,
                        ),
                    );
                }
            },
            _ => {},
        }
    }

    /// Draws the cell at `offset`, in the view mode that goes with what
    /// the viewer knows of it.
    pub fn draw(
        &self,
        ctx: &mut SpriteCollector,
        offset: ScreenPos,
        damage_timers: &HashMap<u64, u32>,
        time: FrameTime,
    )
        requires
            offset.y > i32::MIN,
        ensures
            final(ctx).mode == mode_of(self.fov),
            final(ctx).ops@ == old(ctx).ops@ + self.shown_ops(offset, damage_timers@, time),
    {
        match self.fov {
            Some(status) => {
                ctx.mode = match status {
                    FovStatus::Seen => ViewMode::Normal,
                    FovStatus::Remembered => ViewMode::FogOfWar,
                };
                self.draw_cell(ctx, offset, damage_timers, time);
            },
            None => {
                ctx.mode = ViewMode::Normal;
                let (front_of_wall, is_door) = classify(self.kernel.nw, self.kernel.ne);
                if front_of_wall && !is_door {
                    ctx.draw(CUBE, offset, Layer::Block, BLACK, None);
                } else if !front_of_wall {
                    ctx.draw(BLOCK_DARK, offset, Layer::Block, BLACK, None);
                }
                assert(ctx.ops@ =~= old(ctx).ops@ + self.shown_ops(offset, damage_timers@, time));
            },
        }
    }
}

/// The operations that reach the screen for the first `n` of `cells`,
/// each drawn where its chart position puts it.
pub open spec fn world_ops(
    cells: Seq<(ChartPos, CellDrawable)>,
    n: int,
    damage_timers: Map<u64, u32>,
    time: FrameTime,
) -> Seq<DrawOp>
    decreases n,
{
    if n <= 0 {
        Seq::<DrawOp>::empty()
    } else {
        let (at, cell) = cells[n - 1];
        world_ops(cells, n - 1, damage_timers, time) + cell.shown_ops(
            ScreenPos { x: screen_x(at) as i32, y: screen_y(at) as i32 },
            damage_timers,
            time,
        )
    }
}

/// Whether chart cell `c` is drawn at a screen position that leaves room
/// above it for what bobs there.
pub open spec fn drawable_at(c: ChartPos) -> bool {
    has_screen_pos(c) && screen_y(c) > i32::MIN
}

/// Draws the cells of the chart one after another.
pub fn draw_world(
    cells: &Vec<(ChartPos, CellDrawable)>,
    ctx: &mut SpriteCollector,
    damage_timers: &HashMap<u64, u32>,
    time: FrameTime,
)
    requires
        forall|i: int| 0 <= i < cells@.len() ==> drawable_at(#[trigger] cells@[i].0),
    ensures
        final(ctx).ops@ == old(ctx).ops@ + world_ops(
            cells@,
            cells@.len() as int,
            damage_timers@,
            time,
        ),
        final(ctx).mode == if cells@.len() == 0 {
            old(ctx).mode
        } else {
            mode_of(cells@.last().1.fov)
        },
{
    let mut i: usize = 0;
    while i < cells.len()
        invariant
            i <= cells.len(),
            forall|j: int| 0 <= j < cells@.len() ==> drawable_at(#[trigger] cells@[j].0),
            ctx.ops@ == old(ctx).ops@ + world_ops(cells@, i as int, damage_timers@, time),
            ctx.mode == if i == 0 {
                old(ctx).mode
            } else {
                mode_of(cells@[i - 1].1.fov)
            },
        decreases cells.len() - i,
    {
        let pos = to_screen(cells[i].0);
        cells[i].1.draw(ctx, pos, damage_timers, time);
        i += 1;
    }
}

/// The operations that draw the cursor on chart cell `c`: its lower half
/// on the floor and its upper half over what stands in the cell.
pub open spec fn cursor_ops(c: ChartPos) -> Seq<DrawOp> {
    let pos = ScreenPos { x: screen_x(c) as i32, y: screen_y(c) as i32 };
    seq![floor_op(CURSOR_BOTTOM, pos, FIREBRICK), block_op(CURSOR_TOP, pos, FIREBRICK)]
}

/// Draws the cursor on the chart cell under the mouse, which is at
/// `mouse`, and returns that cell.
pub fn draw_mouse<C: DrawContext>(ctx: &mut C, mouse: ScreenPos) -> (cursor: ChartPos)
    requires
        has_screen_pos(chart_of(mouse)),
    ensures
        cursor == chart_of(mouse),
        final(ctx).mode() == old(ctx).mode(),
        final(ctx).drawn() == old(ctx).drawn() + shown_all(old(ctx).mode(), cursor_ops(cursor)),
{
    let cursor = to_chart(mouse);
    let pos = to_screen(cursor);
    ctx.draw(CURSOR_BOTTOM, pos, Layer::Floor, FIREBRICK, None);
    ctx.draw(CURSOR_TOP, pos, Layer::Block, FIREBRICK, None);
    assert(ctx.drawn() =~= old(ctx).drawn() + shown_all(old(ctx).mode(), cursor_ops(cursor)));
    cursor
}

/// The chart cell of a pixel is drawn less than 16 pixels away from that
/// pixel, so it has a screen position unless the pixel is at the very
/// edge of what can be written as one.
pub proof fn lemma_chart_is_near(p: ScreenPos)
    ensures
        p.x - 7 <= screen_x(chart_of(p)) <= p.x + 8,
        p.y - 15 <= screen_y(chart_of(p)) <= p.y,
        p.x <= i32::MAX - 8 && p.y >= i32::MIN + 15 ==> has_screen_pos(chart_of(p)),
{
}

} // verus!
