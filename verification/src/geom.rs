//! Where the parts of a sprite are cut from a texture sheet and where
//! they are put, for the common shapes of sprite.
//!
//! A sprite is drawn 32 pixels wide around the point it is put at, so
//! its left edge is 16 pixels to the left of that point.  The shapes that
//! are put together from narrower parts cut each part from a cell of 32
//! by 32 pixels on the sheet and hang it where it was in its cell.

use vstd::prelude::*;

verus! {

/// The point of a sprite part that goes on the place the sprite is drawn
/// at, in pixels from the top left corner of the part.
#[derive(Clone, Copy, Debug, PartialEq, Eq, Hash, Structural)]
pub struct Point {
    pub x: i32,
    pub y: i32,
}

/// A rectangle of pixels on a texture sheet.
#[derive(Clone, Copy, Debug, PartialEq, Eq, Hash, Structural)]
pub struct Rect {
    pub x: u32,
    pub y: u32,
    pub width: u32,
    pub height: u32,
}

/// One part of a sprite: a rectangle on the sheet and the point it hangs
/// by.
#[derive(Clone, Copy, Debug, PartialEq, Eq, Hash, Structural)]
pub struct Geom {
    pub offset: Point,
    pub bounds: Rect,
}

/// The width and the height of a cell on the sheet.
pub const CELL: u32 = 32;

/// The part of a sheet cell that starts `dx` pixels into the cell whose
/// left edge is at column `cell_x`, is `width` pixels wide and as high as
/// the cell, hung where it was in its cell.
pub open spec fn cell_part(cell_x: int, y: u32, dx: int, width: int) -> Geom {
    Geom {
        offset: Point { x: (16 - dx) as i32, y: 16 },
        bounds: Rect { x: (cell_x + dx) as u32, y, width: width as u32, height: CELL },
    }
}

/// The whole sheet cell at `(x, y)`.
pub open spec fn tile_geom(x: u32, y: u32) -> Geom {
    cell_part(x as int, y, 0, 32)
}

/// Part `i` of the six that a strip of vertical edges at `(x, y)` is cut
/// into: the left and the right half of each of its three cells.
pub open spec fn half_part(i: int, x: u32, y: u32) -> Geom {
    cell_part(x + 32 * (i / 2), y, 16 * (i % 2), 16)
}

/// How far into its cell slice `p` of the four slices of a cell starts;
/// for `p` of four, where the last slice ends.
pub open spec fn slice_start(p: int) -> int {
    if p == 0 {
        0
    } else if p == 1 {
        10
    } else if p == 2 {
        16
    } else if p == 3 {
        22
    } else {
        32
    }
}

/// Part `i` of the twelve that a strip of blob faces at `(x, y)` is cut
/// into: each of its three cells in four slices, a wide one at each side
/// and two narrow ones at the front.
pub open spec fn slice_part(i: int, x: u32, y: u32) -> Geom {
    let p = i % 4;
    cell_part(x + 32 * (i / 4), y, slice_start(p), slice_start(p + 1) - slice_start(p))
}

/// The six halves of the three cells of the strip at `(x, y)`.
pub open spec fn strip_halves(x: u32, y: u32) -> Seq<Geom> {
    Seq::new(6, |i: int| half_part(i, x, y))
}

/// The twelve slices of the three cells of the strip at `(x, y)`.
pub open spec fn strip_slices(x: u32, y: u32) -> Seq<Geom> {
    Seq::new(12, |i: int| slice_part(i, x, y))
}

/// The thirty parts of a blob: the vertical edges, the rear faces and the
/// front faces.  Each comes from a strip of three cells: in the first cell
/// the plain shape, in the second the shape that slopes along the one
/// axis, in the third the shape that slopes along the other.
pub open spec fn blob_geoms(
    vert_x: u32,
    vert_y: u32,
    rear_x: u32,
    rear_y: u32,
    x: u32,
    y: u32,
) -> Seq<Geom> {
    strip_halves(vert_x, vert_y) + strip_slices(rear_x, rear_y) + strip_slices(x, y)
}

/// The four parts of a wall: the two halves of the cell with the center
/// pillar, then the two halves of the cell with the long sides.
pub open spec fn wall_geoms(center_x: u32, center_y: u32, sides_x: u32, sides_y: u32) -> Seq<
    Geom,
> {
    strip_halves(center_x, center_y).take(2) + strip_halves(sides_x, sides_y).take(2)
}

/// Cuts the three cells of the strip at `(x, y)` in halves.
fn halves(x: u32, y: u32) -> (geoms: Vec<Geom>)
    requires
        x + 80 <= u32::MAX,
    ensures
        geoms@ == strip_halves(x, y),
{
    let geoms = vec![
        Geom::new(16, 16, x, y, 16, 32),
        Geom::new(0, 16, x + 16, y, 16, 32),
        Geom::new(16, 16, x + 32, y, 16, 32),
        Geom::new(0, 16, x + 48, y, 16, 32),
        Geom::new(16, 16, x + 64, y, 16, 32),
        Geom::new(0, 16, x + 80, y, 16, 32),
    ];
    assert(geoms@ =~= strip_halves(x, y));
    geoms
}

/// Cuts the three cells of the strip at `(x, y)` in slices.
fn slices(x: u32, y: u32) -> (geoms: Vec<Geom>)
    requires
        x + 86 <= u32::MAX,
    ensures
        geoms@ == strip_slices(x, y),
{
    let geoms = vec![
        Geom::new(16, 16, x, y, 10, 32),
        Geom::new(6, 16, x + 10, y, 6, 32),
        Geom::new(0, 16, x + 16, y, 6, 32),
        Geom::new(-6, 16, x + 22, y, 10, 32),
        Geom::new(16, 16, x + 32, y, 10, 32),
        Geom::new(6, 16, x + 42, y, 6, 32),
        Geom::new(0, 16, x + 48, y, 6, 32),
        Geom::new(-6, 16, x + 54, y, 10, 32),
        Geom::new(16, 16, x + 64, y, 10, 32),
        Geom::new(6, 16, x + 74, y, 6, 32),
        Geom::new(0, 16, x + 80, y, 6, 32),
        Geom::new(-6, 16, x + 86, y, 10, 32),
    ];
    assert(geoms@ =~= strip_slices(x, y));
    geoms
}

/// Every part of a strip hangs where it was in its cell: it is as high
/// as the cell and hangs by the middle of the cell's upper half, and the
/// point it hangs by is as far left of the middle of the cell as the part
/// starts right of the cell's left edge.
pub proof fn lemma_parts_hang_in_place(x: u32, y: u32, i: int)
    requires
        x + 86 <= u32::MAX,
    ensures
        0 <= i < 6 ==> hangs_in_place(strip_halves(x, y)[i], x, y),
        0 <= i < 12 ==> hangs_in_place(strip_slices(x, y)[i], x, y),
{
}

/// Whether `part` is cut from the row of cells that starts at `(x, y)`
/// and hangs where it was in its cell.
pub open spec fn hangs_in_place(part: Geom, x: u32, y: u32) -> bool {
    &&& part.bounds.y == y
    &&& part.bounds.height == CELL
    &&& part.bounds.x >= x
    &&& part.offset.y == 16
    &&& part.offset.x == 16 - (part.bounds.x - x) % 32
}

/// The parts of a strip lie side by side and cover the strip: the first
/// starts where the strip starts, each next one starts where the one
/// before it ends, and the last ends where the strip's third cell ends.
pub proof fn lemma_parts_cover_strip(x: u32, y: u32)
    requires
        x + 96 <= u32::MAX,
    ensures
        strip_halves(x, y)[0].bounds.x == x,
        forall|i: int|
            #![trigger strip_halves(x, y)[i]]
            0 <= i < 5 ==> strip_halves(x, y)[i + 1].bounds.x == strip_halves(x, y)[i].bounds.x
                + strip_halves(x, y)[i].bounds.width,
        strip_halves(x, y)[5].bounds.x + strip_halves(x, y)[5].bounds.width == x + 3 * CELL,
        strip_slices(x, y)[0].bounds.x == x,
        forall|i: int|
            #![trigger strip_slices(x, y)[i]]
            0 <= i < 11 ==> strip_slices(x, y)[i + 1].bounds.x == strip_slices(x, y)[i].bounds.x
                + strip_slices(x, y)[i].bounds.width,
        strip_slices(x, y)[11].bounds.x + strip_slices(x, y)[11].bounds.width == x + 3 * CELL,
{
    assert forall|i: int| 0 <= i < 11 implies #[trigger] strip_slices(x, y)[i + 1].bounds.x
        == strip_slices(x, y)[i].bounds.x + strip_slices(x, y)[i].bounds.width by {
        if i % 4 == 3 {
            assert((i + 1) % 4 == 0);
            assert((i + 1) / 4 == i / 4 + 1);
        } else {
            assert((i + 1) % 4 == i % 4 + 1);
            assert((i + 1) / 4 == i / 4);
        }
    }
}

/// A blob has thirty parts and a wall has four.
pub proof fn lemma_part_counts(a: (u32, u32), b: (u32, u32), c: (u32, u32))
    ensures
        blob_geoms(a.0, a.1, b.0, b.1, c.0, c.1).len() == 30,
        wall_geoms(a.0, a.1, b.0, b.1).len() == 4,
{
}

impl Geom {
    /// The part that is cut from the rectangle at `(orig_x, orig_y)` of
    /// the given size and hangs by the point `(offset_x, offset_y)`.
    pub fn new(
        offset_x: i32,
        offset_y: i32,
        orig_x: u32,
        orig_y: u32,
        width: u32,
        height: u32,
    ) -> (g: Geom)
        ensures
            g == (Geom {
                offset: Point { x: offset_x, y: offset_y },
                bounds: Rect { x: orig_x, y: orig_y, width, height },
            }),
    {
        Geom {
            offset: Point { x: offset_x, y: offset_y },
            bounds: Rect { x: orig_x, y: orig_y, width, height },
        }
    }

    /// The one part of a sprite that is a whole sheet cell.
    pub fn tile(x: u32, y: u32) -> (g: Option<Geom>)
        ensures
            g == Some(tile_geom(x, y)),
    {
        Some(Geom::new(16, 16, x, y, 32, 32))
    }

    /// The parts of a blob whose vertical edges are in the strip at
    /// `(vert_x, vert_y)`, whose rear faces are in the strip at
    /// `(rear_x, rear_y)` and whose front faces are in the strip at
    /// `(x, y)`.  A strip is three cells wide.
    pub fn blob(vert_x: u32, vert_y: u32, rear_x: u32, rear_y: u32, x: u32, y: u32) -> (geoms: Vec<
        Geom,
    >)
        requires
            vert_x + 80 <= u32::MAX,
            rear_x + 86 <= u32::MAX,
            x + 86 <= u32::MAX,
        ensures
            geoms@ == blob_geoms(vert_x, vert_y, rear_x, rear_y, x, y),
    {
        let mut geoms = halves(vert_x, vert_y);
        let mut rear = slices(rear_x, rear_y);
        let mut front = slices(x, y);
        geoms.append(&mut rear);
        geoms.append(&mut front);
        geoms
    }

    /// The parts of a wall whose center pillar is in the cell at
    /// `(center_x, center_y)` and whose long sides are in the cell at
    /// `(sides_x, sides_y)`.
    pub fn wall(center_x: u32, center_y: u32, sides_x: u32, sides_y: u32) -> (geoms: Vec<Geom>)
        requires
            center_x + 16 <= u32::MAX,
            sides_x + 16 <= u32::MAX,
        ensures
            geoms@ == wall_geoms(center_x, center_y, sides_x, sides_y),
    {
        let geoms = vec![
            Geom::new(16, 16, center_x, center_y, 16, 32),
            Geom::new(0, 16, center_x + 16, center_y, 16, 32),
            Geom::new(16, 16, sides_x, sides_y, 16, 32),
            Geom::new(0, 16, sides_x + 16, sides_y, 16, 32),
        ];
        assert(geoms@ =~= wall_geoms(center_x, center_y, sides_x, sides_y));
        geoms
    }
}

} // verus!
