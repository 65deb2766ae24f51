//! Brushes: the frames of a sprite, each a stack of tinted parts of a
//! texture sheet, and the builder that composes them.
//!
//! The builder collects columns of splats.  A column is one layer of the
//! sprite in each of its frames; all columns that are up for merging have
//! one splat per frame.  Merging turns the columns into frames: frame `i`
//! is the stack of the splats at place `i` of every column, in the order
//! the columns were added.

use std::rc::Rc;
use vstd::prelude::*;
use crate::color::{Rgba, BLACK, WHITE};
use crate::geom::{blob_geoms, tile_geom, wall_geoms, Geom, Point, Rect};

verus! {

broadcast use vstd::string::to_string_from_display_ensures_for_str;

/// The key that the texture atlas finds a part of a sheet by.
#[derive(Debug, PartialEq, Eq, Hash)]
pub struct SubImageSpec {
    pub sheet_name: String,
    pub bounds: Rect,
}

impl Clone for SubImageSpec {
    fn clone(&self) -> (copy: SubImageSpec)
        ensures
            copy == *self,
    {
        SubImageSpec { sheet_name: self.sheet_name.clone(), bounds: self.bounds }
    }
}

/// One layer of one frame, in one color on one back color.
#[derive(Debug, PartialEq, Eq, Hash)]
pub struct Splat {
    pub image: SubImageSpec,
    pub offset: Point,
    pub color: Rgba,
    pub back_color: Rgba,
}

/// What a splat says: the part of which sheet, hung by which point, in
/// which colors.
pub struct SplatView {
    pub sheet_name: Seq<char>,
    pub bounds: Rect,
    pub offset: Point,
    pub color: Rgba,
    pub back_color: Rgba,
}

impl View for Splat {
    type V = SplatView;

    open spec fn view(&self) -> SplatView {
        SplatView {
            sheet_name: self.image.sheet_name@,
            bounds: self.image.bounds,
            offset: self.offset,
            color: self.color,
            back_color: self.back_color,
        }
    }
}

impl Clone for Splat {
    fn clone(&self) -> (copy: Splat)
        ensures
            copy == *self,
    {
        Splat {
            image: self.image.clone(),
            offset: self.offset,
            color: self.color,
            back_color: self.back_color,
        }
    }
}

/// The splat that shows `geom` of the sheet called `sheet` in the given
/// colors.
pub open spec fn splat_of(geom: Geom, sheet: Seq<char>, color: Rgba, back_color: Rgba) -> SplatView {
    SplatView { sheet_name: sheet, bounds: geom.bounds, offset: geom.offset, color, back_color }
}

impl Splat {
    /// The splat that shows `geom` of the sheet called `sheet` in the
    /// given colors.
    pub fn new(geom: &Geom, sheet: String, color: Rgba, back_color: Rgba) -> (splat: Splat)
        ensures
            splat@ == splat_of(*geom, sheet@, color, back_color),
    {
        Splat {
            image: SubImageSpec { sheet_name: sheet, bounds: geom.bounds },
            offset: geom.offset,
            color: color,
            back_color: back_color,
        }
    }
}

/// A stack of splats that make up one picture.
pub type Frame = Vec<Splat>;

/// The frames of a sprite.
pub type Brush = Vec<Frame>;

/// What the splats of a stack say, in order.
pub open spec fn frame_view(frame: Seq<Splat>) -> Seq<SplatView> {
    frame.map_values(|splat: Splat| splat@)
}

/// What the splats of a list of stacks say, stack by stack.
pub open spec fn brush_view(brush: Seq<Vec<Splat>>) -> Seq<Seq<SplatView>> {
    brush.map_values(|frame: Vec<Splat>| frame_view(frame@))
}

/// The rows of a grid that is given by its columns, all as long as the
/// first: row `i` holds place `i` of every column, in the order of the
/// columns.
pub open spec fn transposed<A>(columns: Seq<Seq<A>>) -> Seq<Seq<A>> {
    if columns.len() == 0 {
        Seq::empty()
    } else {
        Seq::new(columns[0].len(), |i: int| Seq::new(columns.len(), |j: int| columns[j][i]))
    }
}

/// Whether all columns are as long as the first.
pub open spec fn rectangular<A>(columns: Seq<Seq<A>>) -> bool {
    forall|j: int| 0 <= j < columns.len() ==> (#[trigger] columns[j]).len() == columns[0].len()
}

/// The state of a builder.
pub struct BuilderView {
    pub color: Rgba,
    pub back_color: Rgba,
    pub sheet_name: Seq<char>,
    /// The columns that are up for merging, in the order they were added.
    pub matrix: Seq<Seq<SplatView>>,
    /// The frames that were merged so far.
    pub brush: Seq<Seq<SplatView>>,
}

impl BuilderView {
    /// Whether a column of `frames` splats can be added: any column can
    /// while none is up for merging, and after that only one as long as
    /// the first.
    pub open spec fn accepts(self, frames: nat) -> bool {
        self.matrix.len() == 0 || frames == self.matrix[0].len()
    }

    /// The column that `geoms` make with the sheet and the colors that
    /// are set.
    pub open spec fn column(self, geoms: Seq<Geom>) -> Seq<SplatView> {
        geoms.map_values(
            |geom: Geom| splat_of(geom, self.sheet_name, self.color, self.back_color),
        )
    }

    /// The state after the column that `geoms` make was added.
    pub open spec fn with_column(self, geoms: Seq<Geom>) -> BuilderView {
        BuilderView { matrix: self.matrix.push(self.column(geoms)), ..self }
    }

    /// The state after a merge: the rows of the columns are added to the
    /// frames, and no column is up for merging.
    pub open spec fn merged(self) -> BuilderView {
        BuilderView {
            matrix: Seq::empty(),
            brush: self.brush + transposed(self.matrix),
            ..self
        }
    }

    /// The brush that the builder has made: its frames, after a merge of
    /// the columns that are still up for it.
    pub open spec fn finished(self) -> Seq<Seq<SplatView>> {
        if self.matrix.len() > 0 {
            self.merged().brush
        } else {
            self.brush
        }
    }
}

/// Why a step of the composition cannot be done.
#[derive(Clone, Copy, Debug, PartialEq, Eq, Hash, Structural)]
pub enum BrushError {
    /// The column has another number of splats than the columns that are
    /// up for merging.
    FrameCountMismatch { expected: usize, actual: usize },
    /// No column is up for merging.
    NothingToMerge,
    /// The brush has no frame.
    EmptyBrush,
}

/// Composes a brush from parts of one texture sheet.
pub struct Builder {
    color: Rgba,
    back_color: Rgba,
    sheet_name: String,
    splat_matrix: Vec<Vec<Splat>>,
    brush: Brush,
}

impl View for Builder {
    type V = BuilderView;

    closed spec fn view(&self) -> BuilderView {
        BuilderView {
            color: self.color,
            back_color: self.back_color,
            sheet_name: self.sheet_name@,
            matrix: brush_view(self.splat_matrix@),
            brush: brush_view(self.brush@),
        }
    }
}

impl Builder {
    #[verifier::type_invariant]
    spec fn columns_match(self) -> bool {
        rectangular(brush_view(self.splat_matrix@))
    }

    /// A builder for the sheet called `sheet_name`, set to white on
    /// black, with no column and no frame.
    pub fn new(sheet_name: &str) -> (builder: Builder)
        ensures
            builder@ == (BuilderView {
                color: WHITE,
                back_color: BLACK,
                sheet_name: sheet_name@,
                matrix: Seq::empty(),
                brush: Seq::empty(),
            }),
    {
        let builder = Builder {
            color: WHITE,
            back_color: BLACK,
            sheet_name: sheet_name.to_string(),
            splat_matrix: Vec::new(),
            brush: Vec::new(),
        };
        assert(builder@.matrix =~= Seq::empty());
        assert(builder@.brush =~= Seq::empty());
        builder
    }

    /// Sets the color of the splats that are made from now on.
    pub fn color(self, color: Rgba) -> (builder: Builder)
        ensures
            builder@ == (BuilderView { color, ..self@ }),
    {
        proof {
            use_type_invariant(&self);
        }
        Builder { color, ..self }
    }

    /// Sets the color and the back color of the splats that are made
    /// from now on.
    pub fn colors(self, color: Rgba, back_color: Rgba) -> (builder: Builder)
        ensures
            builder@ == (BuilderView { color, back_color, ..self@ }),
    {
        proof {
            use_type_invariant(&self);
        }
        Builder { color, back_color, ..self }
    }

    /// Whether a column of `frames` splats can be added.
    pub fn accepts(&self, frames: usize) -> (ok: bool)
        ensures
            ok == self@.accepts(frames as nat),
    {
        proof {
            use_type_invariant(self);
        }
        self.splat_matrix.len() == 0 || frames == self.splat_matrix[0].len()
    }

    /// Whether a column is up for merging.
    pub fn has_columns(&self) -> (some: bool)
        ensures
            some == (self@.matrix.len() > 0),
    {
        self.splat_matrix.len() > 0
    }

    /// The frames that were merged so far.
    pub fn frames(&self) -> (frames: &Brush)
        ensures
            brush_view(frames@) == self@.brush,
    {
        &self.brush
    }

    fn into_splat(&self, geom: &Geom) -> (splat: Splat)
        ensures
            splat@ == splat_of(*geom, self@.sheet_name, self@.color, self@.back_color),
    {
        Splat::new(geom, self.sheet_name.clone(), self.color, self.back_color)
    }

    /// Adds the column that `geom` makes with the sheet and the colors
    /// that are set.
    pub fn splat(self, geom: Vec<Geom>) -> (builder: Builder)
        requires
            self@.accepts(geom@.len()),
        ensures
            builder@ == self@.with_column(geom@),
    {
        proof {
            use_type_invariant(&self);
        }
        let mut matrix_column: Vec<Splat> = Vec::new();
        let mut i: usize = 0;
        while i < geom.len()
            invariant
                i <= geom.len(),
                frame_view(matrix_column@) == self@.column(geom@.take(i as int)),
            decreases geom.len() - i,
        {
            let splat = self.into_splat(&geom[i]);
            let ghost made = matrix_column@;
            let ghost said = splat@;
            matrix_column.push(splat);
            proof {
                let done = geom@.take(i as int);
                assert(geom@.take(i + 1) == done.push(geom@[i as int]));
                assert(frame_view(matrix_column@) =~= frame_view(made).push(said));
                assert(self@.column(done.push(geom@[i as int])) =~= self@.column(done).push(said));
            }
            i += 1;
        }
        assert(geom@.take(geom.len() as int) == geom@);
        let ghost before = self@;
        let Builder { color, back_color, sheet_name, splat_matrix, brush } = self;
        let mut splat_matrix = splat_matrix;
        let ghost columns = splat_matrix@;
        splat_matrix.push(matrix_column);
        assert(brush_view(splat_matrix@) =~= brush_view(columns).push(before.column(geom@)));
        Builder { color, back_color, sheet_name, splat_matrix, brush }
    }

    /// Adds the column that `geom` makes if it can be added, and says
    /// which numbers of splats disagree if it cannot.
    pub fn try_splat(self, geom: Vec<Geom>) -> (added: Result<Builder, BrushError>)
        ensures
            self@.accepts(geom@.len()) ==> added is Ok && added->Ok_0@ == self@.with_column(geom@),
            !self@.accepts(geom@.len()) ==> added == Err::<Builder, BrushError>(
                BrushError::FrameCountMismatch {
                    expected: self@.matrix[0].len() as usize,
                    actual: geom@.len() as usize,
                },
            ),
    {
        proof {
            use_type_invariant(&self);
        }
        if self.accepts(geom.len()) {
            Ok(self.splat(geom))
        } else {
            Err(
                BrushError::FrameCountMismatch {
                    expected: self.splat_matrix[0].len(),
                    actual: geom.len(),
                },
            )
        }
    }

    /// Adds a column of one frame: the sheet cell at `(x, y)`.
    pub fn tile(self, x: u32, y: u32) -> (builder: Builder)
        requires
            self@.accepts(1),
        ensures
            builder@ == self@.with_column(seq![tile_geom(x, y)]),
    {
        let mut column: Vec<Geom> = Vec::new();
        match Geom::tile(x, y) {
            Some(geom) => column.push(geom),
            None => {},
        }
        assert(column@ =~= seq![tile_geom(x, y)]);
        self.splat(column)
    }

    /// Adds a column of thirty frames: the parts of the blob whose
    /// vertical edges, rear faces and front faces are in the strips at
    /// `(vert_x, vert_y)`, `(rear_x, rear_y)` and `(x, y)`.
    pub fn blob(self, vert_x: u32, vert_y: u32, rear_x: u32, rear_y: u32, x: u32, y: u32) -> (builder:
        Builder)
        requires
            self@.accepts(30),
            vert_x + 80 <= u32::MAX,
            rear_x + 86 <= u32::MAX,
            x + 86 <= u32::MAX,
        ensures
            builder@ == self@.with_column(blob_geoms(vert_x, vert_y, rear_x, rear_y, x, y)),
    {
        self.splat(Geom::blob(vert_x, vert_y, rear_x, rear_y, x, y))
    }

    /// Adds a column of four frames: the parts of the wall whose center
    /// pillar and long sides are in the cells at `(center_x, center_y)`
    /// and `(sides_x, sides_y)`.
    pub fn wall(self, center_x: u32, center_y: u32, sides_x: u32, sides_y: u32) -> (builder: Builder)
        requires
            self@.accepts(4),
            center_x + 16 <= u32::MAX,
            sides_x + 16 <= u32::MAX,
        ensures
            builder@ == self@.with_column(wall_geoms(center_x, center_y, sides_x, sides_y)),
    {
        self.splat(Geom::wall(center_x, center_y, sides_x, sides_y))
    }

    /// Turns the columns that are up for merging into frames and adds
    /// them to the frames of the brush.
    pub fn merge(self) -> (builder: Builder)
        requires
            self@.matrix.len() > 0,
        ensures
            builder@ == self@.merged(),
    {
        proof {
            use_type_invariant(&self);
        }
        let ghost before = self@;
        let Builder { color, back_color, sheet_name, splat_matrix, brush } = self;
        let mut matrix = splat_matrix;
        let mut brush = brush;
        let ghost columns = matrix@.map_values(|column: Vec<Splat>| column@);
        let ghost frames = brush@;
        proof {
            assert(before.matrix =~= columns.map_values(|column: Seq<Splat>| frame_view(column)));
            assert forall|j: int| 0 <= j < columns.len() implies (#[trigger] columns[j]).len()
                == columns[0].len() by {
                assert(before.matrix[j].len() == columns[j].len());
                assert(before.matrix[0].len() == columns[0].len());
            }
        }
        let n = matrix[0].len();
        let mut i: usize = 0;
        while i < n
            invariant
                i <= n,
                n == columns[0].len(),
                columns.len() > 0,
                rectangular(columns),
                matrix@.len() == columns.len(),
                forall|j: int|
                    0 <= j < columns.len() ==> (#[trigger] matrix@[j])@ == columns[j].skip(i as int),
                brush@.len() == frames.len() + i,
                forall|r: int| 0 <= r < frames.len() ==> brush@[r] == frames[r],
                forall|r: int|
                    0 <= r < i ==> (#[trigger] brush@[frames.len() + r])@ == transposed(columns)[r],
            decreases n - i,
        {
            let mut frame: Vec<Splat> = Vec::new();
            let mut j: usize = 0;
            while j < matrix.len()
                invariant
                    i < n,
                    n == columns[0].len(),
                    rectangular(columns),
                    j <= matrix@.len(),
                    matrix@.len() == columns.len(),
                    forall|c: int|
                        0 <= c < j ==> (#[trigger] matrix@[c])@ == columns[c].skip(i + 1),
                    forall|c: int|
                        j <= c < columns.len() ==> (#[trigger] matrix@[c])@ == columns[c].skip(
                            i as int,
                        ),
                    frame@ == Seq::new(j as nat, |c: int| columns[c][i as int]),
                decreases matrix.len() - j,
            {
                let ghost rest = matrix@;
                assert(rest[j as int]@.len() > 0);
                let splat = matrix[j].remove(0);
                assert(matrix@[j as int]@ =~= columns[j as int].skip(i + 1));
                assert(forall|c: int| 0 <= c < rest.len() && c != j ==> matrix@[c] == rest[c]);
                frame.push(splat);
                assert(frame@ =~= Seq::new((j + 1) as nat, |c: int| columns[c][i as int]));
                j += 1;
            }
            assert(frame@ =~= transposed(columns)[i as int]);
            brush.push(frame);
            i += 1;
        }
        matrix.clear();
        let builder = Builder { color, back_color, sheet_name, splat_matrix: matrix, brush };
        proof {
            lemma_transposed_views(columns);
            let rows = transposed(columns).map_values(|row: Seq<Splat>| frame_view(row));
            assert(rows == transposed(before.matrix));
            assert(builder@.matrix =~= Seq::empty());
            assert(builder@.brush.len() == before.brush.len() + rows.len());
            assert forall|r: int| 0 <= r < builder@.brush.len() implies builder@.brush[r] == (
            before.brush + rows)[r] by {
                if r < frames.len() {
                    assert(brush@[r] == frames[r]);
                } else {
                    assert(brush@[frames.len() + (r - frames.len())]@ == transposed(columns)[r
                        - frames.len()]);
                }
            }
            assert(builder@.brush =~= before.brush + rows);
        }
        builder
    }

    /// Merges the columns that are up for merging if there are any, and
    /// says so if there are none.
    pub fn try_merge(self) -> (merged: Result<Builder, BrushError>)
        ensures
            self@.matrix.len() > 0 ==> merged is Ok && merged->Ok_0@ == self@.merged(),
            self@.matrix.len() == 0 ==> merged == Err::<Builder, BrushError>(
                BrushError::NothingToMerge,
            ),
    {
        if self.has_columns() {
            Ok(self.merge())
        } else {
            Err(BrushError::NothingToMerge)
        }
    }

    /// Ends the composition: merges the columns that are still up for it
    /// and hands out the brush, to be shared by all that draw with it.
    pub fn finish(self) -> (brush: Rc<Brush>)
        ensures
            brush_view((*brush)@) == self@.finished(),
    {
        let done = if self.has_columns() {
            self.merge()
        } else {
            self
        };
        Rc::new(done.brush)
    }

    /// Ends the composition if it has made a frame, and says so if it
    /// has made none: a brush without a frame paints nothing.
    pub fn try_finish(self) -> (brush: Result<Rc<Brush>, BrushError>)
        ensures
            self@.finished().len() > 0 ==> brush is Ok && brush_view((*brush->Ok_0)@)
                == self@.finished(),
            self@.finished().len() == 0 ==> brush == Err::<Rc<Brush>, BrushError>(
                BrushError::EmptyBrush,
            ),
    {
        let brush = self.finish();
        if brush.len() > 0 {
            Ok(brush)
        } else {
            Err(BrushError::EmptyBrush)
        }
    }
}

/// The rows of a grid: there are as many as the columns are long, each
/// holds one entry of every column, and entry `j` of row `i` is entry `i`
/// of column `j`.
pub proof fn lemma_transposed_entries<A>(columns: Seq<Seq<A>>)
    requires
        columns.len() > 0,
    ensures
        transposed(columns).len() == columns[0].len(),
        forall|i: int|
            0 <= i < columns[0].len() ==> (#[trigger] transposed(columns)[i]).len()
                == columns.len(),
        forall|i: int, j: int|
            0 <= i < columns[0].len() && 0 <= j < columns.len() ==> #[trigger] transposed(
                columns,
            )[i][j] == columns[j][i],
{
}

/// The rows of the rows of a grid are its columns, where the grid has a
/// column, its columns are all of one length and hold something.
pub proof fn lemma_transposed_twice<A>(columns: Seq<Seq<A>>)
    requires
        columns.len() > 0,
        columns[0].len() > 0,
        rectangular(columns),
    ensures
        rectangular(transposed(columns)),
        transposed(transposed(columns)) == columns,
{
    let rows = transposed(columns);
    let back = transposed(rows);
    assert(rows[0].len() == columns.len());
    assert forall|j: int| 0 <= j < columns.len() implies back[j] =~= columns[j] by {
        assert(columns[j].len() == columns[0].len());
    }
    assert(back =~= columns);
}

/// Columns of one splat each merge into one frame, which holds the
/// splats of the columns in the order the columns were added.
pub proof fn lemma_single_frame<A>(columns: Seq<Seq<A>>)
    requires
        columns.len() > 0,
        rectangular(columns),
        columns[0].len() == 1,
    ensures
        transposed(columns) == seq![Seq::new(columns.len(), |j: int| columns[j][0])],
{
    assert(transposed(columns) =~= seq![Seq::new(columns.len(), |j: int| columns[j][0])]);
}

/// To finish with columns up for merging is to merge them and finish
/// then.
pub proof fn lemma_finish_merges(builder: BuilderView)
    requires
        builder.matrix.len() > 0,
    ensures
        builder.finished() == builder.merged().finished(),
        builder.finished() == builder.brush + transposed(builder.matrix),
{
}

/// A splat keeps the colors that were set when its column was added: to
/// set other colors afterwards changes no column and no frame.
pub proof fn lemma_colors_are_baked(
    builder: BuilderView,
    geoms: Seq<Geom>,
    color: Rgba,
    back_color: Rgba,
)
    ensures
        ({
            let added = builder.with_column(geoms);
            let recolored = BuilderView { color, back_color, ..added };
            &&& recolored.matrix == added.matrix
            &&& recolored.brush == added.brush
            &&& added.matrix.last().len() == geoms.len()
            &&& forall|i: int|
                0 <= i < geoms.len() ==> (#[trigger] added.matrix.last()[i]).color
                    == builder.color && added.matrix.last()[i].back_color == builder.back_color
        }),
{
}

/// What the rows of a grid of splats say is the rows of what its
/// columns say.
proof fn lemma_transposed_views(columns: Seq<Seq<Splat>>)
    requires
        rectangular(columns),
    ensures
        transposed(columns).map_values(|row: Seq<Splat>| frame_view(row)) == transposed(
            columns.map_values(|column: Seq<Splat>| frame_view(column)),
        ),
{
    let views = columns.map_values(|column: Seq<Splat>| frame_view(column));
    let left = transposed(columns).map_values(|row: Seq<Splat>| frame_view(row));
    let right = transposed(views);
    if columns.len() > 0 {
        assert(left.len() == right.len());
        assert forall|i: int| 0 <= i < left.len() implies left[i] =~= right[i] by {
            assert forall|j: int| 0 <= j < columns.len() implies left[i][j] == right[i][j] by {
                assert(columns[j].len() == columns[0].len());
            }
        }
    }
    assert(left =~= right);
}

} // verus!
