//! The calibration grid: lines every 50 pixels along both axes, blue and
//! black in turn, the one that starts nearest below the middle drawn wider.
//!
//! The grid is planned here as a list of one-pixel lines in the order in
//! which they are drawn; whoever owns the raster draws them.

use crate::color::{black, Rgba};
use crate::text::{ends_with, has_suffix};
use vstd::prelude::*;

verus! {

/// The distance between the starts of two neighbouring grid lines.
pub const GRID_STEP: u32 = 50;

/// The width of a grid line, in pixels.
pub const LINE_WIDTH: u32 = 3;

/// The width of the grid line at the middle of the image.
pub const CENTER_LINE_WIDTH: u32 = 5;

/// The direction of a line.
#[derive(Clone, Copy, Debug, PartialEq, Eq)]
pub enum Axis {
    /// From the top row to the bottom row, in one column.
    Vertical,
    /// From the first column to the last, in one row.
    Horizontal,
}

/// One line of the grid, a single pixel wide, across the whole image.
#[derive(Clone, Copy, Debug, PartialEq, Eq)]
pub struct GridLine {
    /// Whether the line runs down a column or along a row.
    pub axis: Axis,
    /// The column of a vertical line, the row of a horizontal one.
    pub position: u32,
    /// The colour of the line.
    pub color: Rgba,
}

/// A grid line as a mathematical value.
pub struct LineView {
    pub axis: Axis,
    pub position: int,
    pub color: Seq<u8>,
}

impl View for GridLine {
    type V = LineView;

    open spec fn view(&self) -> LineView {
        LineView { axis: self.axis, position: self.position as int, color: self.color@ }
    }
}

/// The views of a list of lines, in the same order.
pub open spec fn plan_view(lines: Seq<GridLine>) -> Seq<LineView> {
    lines.map_values(|line: GridLine| line@)
}

/// Opaque blue.
pub open spec fn blue() -> Seq<u8> {
    seq![0u8, 0u8, 255u8, 255u8]
}

/// Where the grid line that covers or precedes `position` starts.
pub open spec fn line_start(position: int) -> int {
    position / (GRID_STEP as int) * GRID_STEP
}

/// The start of the grid line at the middle of an axis of length `extent`.
pub open spec fn center_start(extent: int) -> int {
    extent / 2 / (GRID_STEP as int) * GRID_STEP
}

/// How many pixels wide the grid line that starts at `start` is.
pub open spec fn line_width(extent: int, start: int) -> int {
    if start == center_start(extent) {
        CENTER_LINE_WIDTH as int
    } else {
        LINE_WIDTH as int
    }
}

/// Whether the column or row `position`, on an axis of length `extent`,
/// belongs to a grid line.
pub open spec fn on_line(extent: int, position: int) -> bool {
    &&& 0 <= position < extent
    &&& position - line_start(position) < line_width(extent, line_start(position))
}

/// The colour of the grid line through `position`: blue for the lines with
/// an even index, black for those with an odd one.
pub open spec fn line_color(position: int) -> Seq<u8> {
    if (position / (GRID_STEP as int)) % 2 == 0 {
        blue()
    } else {
        black()
    }
}

/// The one-pixel lines of one axis at the positions below `bound`, in
/// increasing order of position.
pub open spec fn axis_lines(axis: Axis, extent: int, bound: int) -> Seq<LineView>
    decreases bound,
{
    if bound <= 0 {
        Seq::empty()
    } else if on_line(extent, bound - 1) {
        axis_lines(axis, extent, bound - 1).push(
            LineView { axis, position: bound - 1, color: line_color(bound - 1) },
        )
    } else {
        axis_lines(axis, extent, bound - 1)
    }
}

/// The whole grid of a `width` by `height` image in drawing order: the
/// vertical lines from left to right, then the horizontal ones from top to
/// bottom.
pub open spec fn grid_plan(width: int, height: int) -> Seq<LineView> {
    axis_lines(Axis::Vertical, width, width) + axis_lines(Axis::Horizontal, height, height)
}

/// Whether a line passes through column `x`, row `y`.
pub open spec fn covers(line: LineView, x: int, y: int) -> bool {
    match line.axis {
        Axis::Vertical => line.position == x,
        Axis::Horizontal => line.position == y,
    }
}

/// The colour of the pixel at column `x`, row `y` once the lines have been
/// drawn in order over a pixel of colour `under`: that of the last line
/// through the pixel.
pub open spec fn painted(lines: Seq<LineView>, x: int, y: int, under: Seq<u8>) -> Seq<u8>
    decreases lines.len(),
{
    if lines.len() == 0 {
        under
    } else if covers(lines.last(), x, y) {
        lines.last().color
    } else {
        painted(lines.drop_last(), x, y, under)
    }
}

/// The colour of the pixel at column `x`, row `y` of a gridded image, where
/// the pixel was `under` before: a horizontal line lies over a vertical one.
pub open spec fn grid_pixel(width: int, height: int, x: int, y: int, under: Seq<u8>) -> Seq<u8> {
    if on_line(height, y) {
        line_color(y)
    } else if on_line(width, x) {
        line_color(x)
    } else {
        under
    }
}

/// The file that the gridded copy of an image is written to: the image's
/// own path, without its `.png` where it ends with it, and `_grid.png` after.
pub open spec fn grid_path_of(input_path: Seq<char>) -> Seq<char> {
    if has_suffix(input_path, ".png"@) {
        input_path.subrange(0, input_path.len() - 4) + "_grid.png"@
    } else {
        input_path + "_grid.png"@
    }
}

/// Between the end of one grid line and the start of the next there is none.
proof fn lemma_gap(axis: Axis, extent: int, start: int, from: int, to: int)
    requires
        0 <= start,
        start % (GRID_STEP as int) == 0,
        start + line_width(extent, start) <= from <= to <= start + GRID_STEP,
    ensures
        axis_lines(axis, extent, to) == axis_lines(axis, extent, from),
    decreases to - from,
{
    if from < to {
        lemma_gap(axis, extent, start, from, to - 1);
        assert(line_start(to - 1) == start);
    }
}

/// Beyond the end of the axis there is no line.
proof fn lemma_beyond(axis: Axis, extent: int, bound: int)
    requires
        0 <= extent <= bound,
    ensures
        axis_lines(axis, extent, bound) == axis_lines(axis, extent, extent),
    decreases bound - extent,
{
    if extent < bound {
        lemma_beyond(axis, extent, bound - 1);
    }
}

/// Every line of an axis runs along that axis at a position on the image
/// that belongs to a grid line, in that grid line's colour, and the lines
/// come in increasing order of position.
pub proof fn lemma_axis_lines(axis: Axis, extent: int, bound: int)
    ensures
        forall|k: int|
            0 <= k < axis_lines(axis, extent, bound).len() ==> {
                let line = #[trigger] axis_lines(axis, extent, bound)[k];
                &&& line.axis == axis
                &&& line.position < bound
                &&& on_line(extent, line.position)
                &&& line.color == line_color(line.position)
            },
        forall|k: int, l: int|
            0 <= k < l < axis_lines(axis, extent, bound).len() ==> (#[trigger] axis_lines(
                axis,
                extent,
                bound,
            )[k]).position < (#[trigger] axis_lines(axis, extent, bound)[l]).position,
    decreases bound,
{
    if bound > 0 {
        lemma_axis_lines(axis, extent, bound - 1);
    }
}

/// Drawing the lines of one axis over earlier lines: a pixel on one of them
/// gets that line's colour, any other keeps what the earlier lines gave it.
proof fn lemma_painted_axis(
    before: Seq<LineView>,
    axis: Axis,
    extent: int,
    bound: int,
    x: int,
    y: int,
    under: Seq<u8>,
)
    requires
        0 <= bound,
    ensures
        painted(before + axis_lines(axis, extent, bound), x, y, under) == {
            let along = match axis {
                Axis::Vertical => x,
                Axis::Horizontal => y,
            };
            if on_line(extent, along) && along < bound {
                line_color(along)
            } else {
                painted(before, x, y, under)
            }
        },
    decreases bound,
{
    let all = before + axis_lines(axis, extent, bound);
    if bound == 0 {
        assert(all =~= before);
    } else {
        let shorter = axis_lines(axis, extent, bound - 1);
        lemma_painted_axis(before, axis, extent, bound - 1, x, y, under);
        if on_line(extent, bound - 1) {
            let line = LineView { axis, position: bound - 1, color: line_color(bound - 1) };
            assert(all =~= (before + shorter).push(line));
            assert(all.last() == line);
            assert(all.drop_last() =~= before + shorter);
        } else {
            assert(all =~= before + shorter);
        }
    }
}

/// Once the grid has been drawn, a pixel on a horizontal line has that
/// line's colour, any other pixel on a vertical line has the colour of that
/// one, and every other pixel is as it was.
pub proof fn lemma_grid_pixel(width: int, height: int, x: int, y: int, under: Seq<u8>)
    requires
        0 <= width,
        0 <= height,
    ensures
        painted(grid_plan(width, height), x, y, under) == grid_pixel(width, height, x, y, under),
{
    let vertical = axis_lines(Axis::Vertical, width, width);
    lemma_painted_axis(vertical, Axis::Horizontal, height, height, x, y, under);
    lemma_painted_axis(Seq::empty(), Axis::Vertical, width, width, x, y, under);
    assert(Seq::<LineView>::empty() + vertical =~= vertical);
}

/// Appends the lines of one axis of length `extent`, in increasing order of
/// position.
fn push_axis_lines(lines: &mut Vec<GridLine>, axis: Axis, extent: u32)
    ensures
        plan_view(final(lines)@) == plan_view(old(lines)@) + axis_lines(
            axis,
            extent as int,
            extent as int,
        ),
{
    let ghost earlier = plan_view(lines@);
    let center: u32 = extent / 2 / GRID_STEP * GRID_STEP;
    let mut start: u64 = 0;
    assert(plan_view(lines@) =~= earlier + axis_lines(axis, extent as int, 0));
    while start < extent as u64
        invariant
            start % GRID_STEP as u64 == 0,
            start < extent + GRID_STEP,
            center == center_start(extent as int),
            plan_view(lines@) == earlier + axis_lines(axis, extent as int, start as int),
        decreases extent + GRID_STEP - start,
    {
        let width: u64 = if start == center as u64 {
            CENTER_LINE_WIDTH as u64
        } else {
            LINE_WIDTH as u64
        };
        let color = if (start / (GRID_STEP as u64)) % 2 == 0 {
            Rgba([0, 0, 255, 255])
        } else {
            Rgba([0, 0, 0, 255])
        };
        assert(color@ =~= line_color(start as int));
        let mut offset: u64 = 0;
        while offset < width
            invariant
                start % GRID_STEP as u64 == 0,
                start < extent,
                offset <= width,
                width == line_width(extent as int, start as int),
                color@ == line_color(start as int),
                plan_view(lines@) == earlier + axis_lines(axis, extent as int, start + offset),
            decreases width - offset,
        {
            if start + offset < extent as u64 {
                let position: u32 = (start + offset) as u32;
                let ghost shorter = lines@;
                let line = GridLine { axis, position, color };
                lines.push(line);
                proof {
                    assert(line_start(position as int) == start);
                    assert(on_line(extent as int, position as int));
                    assert(line_color(position as int) == line_color(start as int));
                    assert(plan_view(lines@) =~= plan_view(shorter).push(line@));
                }
            } else {
                proof {
                    assert(!on_line(extent as int, start + offset));
                }
            }
            offset = offset + 1;
        }
        proof {
            lemma_gap(axis, extent as int, start as int, start + width, start + GRID_STEP);
        }
        start = start + GRID_STEP as u64;
    }
    proof {
        lemma_beyond(axis, extent as int, start as int);
    }
}

/// Plans the grid of a `width` by `height` image: the one-pixel lines to
/// draw, in drawing order.
pub fn grid_lines(width: u32, height: u32) -> (lines: Vec<GridLine>)
    ensures
        plan_view(lines@) == grid_plan(width as int, height as int),
{
    let mut lines: Vec<GridLine> = Vec::new();
    assert(plan_view(lines@) =~= Seq::<LineView>::empty());
    push_axis_lines(&mut lines, Axis::Vertical, width);
    push_axis_lines(&mut lines, Axis::Horizontal, height);
    assert(Seq::<LineView>::empty() + axis_lines(Axis::Vertical, width as int, width as int)
        =~= axis_lines(Axis::Vertical, width as int, width as int));
    lines
}

/// The path that the gridded copy of the image at `input_path` is written to.
pub fn grid_output_path(input_path: &str) -> (path: String)
    ensures
        path@ == grid_path_of(input_path@),
{
    proof {
        reveal_strlit(".png");
    }
    let mut path = if ends_with(input_path, ".png") {
        let len = input_path.unicode_len();
        String::from_str(input_path.substring_char(0, len - 4))
    } else {
        String::from_str(input_path)
    };
    path.append("_grid.png");
    path
}

} // verus!
