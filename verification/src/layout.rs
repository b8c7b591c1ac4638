//! Screen geometry: rectangles on the terminal grid and the fixed-ratio
//! division of a frame into margins, content area and day slices.
//!
//! Every region is recomputed from the frame it is given; nothing is cached
//! between frames, so a resized terminal is laid out afresh on the next draw.

use vstd::prelude::*;

verus! {

/// Number of slices the content area is cut into, whatever the forecast holds.
pub const DAY_SLICES: u16 = 5;

/// A rectangle on the terminal grid.
#[derive(Clone, Copy, Debug, PartialEq, Eq, Structural)]
pub struct ScreenRegion {
    /// Row offset of the top edge.
    pub row: u16,
    /// Column offset of the left edge.
    pub col: u16,
    /// Number of columns covered.
    pub width: u16,
    /// Number of rows covered.
    pub height: u16,
}

/// The axis along which a region is divided.
#[derive(Clone, Copy, Debug, PartialEq, Eq, Structural)]
pub enum Direction {
    /// Bands are stacked top to bottom; the height is divided.
    Vertical,
    /// Bands stand side by side; the width is divided.
    Horizontal,
}

/// The three bands of a 10% / 80% / 10% division.
#[derive(Clone, Copy, Debug, PartialEq, Eq, Structural)]
pub struct Bands {
    /// The margin before the central band.
    pub leading: ScreenRegion,
    /// The band that carries content.
    pub central: ScreenRegion,
    /// The margin after the central band.
    pub trailing: ScreenRegion,
}

/// A tenth of `total`, rounded to the nearest integer, halves upward.
pub open spec fn tenth_rounded(total: int) -> int {
    (total + 5) / 10
}

/// Four fifths of `total`, rounded to the nearest integer, halves upward.
pub open spec fn four_fifths_rounded(total: int) -> int {
    (8 * total + 5) / 10
}

/// What the three rounded shares leave over, or take too much, of `total`.
pub open spec fn rounding_remainder(total: int) -> int {
    total - (tenth_rounded(total) + four_fifths_rounded(total) + tenth_rounded(total))
}

/// Length of the central band: its rounded share, corrected by the rounding
/// remainder so that the three bands add up to `total`.
pub open spec fn central_length(total: int) -> int {
    four_fifths_rounded(total) + rounding_remainder(total)
}

/// Width of one day slice of a content area `width` columns wide.
pub open spec fn slice_width(width: int) -> int {
    width / (DAY_SLICES as int)
}

impl ScreenRegion {
    /// The far edges of the region are still coordinates of the grid.
    pub open spec fn fits(self) -> bool {
        &&& self.row + self.height <= u16::MAX
        &&& self.col + self.width <= u16::MAX
    }

    /// Offset of the region's near edge along `direction`.
    pub open spec fn offset(self, direction: Direction) -> int {
        match direction {
            Direction::Vertical => self.row as int,
            Direction::Horizontal => self.col as int,
        }
    }

    /// Size of the region along `direction`.
    pub open spec fn extent(self, direction: Direction) -> int {
        match direction {
            Direction::Vertical => self.height as int,
            Direction::Horizontal => self.width as int,
        }
    }

    /// The part of the region that begins `start` cells from its near edge
    /// along `direction` and is `length` cells long; the other axis is kept.
    pub open spec fn part(self, direction: Direction, start: int, length: int) -> ScreenRegion {
        match direction {
            Direction::Vertical => ScreenRegion {
                row: (self.row + start) as u16,
                col: self.col,
                width: self.width,
                height: length as u16,
            },
            Direction::Horizontal => ScreenRegion {
                row: self.row,
                col: (self.col + start) as u16,
                width: length as u16,
                height: self.height,
            },
        }
    }

    /// The region lies inside `outer`.
    pub open spec fn within(self, outer: ScreenRegion) -> bool {
        &&& outer.row <= self.row
        &&& self.row + self.height <= outer.row + outer.height
        &&& outer.col <= self.col
        &&& self.col + self.width <= outer.col + outer.width
    }

    /// The two regions share no cell.
    pub open spec fn disjoint(self, other: ScreenRegion) -> bool {
        ||| self.row + self.height <= other.row
        ||| other.row + other.height <= self.row
        ||| self.col + self.width <= other.col
        ||| other.col + other.width <= self.col
        ||| self.width == 0
        ||| self.height == 0
        ||| other.width == 0
        ||| other.height == 0
    }

    /// A region from its four numbers, if its far edges stay on the grid.
    pub fn new(row: u16, col: u16, width: u16, height: u16) -> (region: Option<ScreenRegion>)
        ensures
            region == if row + height <= u16::MAX && col + width <= u16::MAX {
                Some(ScreenRegion { row, col, width, height })
            } else {
                None::<ScreenRegion>
            },
    {
        if row <= u16::MAX - height && col <= u16::MAX - width {
            Some(ScreenRegion { row, col, width, height })
        } else {
            None
        }
    }

    /// Executable form of [`ScreenRegion::part`].
    fn take_part(self, direction: Direction, start: u16, length: u16) -> (sub: ScreenRegion)
        requires
            self.fits(),
            start + length <= self.extent(direction),
        ensures
            sub == self.part(direction, start as int, length as int),
            sub.fits(),
            sub.within(self),
    {
        match direction {
            Direction::Vertical => ScreenRegion {
                row: self.row + start,
                col: self.col,
                width: self.width,
                height: length,
            },
            Direction::Horizontal => ScreenRegion {
                row: self.row,
                col: self.col + start,
                width: length,
                height: self.height,
            },
        }
    }
}

/// The three bands of `area` along `direction`.
pub open spec fn bands_of(area: ScreenRegion, direction: Direction) -> Bands {
    let total = area.extent(direction);
    let margin = tenth_rounded(total);
    let middle = central_length(total);
    Bands {
        leading: area.part(direction, 0, margin),
        central: area.part(direction, margin, middle),
        trailing: area.part(direction, margin + middle, margin),
    }
}

/// The content area of a frame: the central band of the vertical division,
/// divided horizontally, and of that the central band again.
pub open spec fn content_area_of(frame: ScreenRegion) -> ScreenRegion {
    bands_of(bands_of(frame, Direction::Vertical).central, Direction::Horizontal).central
}

/// Slice number `index`, counted from 0 at the left, of a content area.
pub open spec fn day_slice_of(content: ScreenRegion, index: int) -> ScreenRegion {
    let each = slice_width(content.width as int);
    content.part(Direction::Horizontal, index * each, each)
}

/// The rounded shares are the nearest integers to 10% and 80% of `total`, the
/// remainder that rounding leaves is at most one cell either way, and with
/// the remainder given to the central band the three lengths add up to
/// `total`.
pub proof fn lemma_band_lengths(total: int)
    requires
        0 <= total,
    ensures
        10 * tenth_rounded(total) - 5 <= total < 10 * tenth_rounded(total) + 5,
        10 * four_fifths_rounded(total) - 5 <= 8 * total < 10 * four_fifths_rounded(total) + 5,
        -1 <= rounding_remainder(total) <= 1,
        tenth_rounded(total) + central_length(total) + tenth_rounded(total) == total,
        0 <= tenth_rounded(total),
        0 <= central_length(total),
{
}

/// A tenth of `total`, rounded to the nearest integer, halves upward.
pub fn margin_length(total: u16) -> (margin: u16)
    ensures
        margin == tenth_rounded(total as int),
{
    let wide: u32 = total as u32;
    let margin: u32 = (wide + 5) / 10;
    margin as u16
}

/// Divides `area` along `direction` into a 10% margin, an 80% central band
/// and a 10% margin. Each margin is its share rounded to the nearest cell;
/// the central band takes what the margins leave.
pub fn split_bands(area: ScreenRegion, direction: Direction) -> (bands: Bands)
    requires
        area.fits(),
    ensures
        bands == bands_of(area, direction),
        bands.leading.fits(),
        bands.central.fits(),
        bands.trailing.fits(),
{
    let total: u16 = match direction {
        Direction::Vertical => area.height,
        Direction::Horizontal => area.width,
    };
    proof {
        lemma_band_lengths(total as int);
    }
    let margin: u16 = margin_length(total);
    let middle: u16 = total - margin - margin;
    Bands {
        leading: area.take_part(direction, 0, margin),
        central: area.take_part(direction, margin, middle),
        trailing: area.take_part(direction, margin + middle, margin),
    }
}

/// The content area of `frame`: the central 80% by 80% of it.
pub fn content_area(frame: ScreenRegion) -> (content: ScreenRegion)
    requires
        frame.fits(),
    ensures
        content == content_area_of(frame),
        content.fits(),
        content.within(frame),
{
    let rows: Bands = split_bands(frame, Direction::Vertical);
    proof {
        lemma_bands_tile(frame, Direction::Vertical);
        lemma_bands_tile(rows.central, Direction::Horizontal);
    }
    let columns: Bands = split_bands(rows.central, Direction::Horizontal);
    columns.central
}

/// Slice number `index` of the five equal slices of `content`.
pub fn day_slice(content: ScreenRegion, index: u16) -> (slice: ScreenRegion)
    requires
        content.fits(),
        index < DAY_SLICES,
    ensures
        slice == day_slice_of(content, index as int),
        slice.fits(),
        slice.within(content),
{
    let each: u16 = content.width / DAY_SLICES;
    assert(index * each <= 4 * each) by (nonlinear_arith)
        requires
            index <= 4,
            0 <= each,
    ;
    content.take_part(Direction::Horizontal, index * each, each)
}

/// The five equal slices of `content`, from left to right.
pub fn day_slices(content: ScreenRegion) -> (slices: Vec<ScreenRegion>)
    requires
        content.fits(),
    ensures
        slices@.len() == DAY_SLICES,
        forall|i: int| 0 <= i < DAY_SLICES ==> #[trigger] slices@[i] == day_slice_of(content, i),
{
    let mut slices: Vec<ScreenRegion> = Vec::new();
    let mut index: u16 = 0;
    while index < DAY_SLICES
        invariant
            content.fits(),
            index <= DAY_SLICES,
            slices@.len() == index,
            forall|i: int| 0 <= i < index ==> #[trigger] slices@[i] == day_slice_of(content, i),
        decreases DAY_SLICES - index,
    {
        slices.push(day_slice(content, index));
        index = index + 1;
    }
    slices
}

/// The three bands of a division lie one after the other along the divided
/// axis, begin where the area begins and end where it ends, keep the area's
/// other axis, and have the proportional lengths.
pub proof fn lemma_bands_tile(area: ScreenRegion, direction: Direction)
    requires
        area.fits(),
    ensures
        ({
            let bands = bands_of(area, direction);
            let total = area.extent(direction);
            &&& bands.leading.extent(direction) == tenth_rounded(total)
            &&& bands.central.extent(direction) == central_length(total)
            &&& bands.trailing.extent(direction) == tenth_rounded(total)
            &&& bands.leading.extent(direction) + bands.central.extent(direction)
                + bands.trailing.extent(direction) == total
            &&& bands.leading.offset(direction) == area.offset(direction)
            &&& bands.central.offset(direction) == bands.leading.offset(direction)
                + bands.leading.extent(direction)
            &&& bands.trailing.offset(direction) == bands.central.offset(direction)
                + bands.central.extent(direction)
            &&& bands.leading.within(area)
            &&& bands.central.within(area)
            &&& bands.trailing.within(area)
            &&& bands.leading.fits()
            &&& bands.central.fits()
            &&& bands.trailing.fits()
        }),
{
    lemma_band_lengths(area.extent(direction));
}

/// The content area keeps the frame's centre: on each axis it begins one
/// rounded tenth in and is as long as the central band of that axis.
pub proof fn lemma_content_area(frame: ScreenRegion)
    requires
        frame.fits(),
    ensures
        ({
            let content = content_area_of(frame);
            &&& content.row == frame.row + tenth_rounded(frame.height as int)
            &&& content.height == central_length(frame.height as int)
            &&& content.col == frame.col + tenth_rounded(frame.width as int)
            &&& content.width == central_length(frame.width as int)
            &&& content.within(frame)
            &&& content.fits()
        }),
{
    lemma_bands_tile(frame, Direction::Vertical);
    lemma_bands_tile(bands_of(frame, Direction::Vertical).central, Direction::Horizontal);
}

/// The content area is cut into five slices of one and the same width. They
/// keep its rows, stand side by side from its left edge without overlap, and
/// none reaches past its right edge.
pub proof fn lemma_day_slices_equal(content: ScreenRegion, i: int, j: int)
    requires
        content.fits(),
        0 <= i < DAY_SLICES,
        0 <= j < DAY_SLICES,
    ensures
        day_slice_of(content, i).width == day_slice_of(content, j).width,
        day_slice_of(content, i).width == slice_width(content.width as int),
        day_slice_of(content, i).row == content.row,
        day_slice_of(content, i).height == content.height,
        day_slice_of(content, i).col == content.col + i * slice_width(content.width as int),
        day_slice_of(content, i).within(content),
        day_slice_of(content, i).fits(),
        i != j ==> day_slice_of(content, i).disjoint(day_slice_of(content, j)),
        content.width - DAY_SLICES * slice_width(content.width as int) < DAY_SLICES,
{
    let each = slice_width(content.width as int);
    assert(0 <= i * each <= 4 * each) by (nonlinear_arith)
        requires
            0 <= i <= 4,
            0 <= each,
    ;
    assert(0 <= j * each <= 4 * each) by (nonlinear_arith)
        requires
            0 <= j <= 4,
            0 <= each,
    ;
    if i < j {
        assert((i + 1) * each <= j * each) by (nonlinear_arith)
            requires
                i + 1 <= j,
                0 <= each,
        ;
        assert((i + 1) * each == i * each + each) by (nonlinear_arith);
    }
    if j < i {
        assert((j + 1) * each <= i * each) by (nonlinear_arith)
            requires
                j + 1 <= i,
                0 <= each,
        ;
        assert((j + 1) * each == j * each + each) by (nonlinear_arith);
    }
}

} // verus!
