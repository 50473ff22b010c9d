//! Rays, as far as the grid and the screen see them: which way a ray heads
//! along each axis, which cell a point on it belongs to, and which screen
//! column it is cast for.

use vstd::prelude::*;

verus! {

/// Which way a ray heads along one axis.
#[derive(Clone, Copy, Debug, PartialEq, Eq, Structural)]
pub enum Heading {
    /// Toward smaller coordinates.
    Falling,
    /// Neither way: the ray runs along the other axis.
    Level,
    /// Toward larger coordinates.
    Rising,
}

/// A ray by what the grid reads of it.
#[derive(Clone, Copy, Debug, PartialEq, Eq, Structural)]
pub struct Ray {
    /// The way the ray heads along `x`.
    pub x: Heading,
    /// The way the ray heads along `y`.
    pub y: Heading,
    /// The screen column that the ray is cast for.
    pub column_index: u32,
}

/// A coordinate by what the grid reads of it.
#[derive(Clone, Copy, Debug, PartialEq, Eq, Structural)]
pub struct AxisPoint {
    /// The coordinate without its fraction.
    pub cell: usize,
    /// Whether the coordinate has no fraction, so that it lies on a grid line.
    pub on_line: bool,
}

/// A point by what the grid reads of it.
#[derive(Clone, Copy, Debug, PartialEq, Eq, Structural)]
pub struct GridPoint {
    pub x: AxisPoint,
    pub y: AxisPoint,
}

/// One of the two axes of the grid.
#[derive(Clone, Copy, Debug, PartialEq, Eq, Structural)]
pub enum Axis {
    X,
    Y,
}

/// The grid line that a ray is measured against along one axis, counted in
/// whole cells from the whole part of the coordinate it starts at. The
/// distance to that line is the offset less the fraction of the coordinate.
///
/// A rising ray meets the line one cell above the whole part. A falling ray
/// meets the line at the whole part, unless it starts on that very line:
/// then the next line lies one cell below. A level ray is measured like a
/// falling one off a line and like a rising one on a line, a whole cell
/// away; it never comes there, and a distance divided by its direction of
/// zero is without end, so that this axis never decides a step.
pub open spec fn next_line_offset(heading: Heading, point: AxisPoint) -> int {
    match heading {
        Heading::Rising => 1,
        Heading::Falling => if point.on_line {
            -1
        } else {
            0
        },
        Heading::Level => if point.on_line {
            1
        } else {
            0
        },
    }
}

/// The axis whose fraction says where along the face a wall was struck.
///
/// A ray strikes a wall on a grid line. Where the point lies on a line of
/// `x`, the face runs along `y`; else it runs along `x`. A corner, on lines
/// of both, counts as lying on a line of `x`.
pub open spec fn face_axis(pos: GridPoint) -> Axis {
    if pos.x.on_line {
        Axis::Y
    } else {
        Axis::X
    }
}

/// Finds the grid line that a ray is measured against along one axis, in
/// whole cells from the whole part of the coordinate.
pub fn next_line(heading: Heading, point: &AxisPoint) -> (offset: i32)
    ensures
        offset == next_line_offset(heading, *point),
{
    match heading {
        Heading::Rising => 1,
        Heading::Falling => if point.on_line {
            -1
        } else {
            0
        },
        Heading::Level => if point.on_line {
            1
        } else {
            0
        },
    }
}

/// Finds the axis whose fraction says where along the face a wall was
/// struck.
pub fn wall_face_axis(pos: &GridPoint) -> (axis: Axis)
    ensures
        axis == face_axis(*pos),
{
    if pos.x.on_line {
        Axis::Y
    } else {
        Axis::X
    }
}

/// The cell, along one axis, that a point on a ray belongs to.
///
/// A point on a grid line lies between two cells. A ray that heads toward
/// smaller coordinates has the cell before the line ahead of it, and the
/// point belongs to that cell; for every other ray it belongs to the cell
/// after the line. Before the first cell there is none, and the first cell
/// is taken.
pub open spec fn partial_map_index(heading: Heading, point: AxisPoint) -> int {
    if point.on_line && heading == Heading::Falling && point.cell > 0 {
        point.cell - 1
    } else {
        point.cell as int
    }
}

/// The place in the grid of the cell that a point on a ray belongs to, for
/// a grid whose rows are `map_height` cells apart.
pub open spec fn map_index(ray: Ray, pos: GridPoint, map_height: int) -> int {
    partial_map_index(ray.x, pos.x) + partial_map_index(ray.y, pos.y) * map_height
}

/// Finds the cell, along one axis, that a point on a ray belongs to.
fn to_partial_map_index(heading: Heading, point: &AxisPoint) -> (index: usize)
    ensures
        index == partial_map_index(heading, *point),
{
    if point.on_line && heading == Heading::Falling && point.cell > 0 {
        point.cell - 1
    } else {
        point.cell
    }
}

impl Ray {
    /// Finds the place in the grid of the cell that `pos` belongs to, for a
    /// grid whose rows are `map_height` cells apart. A place too large for
    /// a `usize` is given as `usize::MAX`.
    pub fn to_map_index(&self, pos: &GridPoint, map_height: usize) -> (index: usize)
        ensures
            index == if map_index(*self, *pos, map_height as int) <= usize::MAX {
                map_index(*self, *pos, map_height as int)
            } else {
                usize::MAX as int
            },
    {
        let column: usize = to_partial_map_index(self.x, &pos.x);
        let row: usize = to_partial_map_index(self.y, &pos.y);
        assert(0 <= row * map_height <= usize::MAX * usize::MAX) by (nonlinear_arith)
            requires
                0 <= row <= usize::MAX,
                0 <= map_height <= usize::MAX,
        ;
        assert(usize::MAX * usize::MAX + usize::MAX <= u128::MAX) by (nonlinear_arith)
            requires
                usize::MAX <= u64::MAX,
        ;
        let place: u128 = column as u128 + row as u128 * map_height as u128;
        if place <= usize::MAX as u128 {
            place as usize
        } else {
            usize::MAX
        }
    }
}

/// The screen columns that rays are still to be cast for, leftmost first.
pub struct RayGenerator {
    column_count: u32,
    next_column: u32,
}

impl View for RayGenerator {
    type V = Seq<u32>;

    closed spec fn view(&self) -> Seq<u32> {
        Seq::new(
            (self.column_count - self.next_column) as nat,
            |i: int| (self.next_column + i) as u32,
        )
    }
}

/// The columns of a screen `screen_width` wide, leftmost first.
pub open spec fn all_columns(screen_width: u32) -> Seq<u32> {
    Seq::new(screen_width as nat, |i: int| i as u32)
}

/// Every column of the screen is given, each once, from the left to the
/// right: the columns of a screen `screen_width` wide are as many as the
/// screen is wide, the column in place `i` is `i`, and so a later column is
/// a larger one.
pub proof fn lemma_every_column_once_in_order(screen_width: u32)
    ensures
        all_columns(screen_width).len() == screen_width,
        forall|i: int| 0 <= i < screen_width ==> #[trigger] all_columns(screen_width)[i] == i,
        forall|i: int, j: int|
            0 <= i < j < screen_width ==> #[trigger] all_columns(screen_width)[i]
                < #[trigger] all_columns(screen_width)[j],
{
}

impl RayGenerator {
    #[verifier::type_invariant]
    spec fn inv(self) -> bool {
        self.next_column <= self.column_count
    }

    /// A generator for a screen `screen_width` wide: every column is still
    /// to come.
    pub fn new(screen_width: u32) -> (generator: RayGenerator)
        ensures
            generator@ == all_columns(screen_width),
    {
        let generator = RayGenerator { column_count: screen_width, next_column: 0 };
        assert(generator@ =~= all_columns(screen_width));
        generator
    }

    /// Gives the column of the next ray, or nothing once every column has
    /// been given.
    pub fn next_column(&mut self) -> (column: Option<u32>)
        ensures
            old(self)@.len() == 0 ==> column.is_none() && final(self)@ == old(self)@,
            old(self)@.len() > 0 ==> column == Some(old(self)@[0]) && final(self)@ == old(self)@.skip(
                1,
            ),
    {
        proof {
            use_type_invariant(&*self);
        }
        if self.next_column < self.column_count {
            let column: u32 = self.next_column;
            self.next_column = column + 1;
            assert(self@ =~= old(self)@.skip(1));
            Some(column)
        } else {
            None
        }
    }
}

} // verus!
