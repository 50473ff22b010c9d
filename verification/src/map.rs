//! The world: a grid of cells, and the small map that shows it from above.

use crate::render_precedence::RenderPrecedence;
use crate::textures::{black, Color};
use vstd::prelude::*;

verus! {

/// The number of cells along each side of the world.
pub const MAP_HEIGHT: usize = 20;

/// The world, row by row: 0 is an empty cell, every other code is a wall of
/// that material.
pub const MAP: [u16; 400] = [
    1, 1, 1, 1, 1, 1, 1, 1, 1, 1, 1, 1, 1, 1, 1, 1, 1, 1, 1, 1,
    1, 0, 0, 0, 0, 0, 0, 0, 0, 0, 0, 0, 0, 0, 0, 0, 0, 0, 0, 1,
    1, 0, 0, 0, 0, 0, 0, 0, 0, 0, 0, 0, 0, 0, 0, 0, 0, 0, 0, 1,
    1, 0, 0, 2, 0, 2, 0, 2, 0, 0, 0, 0, 0, 0, 3, 0, 0, 0, 0, 1,
    1, 0, 0, 0, 0, 0, 0, 0, 0, 0, 0, 0, 0, 2, 0, 2, 0, 0, 0, 1,
    1, 0, 0, 2, 0, 2, 0, 2, 0, 0, 0, 0, 3, 0, 0, 0, 3, 0, 0, 1,
    1, 0, 0, 0, 0, 0, 0, 0, 0, 0, 0, 0, 3, 0, 0, 0, 3, 0, 0, 1,
    1, 0, 0, 2, 0, 2, 0, 2, 0, 0, 0, 0, 0, 2, 0, 2, 0, 0, 0, 1,
    1, 0, 0, 0, 0, 0, 0, 0, 0, 0, 0, 0, 0, 0, 0, 0, 0, 0, 0, 1,
    1, 0, 0, 0, 0, 0, 0, 0, 0, 0, 0, 0, 0, 0, 3, 0, 0, 0, 0, 1,
    1, 0, 0, 0, 0, 0, 0, 0, 0, 0, 0, 0, 0, 0, 0, 0, 0, 0, 0, 1,
    1, 0, 0, 0, 0, 0, 0, 0, 0, 0, 0, 0, 0, 0, 0, 0, 0, 0, 0, 1,
    1, 0, 0, 0, 0, 0, 0, 0, 0, 0, 0, 0, 0, 0, 0, 0, 0, 0, 0, 1,
    1, 0, 0, 0, 0, 0, 0, 0, 0, 0, 0, 0, 0, 0, 0, 0, 0, 0, 0, 1,
    1, 0, 0, 0, 0, 0, 0, 0, 0, 0, 0, 0, 0, 0, 0, 0, 0, 0, 0, 1,
    1, 0, 0, 0, 0, 0, 0, 0, 0, 0, 0, 0, 0, 0, 0, 0, 0, 0, 0, 1,
    1, 0, 0, 0, 0, 0, 0, 0, 0, 0, 0, 0, 0, 0, 0, 0, 0, 0, 0, 1,
    1, 0, 0, 0, 0, 0, 0, 0, 0, 0, 0, 0, 0, 0, 0, 0, 0, 0, 0, 1,
    1, 0, 0, 0, 0, 0, 0, 0, 0, 0, 0, 0, 0, 0, 0, 0, 0, 0, 0, 1,
    1, 1, 1, 1, 1, 1, 1, 1, 1, 1, 1, 1, 1, 1, 1, 1, 1, 1, 1, 1,
];

/// The cell that is read for `index` in a grid of `len` cells: `index` itself
/// where the grid has such a cell, else the last cell.
pub open spec fn nearest_cell(len: int, index: int) -> int {
    if index < len {
        index
    } else {
        len - 1
    }
}

/// Reads the code of the cell at `index`. An index beyond the grid reads the
/// last cell; a grid without cells reads as empty.
pub fn cell_at(cells: &[u16], index: usize) -> (code: u16)
    ensures
        code == if cells@.len() == 0 {
            0
        } else {
            cells@[nearest_cell(cells@.len() as int, index as int)]
        },
{
    let len: usize = cells.len();
    if len == 0 {
        0
    } else if index < len {
        cells[index]
    } else {
        cells[len - 1]
    }
}

/// The colour in which the small map shows a cell of the given code.
pub open spec fn cell_color(code: u16) -> Color {
    if code == 1 {
        Color { r: 255, g: 0, b: 0 }
    } else if code == 2 {
        Color { r: 0, g: 255, b: 0 }
    } else if code == 3 {
        Color { r: 0, g: 0, b: 255 }
    } else {
        black()
    }
}

/// The colour in which the small map shows the cell that the player is in.
pub open spec fn player_color() -> Color {
    Color { r: 255, g: 0, b: 255 }
}

/// The colour of cell `index` of the small map, with the player in column
/// `cell_x` and row `cell_y`.
pub open spec fn map_color(cell_x: int, cell_y: int, index: int) -> Color {
    if index % 20 == cell_x && index / 20 == cell_y {
        player_color()
    } else {
        cell_color(MAP@[index])
    }
}

/// The picture of the world from above, with the player in column `cell_x`
/// and row `cell_y`: one pixel per cell, row by row, three bytes per pixel.
pub open spec fn map_pixels(cell_x: int, cell_y: int) -> Seq<u8> {
    Seq::new(1200, |i: int| map_color(cell_x, cell_y, i / 3).channel(i % 3))
}

/// A width as a signed number of 32 bits: itself up to `i32::MAX`, and
/// above that the negative number that has the same bits.
pub open spec fn as_signed(width: int) -> int {
    if width <= i32::MAX {
        width
    } else {
        width - 0x1_0000_0000
    }
}

/// A fifth of `n`, rounded toward 0.
pub open spec fn fifth(n: int) -> int {
    if n >= 0 {
        n / 5
    } else {
        -((-n) / 5)
    }
}

/// Where on the window a picture is shown.
#[derive(Clone, Copy, Debug, PartialEq, Eq, Structural)]
pub struct TargetRect {
    pub x: i32,
    pub y: i32,
    pub width: u32,
    pub height: u32,
}

/// What the small map is, to its callers.
pub struct MiniMapView {
    /// The number of columns of the window.
    pub screen_width: int,
    /// The number of rows of the window.
    pub screen_height: int,
    /// The bytes of the picture: 20 by 20 pixels of three bytes.
    pub pixels: Seq<u8>,
    /// The position that the picture was painted for, each coordinate by its
    /// exact binary encoding.
    pub last_position: (u32, u32),
}

impl MiniMapView {
    /// The small map after it was asked to draw the player at `position`, in
    /// column `cell_x` and row `cell_y`. Asked for the position it was last
    /// painted for, it stays as it is.
    pub open spec fn drawn(self, position: (u32, u32), cell_x: int, cell_y: int) -> MiniMapView {
        if self.last_position == position {
            self
        } else {
            MiniMapView { pixels: map_pixels(cell_x, cell_y), last_position: position, ..self }
        }
    }
}

/// The small map in the corner of the window.
pub struct MiniMap {
    screen_width: u32,
    screen_height: u32,
    map_surface: Vec<u8>,
    last_player_pos: (u32, u32),
}

impl View for MiniMap {
    type V = MiniMapView;

    closed spec fn view(&self) -> MiniMapView {
        MiniMapView {
            screen_width: self.screen_width as int,
            screen_height: self.screen_height as int,
            pixels: self.map_surface@,
            last_position: self.last_player_pos,
        }
    }
}

impl MiniMap {
    #[verifier::type_invariant]
    spec fn inv(self) -> bool {
        self.map_surface@.len() == 1200
    }

    /// A small map for a window of the given size: its picture black, and
    /// painted for the position whose coordinates are both encoded as 0.
    pub fn new(screen_width: u32, screen_height: u32) -> (made: MiniMap)
        ensures
            made@ == (MiniMapView {
                screen_width: screen_width as int,
                screen_height: screen_height as int,
                pixels: Seq::new(1200, |i: int| 0u8),
                last_position: (0u32, 0u32),
            }),
    {
        let map_surface: Vec<u8> = vec![0u8; 1200];
        assert(map_surface@ =~= Seq::new(1200, |i: int| 0u8));
        MiniMap { screen_width, screen_height, map_surface, last_player_pos: (0, 0) }
    }

    /// The picture: 20 rows of 20 pixels, three bytes each, red first.
    pub fn pixels(&self) -> (pixels: &Vec<u8>)
        ensures
            pixels@ == self@.pixels,
            pixels@.len() == 1200,
    {
        proof {
            use_type_invariant(self);
        }
        &self.map_surface
    }

    /// Draws the world with the player at `position`, which lies in column
    /// `cell_x` and row `cell_y`.
    ///
    /// Where the picture was already painted for `position`, nothing is
    /// painted and the answer is `false`. Else every cell is painted, the
    /// player's cell in the player's colour, the position is remembered, and
    /// the answer is `true`.
    pub fn draw(&mut self, position: (u32, u32), cell_x: usize, cell_y: usize) -> (redrawn: bool)
        ensures
            redrawn == (old(self)@.last_position != position),
            final(self)@ == old(self)@.drawn(position, cell_x as int, cell_y as int),
    {
        if self.last_player_pos.0 == position.0 && self.last_player_pos.1 == position.1 {
            return false;
        }
        proof {
            use_type_invariant(&*self);
        }
        let mut index: usize = 0;
        while index < 400
            invariant
                index <= 400,
                self.map_surface@.len() == 1200,
                self.screen_width == old(self).screen_width,
                self.screen_height == old(self).screen_height,
                forall|i: int|
                    0 <= i < 3 * index ==> #[trigger] self.map_surface@[i] == map_pixels(
                        cell_x as int,
                        cell_y as int,
                    )[i],
            decreases 400 - index,
        {
            let x: usize = index % MAP_HEIGHT;
            let y: usize = index / MAP_HEIGHT;
            let code: u16 = MAP[index];
            let color: Color = if x == cell_x && y == cell_y {
                Color { r: 255, g: 0, b: 255 }
            } else if code == 1 {
                Color { r: 255, g: 0, b: 0 }
            } else if code == 2 {
                Color { r: 0, g: 255, b: 0 }
            } else if code == 3 {
                Color { r: 0, g: 0, b: 255 }
            } else {
                Color { r: 0, g: 0, b: 0 }
            };
            assert(color == map_color(cell_x as int, cell_y as int, index as int));
            let buffer_index: usize = index * 3;
            self.map_surface[buffer_index] = color.r;
            self.map_surface[buffer_index + 1] = color.g;
            self.map_surface[buffer_index + 2] = color.b;
            index = index + 1;
        }
        assert(self.map_surface@ =~= map_pixels(cell_x as int, cell_y as int));
        self.last_player_pos = position;
        true
    }

    /// The layer of the small map: above the camera's view.
    pub fn render_precedence(&self) -> (layer: RenderPrecedence)
        ensures
            layer == RenderPrecedence::MiniMap,
    {
        RenderPrecedence::MiniMap
    }

    /// Where on the window the small map is shown: the right fifth of the
    /// top fifth. The left edge is reckoned in signed numbers of 32 bits.
    pub fn target_rect(&self) -> (rect: TargetRect)
        ensures
            rect.x == as_signed(self@.screen_width) - fifth(as_signed(self@.screen_width)),
            rect.y == 0,
            rect.width == self@.screen_width / 5,
            rect.height == self@.screen_height / 5,
    {
        let x: i32 = if self.screen_width <= 0x7fff_ffff {
            let width: i32 = self.screen_width as i32;
            width - width / 5
        } else {
            let below: u64 = 0x1_0000_0000 - self.screen_width as u64;
            ((below / 5) as i64 - below as i64) as i32
        };
        TargetRect { x, y: 0, width: self.screen_width / 5, height: self.screen_height / 5 }
    }
}

} // verus!
