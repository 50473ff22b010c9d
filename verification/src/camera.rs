//! The camera: paints what the rays found, one screen column at a time, into
//! a buffer of three bytes per pixel, and remembers the pose it painted from.

use crate::game::GameOpts;
use crate::paint::{
    blank, fog_level, lemma_unpainted_byte_stays, painted, painted_all,
    paints_column, shaded_color, slice_color, wall_texture, wall_texture_name,
};
use crate::textures::{Color, Texture, TextureLoader};
use vstd::prelude::*;
use vstd::std_specs::cmp::{PartialOrdIs, PartialOrdSpec};

verus! {

/// Brings `value` into the range from `min` to `max`.
///
/// The result is always one of the three. For a type whose ordering follows
/// its model, it is `min` where `value` lies below it, else `max` where
/// `value` lies above it, else `value`.
pub fn clamp<T: PartialOrd>(value: T, min: T, max: T) -> (clamped: T)
    ensures
        clamped == value || clamped == min || clamped == max,
        T::obeys_partial_cmp_spec() ==> clamped == (if value.is_lt(&min) {
            min
        } else if value.is_gt(&max) {
            max
        } else {
            value
        }),
{
    if value < min {
        return min;
    } else if value > max {
        return max;
    }
    value
}

/// Where a viewer stands and where it looks, each coordinate by its exact
/// binary encoding. Two poses are equal only if they agree bit for bit.
#[derive(Clone, Copy, Debug, PartialEq, Eq, Structural)]
pub struct Pose {
    pub position_x: u32,
    pub position_y: u32,
    pub direction_x: u32,
    pub direction_y: u32,
}

/// What one ray found, in the units of the screen.
#[derive(Clone, Copy, Debug, PartialEq, Eq, Structural)]
pub struct WallSlice {
    /// The screen column that the ray was cast for.
    pub column_index: u32,
    /// The code of the cell that was struck; 0 where the ray struck nothing.
    pub material: u16,
    /// Half the height of the wall on the screen, in pixels.
    pub block_size: i32,
    /// The fog at the wall's distance, not yet brought into range.
    pub fogging: i32,
    /// The column of the texture that the ray struck.
    pub tex_x_index: u32,
    /// Whether the wall is nearer than the view distance.
    pub in_view: bool,
}

/// Why a camera cannot be made.
#[derive(Clone, Copy, Debug, PartialEq, Eq, Structural)]
pub enum CameraError {
    /// The screen has no column.
    NoColumns,
    /// The screen's bytes are more than a buffer can hold.
    TooLarge,
}

/// A pixel lies in row `row` and column `column` of a picture `width` wide
/// exactly if its number is `row * width + column`.
proof fn lemma_pixel_position(pixel: int, width: int, row: int, column: int)
    requires
        0 < width,
        0 <= column < width,
    ensures
        (pixel == row * width + column) <==> (pixel / width == row && pixel % width == column),
{
    vstd::arithmetic::div_mod::lemma_fundamental_div_mod(pixel, width);
    if pixel == row * width + column {
        vstd::arithmetic::div_mod::lemma_fundamental_div_mod_converse(pixel, width, row, column);
    }
    if pixel / width == row && pixel % width == column {
        assert(width * row == row * width) by (nonlinear_arith);
    }
}

/// Gives the name of the texture that walls of the given material wear.
pub fn texture_name_for(material: u16) -> (name: &'static str)
    ensures
        name@ == wall_texture_name(material),
{
    if material == 2 {
        "eagle"
    } else if material == 3 {
        "redbrick"
    } else {
        "bluestone"
    }
}

/// Takes `fog` from each channel of `color`.
fn shade(color: Color, fog: i32) -> (dimmed: Color)
    requires
        0 <= fog <= 255,
    ensures
        dimmed == shaded_color(color, fog as int),
{
    Color {
        r: clamp(color.r as i32 - fog, 0, 255) as u8,
        g: clamp(color.g as i32 - fog, 0, 255) as u8,
        b: clamp(color.b as i32 - fog, 0, 255) as u8,
    }
}

/// Computes the colour of screen row `y` in the column of `slice`.
fn color_at(height: u32, slice: &WallSlice, texture: Option<&Texture>, y: u32) -> (color: Color)
    requires
        y < height,
    ensures
        color == slice_color(
            height as int,
            *slice,
            match texture {
                Some(texture) => Some(*texture),
                None => None,
            },
            y as int,
        ),
{
    let black = Color { r: 0, g: 0, b: 0 };
    let middle: i64 = (height / 2) as i64;
    let bottom: i64 = middle - slice.block_size as i64;
    let top: i64 = middle + slice.block_size as i64;
    if !(slice.in_view && slice.material != 0 && bottom < y as i64 && (y as i64) < top) {
        return black;
    }
    match texture {
        None => black,
        Some(texture) => {
            let above: u64 = (y as i64 - bottom) as u64;
            let span: u64 = (2 * slice.block_size as i64) as u64;
            assert(0 <= above * texture.height <= 0xffff_ffff * 0xffff_ffff) by (nonlinear_arith)
                requires
                    0 <= above <= 0xffff_ffff,
                    0 <= texture.height <= 0xffff_ffff,
            ;
            let scaled: u64 = above * texture.height as u64;
            let row: u64 = scaled / span;
            assert(row <= texture.height) by {
                assert(scaled <= span * texture.height) by (nonlinear_arith)
                    requires
                        scaled == above * texture.height,
                        0 < above < span,
                        0 <= texture.height,
                ;
                vstd::arithmetic::div_mod::lemma_div_is_ordered(
                    scaled as int,
                    span * texture.height,
                    span as int,
                );
                vstd::arithmetic::div_mod::lemma_div_multiples_vanish(
                    texture.height as int,
                    span as int,
                );
            }
            let fog: i32 = clamp(slice.fogging, 0, 255);
            match texture.sample(slice.tex_x_index, row as u32) {
                Some(color) => shade(color, fog),
                None => black,
            }
        },
    }
}

/// What a camera is, to its callers.
pub struct CameraView {
    /// The number of screen columns.
    pub width: int,
    /// The number of screen rows.
    pub height: int,
    /// The bytes of the picture, row by row, three per pixel.
    pub pixels: Seq<u8>,
    /// The pose that the picture was painted from, once there is one.
    pub last_pose: Option<Pose>,
}

impl CameraView {
    /// A camera has a column, and three bytes for every pixel.
    pub open spec fn wf(self) -> bool {
        &&& 0 < self.width
        &&& 0 <= self.height
        &&& self.pixels.len() == 3 * self.width * self.height
    }
}

/// A camera after it was asked to draw `slices` from `pose`.
///
/// Asked for the pose it was last painted from, it stays as it is. Else the
/// picture is made black all over, each slice is painted in turn, and the
/// pose is remembered: nothing of the picture before is left.
pub open spec fn drawn(
    camera: CameraView,
    pose: Pose,
    slices: Seq<WallSlice>,
    textures: Map<Seq<char>, Texture>,
) -> CameraView {
    if camera.last_pose == Some(pose) {
        camera
    } else {
        CameraView {
            pixels: painted_all(
                blank(camera.pixels.len()),
                camera.width,
                camera.height,
                slices,
                textures,
            ),
            last_pose: Some(pose),
            ..camera
        }
    }
}

/// The picture of a frame is fixed by what the frame is drawn from: two
/// cameras of one size, neither of them painted from `pose`, are alike after
/// they drew the same slices from `pose` with the same textures. What the
/// two pictures held before, and the poses they were painted from, leave no
/// trace.
pub proof fn lemma_same_frame_same_picture(
    first: CameraView,
    second: CameraView,
    pose: Pose,
    slices: Seq<WallSlice>,
    textures: Map<Seq<char>, Texture>,
)
    requires
        first.wf(),
        second.wf(),
        first.width == second.width,
        first.height == second.height,
        first.last_pose != Some(pose),
        second.last_pose != Some(pose),
    ensures
        drawn(first, pose, slices, textures) == drawn(second, pose, slices, textures),
{
}

/// A frame leaves no column as it was: after a camera drew from a pose that
/// it was not painted from, every byte of a column that no slice stands for
/// is black.
pub proof fn lemma_columns_without_a_slice_are_black(
    camera: CameraView,
    pose: Pose,
    slices: Seq<WallSlice>,
    textures: Map<Seq<char>, Texture>,
    i: int,
)
    requires
        camera.last_pose != Some(pose),
        0 <= i < camera.pixels.len(),
        !paints_column(slices, (i / 3) % camera.width),
    ensures
        drawn(camera, pose, slices, textures).pixels.len() == camera.pixels.len(),
        drawn(camera, pose, slices, textures).pixels[i] == 0,
{
    lemma_unpainted_byte_stays(
        blank(camera.pixels.len()),
        camera.width,
        camera.height,
        slices,
        textures,
        i,
    );
}

/// A camera that has drawn from a pose keeps its picture when it is asked
/// to draw from that pose again, whatever slices and textures it is given
/// the second time.
pub proof fn lemma_drawing_again_changes_nothing(
    camera: CameraView,
    pose: Pose,
    slices: Seq<WallSlice>,
    textures: Map<Seq<char>, Texture>,
    later_slices: Seq<WallSlice>,
    later_textures: Map<Seq<char>, Texture>,
)
    ensures
        drawn(camera, pose, slices, textures).last_pose == Some(pose),
        drawn(drawn(camera, pose, slices, textures), pose, later_slices, later_textures) == drawn(
            camera,
            pose,
            slices,
            textures,
        ),
{
}

/// The camera: the picture and the pose it was painted from.
pub struct Camera {
    screen_width: u32,
    screen_height: u32,
    camera_view: Vec<u8>,
    last_pose_drawn_from: Option<Pose>,
}

impl View for Camera {
    type V = CameraView;

    closed spec fn view(&self) -> CameraView {
        CameraView {
            width: self.screen_width as int,
            height: self.screen_height as int,
            pixels: self.camera_view@,
            last_pose: self.last_pose_drawn_from,
        }
    }
}

impl Camera {
    #[verifier::type_invariant]
    spec fn inv(self) -> bool {
        self@.wf()
    }

    /// A camera for the screen of `game_opts`, its picture black and painted
    /// from no pose yet.
    ///
    /// A screen without columns is refused, and so is one whose bytes are
    /// more than `isize::MAX`.
    pub fn new(game_opts: &GameOpts) -> (made: Result<Camera, CameraError>)
        ensures
            game_opts.screen_width == 0 ==> made == Err::<Camera, CameraError>(CameraError::NoColumns),
            game_opts.screen_width != 0 && 3 * game_opts.screen_width * game_opts.screen_height
                > isize::MAX ==> made == Err::<Camera, CameraError>(CameraError::TooLarge),
            game_opts.screen_width != 0 && 3 * game_opts.screen_width * game_opts.screen_height
                <= isize::MAX ==> made is Ok && made->Ok_0@ == (CameraView {
                width: game_opts.screen_width as int,
                height: game_opts.screen_height as int,
                pixels: blank((3 * game_opts.screen_width * game_opts.screen_height) as nat),
                last_pose: None,
            }),
    {
        let width: u32 = game_opts.screen_width;
        let height: u32 = game_opts.screen_height;
        if width == 0 {
            return Err(CameraError::NoColumns);
        }
        assert(0 <= width * height <= 0xffff_ffff * 0xffff_ffff) by (nonlinear_arith)
            requires
                0 <= width <= 0xffff_ffff,
                0 <= height <= 0xffff_ffff,
        ;
        let bytes: u128 = 3 * (width as u128 * height as u128);
        assert(bytes == 3 * width * height) by (nonlinear_arith)
            requires
                bytes == 3 * (width * height),
        ;
        if bytes > isize::MAX as u128 {
            return Err(CameraError::TooLarge);
        }
        let camera_view: Vec<u8> = vec![0u8; bytes as usize];
        assert(camera_view@ =~= blank(bytes as nat));
        Ok(Camera { screen_width: width, screen_height: height, camera_view, last_pose_drawn_from: None })
    }

    /// The picture: row by row, three bytes per pixel, red first.
    pub fn pixels(&self) -> (pixels: &Vec<u8>)
        ensures
            pixels@ == self@.pixels,
            self@.wf(),
    {
        proof {
            use_type_invariant(self);
        }
        &self.camera_view
    }

    /// The number of screen columns.
    pub fn width(&self) -> (width: u32)
        ensures
            width == self@.width,
    {
        self.screen_width
    }

    /// The number of screen rows.
    pub fn height(&self) -> (height: u32)
        ensures
            height == self@.height,
    {
        self.screen_height
    }

    /// Whether the picture was painted from `pose`, so that painting from it
    /// again would change nothing.
    pub fn is_current(&self, pose: &Pose) -> (current: bool)
        ensures
            current == (self@.last_pose == Some(*pose)),
    {
        match self.last_pose_drawn_from {
            Some(last) => last == *pose,
            None => false,
        }
    }

    /// Paints the column of `slice`, top row to bottom row, with the texture
    /// that its material wears in `loader`. A slice whose column is not on
    /// the screen paints nothing.
    pub fn draw_column(&mut self, slice: &WallSlice, loader: &TextureLoader)
        ensures
            final(self)@ == (CameraView {
                pixels: painted(
                    old(self)@.pixels,
                    old(self)@.width,
                    old(self)@.height,
                    *slice,
                    wall_texture(loader@, slice.material),
                ),
                ..old(self)@
            }),
    {
        proof {
            use_type_invariant(&*self);
        }
        let ghost before = self.camera_view@;
        assert(before.len() == self.camera_view.len());
        let ghost worn = wall_texture(loader@, slice.material);
        let ghost wide = self.screen_width as int;
        let ghost high = self.screen_height as int;
        if slice.column_index >= self.screen_width {
            assert(painted(before, wide, high, *slice, worn) =~= before);
            return;
        }
        let texture: Option<&Texture> = loader.texture(texture_name_for(slice.material));
        let width: usize = self.screen_width as usize;
        let column: usize = slice.column_index as usize;
        let mut y: u32 = 0;
        while y < self.screen_height
            invariant
                y <= self.screen_height,
                self.screen_width == wide,
                self.screen_height == high,
                width == wide,
                column == slice.column_index < wide,
                self.last_pose_drawn_from == old(self).last_pose_drawn_from,
                self.camera_view@.len() == before.len() == 3 * wide * high <= usize::MAX,
                worn == match texture {
                    Some(texture) => Some(*texture),
                    None => None,
                },
                forall|i: int|
                    0 <= i < before.len() ==> #[trigger] self.camera_view@[i] == (if (i / 3) % wide
                        == column && (i / 3) / wide < y {
                        slice_color(high, *slice, worn, (i / 3) / wide).channel(i % 3)
                    } else {
                        before[i]
                    }),
            decreases self.screen_height - y,
        {
            let color: Color = color_at(self.screen_height, slice, texture, y);
            assert(0 <= y * wide + column < wide * high && 3 * (y * wide + column) + 2 < 3 * wide
                * high) by (nonlinear_arith)
                requires
                    0 <= y < high,
                    0 <= column < wide,
            ;
            let at: usize = 3 * (y as usize * width + column);
            let ghost earlier = self.camera_view@;
            self.camera_view[at] = color.r;
            self.camera_view[at + 1] = color.g;
            self.camera_view[at + 2] = color.b;
            assert forall|i: int| 0 <= i < before.len() implies #[trigger] self.camera_view@[i]
                == (if (i / 3) % wide == column && (i / 3) / wide < y + 1 {
                slice_color(high, *slice, worn, (i / 3) / wide).channel(i % 3)
            } else {
                before[i]
            }) by {
                lemma_pixel_position(i / 3, wide, y as int, column as int);
                if at <= i < at + 3 {
                    assert(i / 3 == y * wide + column);
                } else {
                    assert(i / 3 != y * wide + column);
                    assert(self.camera_view@[i] == earlier[i]);
                }
            }
            y = y + 1;
        }
        assert(3 * wide * high == 3 * (wide * high)) by (nonlinear_arith);
        assert forall|i: int| 0 <= i < before.len() implies #[trigger] self.camera_view@[i]
            == painted(before, wide, high, *slice, worn)[i] by {
            assert((i / 3) / wide < high) by (nonlinear_arith)
                requires
                    0 <= i / 3 < wide * high,
                    0 < wide,
            ;
        }
        assert(self.camera_view@ =~= painted(before, wide, high, *slice, worn));
    }

    /// Draws a frame: the picture as it is seen from `pose`, where `slices`
    /// holds what the rays cast from that pose found.
    ///
    /// Where the picture was already painted from `pose`, nothing is painted
    /// and the answer is `false`. Else the picture is made black, every slice
    /// is painted, first to last, the pose is remembered, and the answer is
    /// `true`: a column that no slice stands for is black afterwards.
    pub fn draw(&mut self, pose: Pose, slices: &Vec<WallSlice>, loader: &TextureLoader) -> (redrawn:
        bool)
        ensures
            redrawn == (old(self)@.last_pose != Some(pose)),
            final(self)@ == drawn(old(self)@, pose, slices@, loader@),
    {
        if self.is_current(&pose) {
            return false;
        }
        proof {
            use_type_invariant(&*self);
        }
        let ghost before = self@;
        self.last_pose_drawn_from = Some(pose);
        let len: usize = self.camera_view.len();
        let mut at: usize = 0;
        while at < len
            invariant
                before.wf(),
                at <= len == self.camera_view@.len() == before.pixels.len(),
                self.screen_width == before.width,
                self.screen_height == before.height,
                self.last_pose_drawn_from == Some(pose),
                forall|i: int| 0 <= i < at ==> #[trigger] self.camera_view@[i] == 0,
            decreases len - at,
        {
            self.camera_view[at] = 0;
            at = at + 1;
        }
        assert(self.camera_view@ =~= blank(before.pixels.len()));
        let mut k: usize = 0;
        while k < slices.len()
            invariant
                k <= slices.len(),
                self@ == (CameraView {
                    pixels: painted_all(
                        blank(before.pixels.len()),
                        before.width,
                        before.height,
                        slices@.take(k as int),
                        loader@,
                    ),
                    last_pose: Some(pose),
                    ..before
                }),
            decreases slices.len() - k,
        {
            self.draw_column(&slices[k], loader);
            proof {
                let next = slices@.take(k + 1);
                assert(next.drop_last() =~= slices@.take(k as int));
                assert(next.last() == slices@[k as int]);
            }
            k = k + 1;
        }
        assert(slices@.take(k as int) =~= slices@);
        true
    }
}

} // verus!
