//! What a painted picture holds: the span of a wall on the screen, the
//! texture row behind every screen row, the fog, and the bytes of a picture
//! after columns were painted into it.

use crate::camera::WallSlice;
use crate::textures::{black, Color, Texture};
use vstd::prelude::*;

verus! {

/// The name of the texture that walls of the given material wear.
pub open spec fn wall_texture_name(material: u16) -> Seq<char> {
    if material == 2 {
        "eagle"@
    } else if material == 3 {
        "redbrick"@
    } else {
        "bluestone"@
    }
}

/// The texture that walls of the given material wear, if it is loaded.
pub open spec fn wall_texture(textures: Map<Seq<char>, Texture>, material: u16) -> Option<Texture> {
    if textures.contains_key(wall_texture_name(material)) {
        Some(textures[wall_texture_name(material)])
    } else {
        None
    }
}

/// The row before the first row of the wall, rows counted from 0: the wall
/// covers the rows strictly between `span_bottom` and `span_top`.
pub open spec fn span_bottom(height: int, block_size: int) -> int {
    height / 2 - block_size
}

/// The row after the last row of the wall.
pub open spec fn span_top(height: int, block_size: int) -> int {
    height / 2 + block_size
}

/// Whether screen row `y` shows the wall.
pub open spec fn in_span(height: int, block_size: int, y: int) -> bool {
    span_bottom(height, block_size) < y < span_top(height, block_size)
}

/// The texture row shown in screen row `y`: the row's share of the span,
/// scaled to the texture's height and rounded down.
pub open spec fn texture_row(height: int, block_size: int, tex_height: int, y: int) -> int {
    (y - span_bottom(height, block_size)) * tex_height / (2 * block_size)
}

/// The fog that is taken from each channel: `fogging` brought into 0..=255.
pub open spec fn fog_level(fogging: int) -> int {
    if fogging < 0 {
        0
    } else if fogging > 255 {
        255
    } else {
        fogging
    }
}

/// A channel after `fog` was taken from it, never below 0.
pub open spec fn shaded(channel: u8, fog: int) -> u8 {
    if channel - fog < 0 {
        0
    } else if channel - fog > 255 {
        255
    } else {
        (channel - fog) as u8
    }
}

/// A colour after `fog` was taken from each of its channels.
pub open spec fn shaded_color(color: Color, fog: int) -> Color {
    Color { r: shaded(color.r, fog), g: shaded(color.g, fog), b: shaded(color.b, fog) }
}

/// Whether anything of the slice is shown at all: a wall was struck, and
/// nearer than the view distance.
pub open spec fn shows_wall(slice: WallSlice) -> bool {
    slice.in_view && slice.material != 0
}

/// The colour of screen row `y` in the column of `slice`.
///
/// Inside the span it is the texel of `texture`, with the fog taken from it;
/// it is black outside the span, where no wall shows, where the texture is
/// missing and where the texture has no such texel.
pub open spec fn slice_color(height: int, slice: WallSlice, texture: Option<Texture>, y: int) -> Color {
    if shows_wall(slice) && in_span(height, slice.block_size as int, y) {
        match texture {
            Some(texture) => {
                let row = texture_row(height, slice.block_size as int, texture.height as int, y);
                if texture.holds(slice.tex_x_index, row as u32) {
                    shaded_color(
                        texture.texel(slice.tex_x_index, row as u32),
                        fog_level(slice.fogging as int),
                    )
                } else {
                    black()
                }
            },
            None => black(),
        }
    } else {
        black()
    }
}

/// A picture of `len` bytes that is black all over.
pub open spec fn blank(len: nat) -> Seq<u8> {
    Seq::new(len, |i: int| 0u8)
}

/// The buffer after the column of `slice` was painted: every byte of that
/// column holds its channel of `slice_color`, every other byte is as before.
/// Pixels lie row by row, three bytes each.
pub open spec fn painted(
    pixels: Seq<u8>,
    width: int,
    height: int,
    slice: WallSlice,
    texture: Option<Texture>,
) -> Seq<u8> {
    Seq::new(
        pixels.len(),
        |i: int|
            if (i / 3) % width == slice.column_index {
                slice_color(height, slice, texture, (i / 3) / width).channel(i % 3)
            } else {
                pixels[i]
            },
    )
}

/// The buffer after the columns of all `slices` were painted, first to last,
/// each with the texture that its material wears.
pub open spec fn painted_all(
    pixels: Seq<u8>,
    width: int,
    height: int,
    slices: Seq<WallSlice>,
    textures: Map<Seq<char>, Texture>,
) -> Seq<u8>
    decreases slices.len(),
{
    if slices.len() == 0 {
        pixels
    } else {
        painted(
            painted_all(pixels, width, height, slices.drop_last(), textures),
            width,
            height,
            slices.last(),
            wall_texture(textures, slices.last().material),
        )
    }
}

/// Whether a slice of `slices` stands for the given column.
pub open spec fn paints_column(slices: Seq<WallSlice>, column: int) -> bool {
    exists|k: int| 0 <= k < slices.len() && #[trigger] slices[k].column_index == column
}

/// A byte whose column no slice of `slices` stands for is after painting
/// what it was before.
pub proof fn lemma_unpainted_byte_stays(
    pixels: Seq<u8>,
    width: int,
    height: int,
    slices: Seq<WallSlice>,
    textures: Map<Seq<char>, Texture>,
    i: int,
)
    requires
        0 <= i < pixels.len(),
        !paints_column(slices, (i / 3) % width),
    ensures
        painted_all(pixels, width, height, slices, textures).len() == pixels.len(),
        painted_all(pixels, width, height, slices, textures)[i] == pixels[i],
    decreases slices.len(),
{
    lemma_painted_all_len(pixels, width, height, slices, textures);
    if slices.len() > 0 {
        let earlier = slices.drop_last();
        lemma_painted_all_len(pixels, width, height, earlier, textures);
        assert(slices[slices.len() - 1].column_index != (i / 3) % width);
        if paints_column(earlier, (i / 3) % width) {
            let k = choose|k: int|
                0 <= k < earlier.len() && #[trigger] earlier[k].column_index == (i / 3) % width;
            assert(slices[k] == earlier[k]);
        }
        lemma_unpainted_byte_stays(pixels, width, height, earlier, textures, i);
    }
}

/// Whether a slice of `slices` stands for every column of a screen `width`
/// wide.
pub open spec fn covers(slices: Seq<WallSlice>, width: int) -> bool {
    forall|column: int| 0 <= column < width ==> #[trigger] paints_column(slices, column)
}

/// Painting keeps the number of bytes.
pub proof fn lemma_painted_all_len(
    pixels: Seq<u8>,
    width: int,
    height: int,
    slices: Seq<WallSlice>,
    textures: Map<Seq<char>, Texture>,
)
    ensures
        painted_all(pixels, width, height, slices, textures).len() == pixels.len(),
    decreases slices.len(),
{
    if slices.len() > 0 {
        lemma_painted_all_len(pixels, width, height, slices.drop_last(), textures);
    }
}

/// A byte whose column is painted by one of `slices` holds the same after
/// painting, whatever the picture held before.
proof fn lemma_painted_byte_forgets(
    first: Seq<u8>,
    second: Seq<u8>,
    width: int,
    height: int,
    slices: Seq<WallSlice>,
    textures: Map<Seq<char>, Texture>,
    i: int,
)
    requires
        first.len() == second.len(),
        0 <= i < first.len(),
        paints_column(slices, (i / 3) % width),
    ensures
        painted_all(first, width, height, slices, textures)[i] == painted_all(
            second,
            width,
            height,
            slices,
            textures,
        )[i],
    decreases slices.len(),
{
    let earlier = slices.drop_last();
    lemma_painted_all_len(first, width, height, earlier, textures);
    lemma_painted_all_len(second, width, height, earlier, textures);
    if slices.last().column_index != (i / 3) % width {
        let k = choose|k: int|
            0 <= k < slices.len() && #[trigger] slices[k].column_index == (i / 3) % width;
        assert(earlier[k] == slices[k]);
        assert(paints_column(earlier, (i / 3) % width));
        lemma_painted_byte_forgets(first, second, width, height, earlier, textures, i);
    }
}

/// A whole frame leaves nothing of the picture before it: where the slices
/// stand for every column of the screen, the picture after painting them is
/// the same for any two pictures of one size that the painting began with.
/// So the picture of a frame is fixed by the slices and the textures alone.
pub proof fn lemma_whole_frame_forgets_the_picture_before(
    first: Seq<u8>,
    second: Seq<u8>,
    width: int,
    height: int,
    slices: Seq<WallSlice>,
    textures: Map<Seq<char>, Texture>,
)
    requires
        0 < width,
        first.len() == second.len(),
        covers(slices, width),
    ensures
        painted_all(first, width, height, slices, textures) == painted_all(
            second,
            width,
            height,
            slices,
            textures,
        ),
{
    let one = painted_all(first, width, height, slices, textures);
    let other = painted_all(second, width, height, slices, textures);
    lemma_painted_all_len(first, width, height, slices, textures);
    lemma_painted_all_len(second, width, height, slices, textures);
    assert forall|i: int| 0 <= i < one.len() implies one[i] == other[i] by {
        let column = (i / 3) % width;
        assert(0 <= column < width);
        assert(paints_column(slices, column));
        lemma_painted_byte_forgets(first, second, width, height, slices, textures, i);
    }
    assert(one =~= other);
}

/// Whether `slices` holds one slice for every column of a screen `width`
/// wide, in the order of the columns.
pub open spec fn one_slice_per_column(slices: Seq<WallSlice>, width: int) -> bool {
    &&& slices.len() == width
    &&& forall|k: int| 0 <= k < slices.len() ==> #[trigger] slices[k].column_index == k
}

/// The picture of a frame, byte by byte: every pixel shows the colour that
/// the slice of its column has in its row.
pub open spec fn frame(
    width: int,
    height: int,
    slices: Seq<WallSlice>,
    textures: Map<Seq<char>, Texture>,
) -> Seq<u8> {
    Seq::new(
        (3 * width * height) as nat,
        |i: int|
            slice_color(
                height,
                slices[(i / 3) % width],
                wall_texture(textures, slices[(i / 3) % width].material),
                (i / 3) / width,
            ).channel(i % 3),
    )
}

/// After the first `slices.len()` columns were painted, each by its own
/// slice, every byte of those columns shows its slice and every other byte
/// is as before.
proof fn lemma_painted_columns(
    pixels: Seq<u8>,
    width: int,
    height: int,
    slices: Seq<WallSlice>,
    textures: Map<Seq<char>, Texture>,
    i: int,
)
    requires
        0 < width,
        0 <= i < pixels.len(),
        slices.len() <= width,
        forall|k: int| 0 <= k < slices.len() ==> #[trigger] slices[k].column_index == k,
    ensures
        painted_all(pixels, width, height, slices, textures).len() == pixels.len(),
        painted_all(pixels, width, height, slices, textures)[i] == (if (i / 3) % width
            < slices.len() {
            slice_color(
                height,
                slices[(i / 3) % width],
                wall_texture(textures, slices[(i / 3) % width].material),
                (i / 3) / width,
            ).channel(i % 3)
        } else {
            pixels[i]
        }),
    decreases slices.len(),
{
    lemma_painted_all_len(pixels, width, height, slices, textures);
    if slices.len() > 0 {
        let earlier = slices.drop_last();
        lemma_painted_all_len(pixels, width, height, earlier, textures);
        assert forall|k: int| 0 <= k < earlier.len() implies #[trigger] earlier[k].column_index
            == k by {
            assert(earlier[k] == slices[k]);
        }
        lemma_painted_columns(pixels, width, height, earlier, textures, i);
        let column = (i / 3) % width;
        if column < earlier.len() {
            assert(earlier[column] == slices[column]);
        }
    }
}

/// A whole frame in one formula: where `slices` holds one slice for every
/// column, in the order of the columns, the picture after painting them is
/// `frame`, whatever the picture held before.
pub proof fn lemma_whole_frame(
    pixels: Seq<u8>,
    width: int,
    height: int,
    slices: Seq<WallSlice>,
    textures: Map<Seq<char>, Texture>,
)
    requires
        0 < width,
        0 <= height,
        pixels.len() == 3 * width * height,
        one_slice_per_column(slices, width),
    ensures
        painted_all(pixels, width, height, slices, textures) == frame(
            width,
            height,
            slices,
            textures,
        ),
{
    let after = painted_all(pixels, width, height, slices, textures);
    lemma_painted_all_len(pixels, width, height, slices, textures);
    assert forall|i: int| 0 <= i < after.len() implies after[i] == frame(
        width,
        height,
        slices,
        textures,
    )[i] by {
        lemma_painted_columns(pixels, width, height, slices, textures, i);
        assert(0 <= (i / 3) % width < width);
    }
    assert(after =~= frame(width, height, slices, textures));
}

/// Fog at its ends: a fogging of 255 or more takes every channel of every
/// colour to 0, and a fogging of 0 or less leaves every colour as it is.
pub proof fn lemma_fog_at_its_ends(color: Color, fogging: int)
    ensures
        fogging >= 255 ==> shaded_color(color, fog_level(fogging)) == black(),
        fogging <= 0 ==> shaded_color(color, fog_level(fogging)) == color,
{
}

/// A slice that is not in view, or that struck nothing, is black in every
/// row, whatever its texture and its fog.
pub proof fn lemma_nothing_shows_beyond_the_view(
    height: int,
    slice: WallSlice,
    texture: Option<Texture>,
    y: int,
)
    requires
        !slice.in_view || slice.material == 0,
    ensures
        slice_color(height, slice, texture, y) == black(),
{
}

/// The texture row of a screen row that shows the wall lies inside the
/// texture.
pub proof fn lemma_texture_row_in_texture(height: int, block_size: int, tex_height: int, y: int)
    requires
        in_span(height, block_size, y),
        0 < tex_height,
    ensures
        0 <= texture_row(height, block_size, tex_height, y) < tex_height,
{
    let above = y - span_bottom(height, block_size);
    let span = 2 * block_size;
    assert(0 < above < span);
    assert(0 <= above * tex_height < span * tex_height) by (nonlinear_arith)
        requires
            0 < above < span,
            0 < tex_height,
    ;
    vstd::arithmetic::div_mod::lemma_div_pos_is_pos(above * tex_height, span);
    vstd::arithmetic::div_mod::lemma_multiply_divide_lt(above * tex_height, span, tex_height);
}

} // verus!
