//! Wall textures: pixel sources addressed by column and row.

use vstd::hash_map::StringHashMap;
use vstd::prelude::*;
use vstd::string::{StrSliceExecFns, StringExecFns};

verus! {

/// A colour by its red, green and blue channels.
#[derive(Clone, Copy, Debug, PartialEq, Eq, Structural)]
pub struct Color {
    pub r: u8,
    pub g: u8,
    pub b: u8,
}

impl Color {
    /// One of the three bytes of the colour: red, green, blue for 0, 1, 2.
    pub open spec fn channel(self, k: int) -> u8 {
        if k == 0 {
            self.r
        } else if k == 1 {
            self.g
        } else {
            self.b
        }
    }
}

/// The colour of all that is no wall.
pub open spec fn black() -> Color {
    Color { r: 0, g: 0, b: 0 }
}

/// Where the three bytes of the texel in column `x` and row `y` begin, in
/// a texture `width` texels wide whose texels lie row by row.
pub open spec fn texel_offset(width: int, x: int, y: int) -> int {
    3 * (x + y * width)
}

/// A texture: its size in texels and its bytes, three per texel, row by row.
pub struct Texture {
    pub width: u32,
    pub height: u32,
    pub pixels: Vec<u8>,
}

impl Texture {
    /// Whether the texture has a texel in column `x` and row `y`: the place
    /// lies inside its size, and its three bytes are there.
    pub open spec fn holds(&self, x: u32, y: u32) -> bool {
        &&& x < self.width
        &&& y < self.height
        &&& texel_offset(self.width as int, x as int, y as int) + 2 < self.pixels.len()
    }

    /// The texel in column `x` and row `y`.
    pub open spec fn texel(&self, x: u32, y: u32) -> Color
        recommends
            self.holds(x, y),
    {
        let at = texel_offset(self.width as int, x as int, y as int);
        Color { r: self.pixels@[at], g: self.pixels@[at + 1], b: self.pixels@[at + 2] }
    }

    /// A texture of the given size over the given bytes.
    pub fn new(width: u32, height: u32, pixels: Vec<u8>) -> (texture: Texture)
        ensures
            texture.width == width,
            texture.height == height,
            texture.pixels@ == pixels@,
    {
        Texture { width, height, pixels }
    }

    /// The number of the texel in column `x` and row `y`, counted along the rows.
    fn texel_number(&self, x: u32, y: u32) -> (number: u64)
        ensures
            3 * number == texel_offset(self.width as int, x as int, y as int),
    {
        assert(0 <= y * self.width <= 0xffff_ffff * 0xffff_ffff) by (nonlinear_arith)
            requires
                0 <= y <= 0xffff_ffff,
                0 <= self.width <= 0xffff_ffff,
        ;
        x as u64 + y as u64 * self.width as u64
    }

    /// Reads the texel in column `x` and row `y`, or nothing where the
    /// texture has no such texel.
    pub fn sample(&self, x: u32, y: u32) -> (color: Option<Color>)
        ensures
            color == if self.holds(x, y) {
                Some(self.texel(x, y))
            } else {
                None::<Color>
            },
    {
        if x >= self.width || y >= self.height {
            return None;
        }
        let number: u64 = self.texel_number(x, y);
        let len: u64 = self.pixels.len() as u64;
        if number >= len / 3 {
            return None;
        }
        let at: usize = (3 * number) as usize;
        Some(Color { r: self.pixels[at], g: self.pixels[at + 1], b: self.pixels[at + 2] })
    }

    /// Reads the texel in column `x` and row `y`.
    pub fn pixel(&self, x: u32, y: u32) -> (color: Color)
        requires
            self.holds(x, y),
        ensures
            color == self.texel(x, y),
    {
        let number: u64 = self.texel_number(x, y);
        let at: usize = (3 * number) as usize;
        Color { r: self.pixels[at], g: self.pixels[at + 1], b: self.pixels[at + 2] }
    }
}

/// Every place inside the size of a texture holds a texel, where the
/// texture has three bytes for each of its texels.
pub proof fn lemma_whole_texture_holds(texture: Texture, x: u32, y: u32)
    requires
        texture.pixels.len() >= 3 * texture.width * texture.height,
        x < texture.width,
        y < texture.height,
    ensures
        texture.holds(x, y),
{
    assert(3 * (x + y * texture.width) + 2 < 3 * texture.width * texture.height)
        by (nonlinear_arith)
        requires
            0 <= x < texture.width,
            0 <= y < texture.height,
    ;
}

/// Two places of a texture that differ are read from bytes that lie apart.
pub proof fn lemma_texels_lie_apart(width: int, x: int, y: int, other_x: int, other_y: int)
    requires
        0 <= x < width,
        0 <= other_x < width,
        0 <= y,
        0 <= other_y,
        x != other_x || y != other_y,
    ensures
        texel_offset(width, x, y) + 3 <= texel_offset(width, other_x, other_y) || texel_offset(
            width,
            other_x,
            other_y,
        ) + 3 <= texel_offset(width, x, y),
{
    if y < other_y {
        assert(y * width + width <= other_y * width) by (nonlinear_arith)
            requires
                y + 1 <= other_y,
                0 < width,
        ;
    } else if other_y < y {
        assert(other_y * width + width <= y * width) by (nonlinear_arith)
            requires
                other_y + 1 <= y,
                0 < width,
        ;
    }
}

/// Where the last part of a path begins: behind its last `/`, or at 0 where
/// it has none.
pub open spec fn file_start(path: Seq<char>) -> int
    decreases path.len(),
{
    if path.len() == 0 {
        0
    } else if path.last() == '/' {
        path.len() as int
    } else {
        file_start(path.drop_last())
    }
}

/// Where the first `.` at or behind `from` stands, or the length of the
/// path where there is none.
pub open spec fn stem_end(path: Seq<char>, from: int) -> int
    decreases path.len() - from,
{
    if from < 0 || from >= path.len() || path[from] == '.' {
        from
    } else {
        stem_end(path, from + 1)
    }
}

/// The name under which the texture in the file at `path` is kept: the last
/// part of the path, up to its first `.`.
pub open spec fn name_of_path(path: Seq<char>) -> Seq<char> {
    path.subrange(file_start(path), stem_end(path, file_start(path)))
}

/// Whether `path` ends in `.png`.
pub open spec fn ends_in_png(path: Seq<char>) -> bool {
    path.len() >= 4 && path.subrange(path.len() - 4, path.len() as int) == ".png"@
}

/// Gives the name under which the texture in the file at `path` is kept.
pub fn texture_name(path: &str) -> (name: &str)
    ensures
        name@ == name_of_path(path@),
{
    let len: usize = path.unicode_len();
    let mut start: usize = len;
    assert(path@.take(len as int) =~= path@);
    while start > 0 && path.get_char(start - 1) != '/'
        invariant
            start <= len == path@.len(),
            file_start(path@) == file_start(path@.take(start as int)),
        decreases start,
    {
        proof {
            let head = path@.take(start as int);
            assert(head.drop_last() =~= path@.take(start - 1));
        }
        start = start - 1;
    }
    proof {
        let head = path@.take(start as int);
        assert(file_start(head) == start);
    }
    let mut end: usize = start;
    while end < len && path.get_char(end) != '.'
        invariant
            start <= end <= len == path@.len(),
            stem_end(path@, start as int) == stem_end(path@, end as int),
        decreases len - end,
    {
        end = end + 1;
    }
    path.substring_char(start, end)
}

/// Whether the file at `path` is taken for a texture: its path ends in
/// `.png`.
pub fn is_texture_path(path: &str) -> (texture: bool)
    ensures
        texture == ends_in_png(path@),
{
    proof {
        reveal_strlit(".png");
    }
    let len: usize = path.unicode_len();
    if len < 4 {
        return false;
    }
    let found: bool = path.get_char(len - 4) == '.' && path.get_char(len - 3) == 'p'
        && path.get_char(len - 2) == 'n' && path.get_char(len - 1) == 'g';
    proof {
        let tail = path@.subrange(len - 4, len as int);
        if found {
            assert(tail =~= ".png"@);
        } else {
            assert(tail[0] == path@[len - 4]);
            assert(tail[1] == path@[len - 3]);
            assert(tail[2] == path@[len - 2]);
            assert(tail[3] == path@[len - 1]);
        }
    }
    found
}

/// Gives the name of the file that holds the texture `tex_name`.
pub fn texture_file_name(tex_name: &str) -> (file_name: String)
    ensures
        file_name@ == tex_name@ + ".png"@,
{
    String::from_str(tex_name).concat(".png")
}

/// The textures that are loaded, each under its name.
pub struct TextureLoader {
    textures: StringHashMap<Texture>,
}

impl View for TextureLoader {
    type V = Map<Seq<char>, Texture>;

    closed spec fn view(&self) -> Self::V {
        self.textures@
    }
}

impl TextureLoader {
    /// A loader that holds no texture yet.
    pub fn new() -> (loader: Self)
        ensures
            loader@ == Map::<Seq<char>, Texture>::empty(),
    {
        TextureLoader { textures: StringHashMap::new() }
    }

    /// Keeps `texture` under `tex_name`, in place of any texture that had the
    /// name before.
    pub fn store(&mut self, tex_name: &str, texture: Texture)
        ensures
            final(self)@ == old(self)@.insert(tex_name@, texture),
    {
        self.textures.insert(tex_name.to_owned(), texture);
    }

    /// The texture kept under `tex_name`, if there is one.
    pub fn texture(&self, tex_name: &str) -> (found: Option<&Texture>)
        ensures
            match found {
                Some(texture) => self@.contains_key(tex_name@) && *texture == self@[tex_name@],
                None => !self@.contains_key(tex_name@),
            },
    {
        self.textures.get(tex_name)
    }
}

} // verus!
