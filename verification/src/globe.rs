use vstd::prelude::*;
use vstd::string::*;
use crate::text_util::{chars_of, grid_view, lines_of, split_lines};

verus! {

/// The characters that a texture and a frame are made of, dimmest first.
pub const PALETTE: &'static str = " .:;',wiogOLXHWYV@";

/// The palette as a sequence: index 0 is the dimmest character, index 17 the
/// brightest.
pub open spec fn palette() -> Seq<char> {
    seq![
        ' ', '.', ':', ';', '\'', ',', 'w', 'i', 'o', 'g', 'O', 'L', 'X', 'H', 'W', 'Y', 'V', '@',
    ]
}

/// The value of `x` limited to the closed range from `lo` to `hi`.
///
/// When the range is empty (`hi < lo`) the upper bound wins.
pub open spec fn clamped(x: int, lo: int, hi: int) -> int {
    if hi < lo {
        hi
    } else if x < lo {
        lo
    } else if x > hi {
        hi
    } else {
        x
    }
}

/// The position of the first `c` in `s`, or -1 where `s` holds no `c`.
pub open spec fn first_index(s: Seq<char>, c: char) -> int
    decreases s.len(),
{
    if s.len() == 0 {
        -1
    } else if s[0] == c {
        0
    } else {
        let rest = first_index(s.drop_first(), c);
        if rest < 0 {
            -1
        } else {
            rest + 1
        }
    }
}

/// `canvas` with `c` written at column `x` of row `y`, where that cell lies
/// inside both the frame of `width` by `height` and the canvas itself; else
/// `canvas` unchanged.
pub open spec fn plotted(
    canvas: Seq<Seq<char>>,
    x: int,
    y: int,
    c: char,
    width: int,
    height: int,
) -> Seq<Seq<char>> {
    if 0 <= x < width && 0 <= y < height && y < canvas.len() && x < canvas[y].len() {
        canvas.update(y, canvas[y].update(x, c))
    } else {
        canvas
    }
}

/// Limits an index to the closed range from `min_val` to `max_val`.
pub fn clamp_int(x: i32, min_val: i32, max_val: i32) -> (r: i32)
    ensures
        r == clamped(x as int, min_val as int, max_val as int),
{
    let low: i32 = if x < min_val {
        min_val
    } else {
        x
    };
    if low > max_val {
        max_val
    } else {
        low
    }
}

/// Writes `c` into the cell at column `x` of row `y`, if that cell lies
/// inside the frame and inside the canvas.
pub fn draw_point(
    canvas: &mut Vec<Vec<char>>,
    x: usize,
    y: usize,
    c: char,
    canvas_width: usize,
    canvas_height: usize,
)
    ensures
        grid_view(final(canvas)@) == plotted(
            grid_view(old(canvas)@),
            x as int,
            y as int,
            c,
            canvas_width as int,
            canvas_height as int,
        ),
{
    if x < canvas_width && y < canvas_height {
        if y < canvas.len() {
            if x < canvas[y].len() {
                canvas[y][x] = c;
                assert(grid_view(canvas@) =~= plotted(
                    grid_view(old(canvas)@),
                    x as int,
                    y as int,
                    c,
                    canvas_width as int,
                    canvas_height as int,
                ));
            }
        }
    }
}

/// The cell at column `x` of row `y` of a texture, where there is one.
pub open spec fn texel(texture: Seq<Seq<char>>, x: int, y: int) -> Option<char> {
    if 0 <= y < texture.len() && 0 <= x < texture[y].len() {
        Some(texture[y][x])
    } else {
        None
    }
}

/// The palette indices of the day and the night texel at one coordinate.
///
/// There is no sample where either texture lacks the cell or holds a
/// character there that the palette does not have.
pub open spec fn sampled(
    day: Seq<Seq<char>>,
    night: Seq<Seq<char>>,
    x: int,
    y: int,
) -> Option<(int, int)> {
    match (texel(day, x, y), texel(night, x, y)) {
        (Some(d), Some(n)) => {
            if first_index(palette(), d) >= 0 && first_index(palette(), n) >= 0 {
                Some((first_index(palette(), d), first_index(palette(), n)))
            } else {
                None
            }
        },
        _ => None,
    }
}

/// The palette character for a blended index: the index is first limited to
/// the palette's range.
pub open spec fn shade_of(index: int) -> char {
    palette()[clamped(index, 0, palette().len() - 1)]
}

/// A texture can be sampled when it has a row and its first row has a cell.
pub open spec fn usable(texture: Seq<Seq<char>>) -> bool {
    texture.len() > 0 && texture[0].len() > 0
}

/// The first `c` in `s` stands at `k`, given that it stands there and not before.
pub proof fn lemma_first_index_at(s: Seq<char>, c: char, k: int)
    requires
        0 <= k < s.len(),
        s[k] == c,
        forall|j: int| 0 <= j < k ==> s[j] != c,
    ensures
        first_index(s, c) == k,
    decreases s.len(),
{
    if k > 0 {
        let t = s.drop_first();
        assert forall|j: int| 0 <= j < k - 1 implies t[j] != c by {
            assert(t[j] == s[j + 1]);
        }
        lemma_first_index_at(t, c, k - 1);
    }
}

/// `first_index` is -1 exactly where `s` holds no `c`; else it points at the
/// first `c`.
pub proof fn lemma_first_index(s: Seq<char>, c: char)
    ensures
        -1 <= first_index(s, c) < s.len(),
        first_index(s, c) == -1 <==> forall|j: int| 0 <= j < s.len() ==> s[j] != c,
        first_index(s, c) >= 0 ==> s[first_index(s, c)] == c,
        forall|j: int| 0 <= j < first_index(s, c) ==> s[j] != c,
    decreases s.len(),
{
    if s.len() > 0 {
        if s[0] != c {
            let t = s.drop_first();
            lemma_first_index(t, c);
            assert forall|j: int| 0 <= j < first_index(s, c) implies s[j] != c by {
                if j > 0 {
                    assert(t[j - 1] == s[j]);
                }
            }
            if first_index(t, c) == -1 {
                assert forall|j: int| 0 <= j < s.len() implies s[j] != c by {
                    if j > 0 {
                        assert(t[j - 1] == s[j]);
                    }
                }
            } else {
                assert(s[first_index(t, c) + 1] == c);
            }
        }
    }
}

/// The palette constant holds the eighteen characters of `palette`, no two
/// of them alike.
pub proof fn lemma_palette()
    ensures
        PALETTE@ == palette(),
        palette().len() == 18,
        forall|i: int, j: int| 0 <= i < j < 18 ==> palette()[i] != palette()[j],
{
    reveal_strlit(" .:;',wiogOLXHWYV@");
    assert(PALETTE@ =~= palette());
}

/// Looking a palette character up gives the place it was taken from.
pub proof fn lemma_palette_index(i: int)
    requires
        0 <= i < 18,
    ensures
        first_index(palette(), palette()[i]) == i,
        shade_of(i) == palette()[i],
{
    lemma_palette();
    lemma_first_index_at(palette(), palette()[i], i);
}

/// The position of the first `c` in `s`, or -1 where `s` holds no `c`.
pub fn find_index(c: char, s: &str) -> (r: i32)
    requires
        s@.len() <= i32::MAX,
    ensures
        r == first_index(s@, c),
{
    let chars = chars_of(s);
    let n: usize = chars.len();
    let mut i: usize = 0;
    while i < n
        invariant
            i <= n,
            n == s@.len(),
            n <= i32::MAX,
            chars@ == s@,
            forall|j: int| 0 <= j < i ==> s@[j] != c,
        decreases n - i,
    {
        if chars[i] == c {
            proof {
                lemma_first_index_at(s@, c, i as int);
            }
            return i as i32;
        }
        i += 1;
    }
    proof {
        lemma_first_index(s@, c);
    }
    -1
}

/// The palette index of `c`, or -1 where the palette does not have it.
pub fn palette_index(c: char) -> (r: i32)
    ensures
        r == first_index(palette(), c),
        -1 <= r < 18,
{
    proof {
        lemma_palette();
        lemma_first_index(palette(), c);
    }
    find_index(c, PALETTE)
}

/// The palette character for a blended index, limited to the palette's range.
pub fn palette_char(index: usize) -> (c: char)
    ensures
        c == shade_of(index as int),
{
    proof {
        lemma_palette();
    }
    let last: usize = PALETTE.unicode_len() - 1;
    let i: usize = if index > last {
        last
    } else {
        index
    };
    PALETTE.get_char(i)
}

/// Turns a scaled texture coordinate into a column or row of a texture with
/// `size` columns or rows.
pub fn texel_index(raw: i32, size: usize) -> (r: usize)
    requires
        size >= 1,
    ensures
        r == clamped(raw as int, 0, size - 1),
        r < size,
{
    if raw < 0 {
        0
    } else if size - 1 <= 0x7fff_ffff {
        clamp_int(raw, 0, (size - 1) as i32) as usize
    } else {
        raw as usize
    }
}

/// The rows of a texture: the lines of `content`, one cell per character.
pub fn parse_texture(content: &str) -> (texture: Vec<Vec<char>>)
    ensures
        grid_view(texture@) == split_lines(content@),
{
    let lines = lines_of(content);
    let n: usize = lines.len();
    let mut texture: Vec<Vec<char>> = Vec::new();
    let mut i: usize = 0;
    while i < n
        invariant
            i <= n,
            n == lines@.len(),
            texture@.len() == i,
            forall|j: int| 0 <= j < i ==> (#[trigger] texture@[j])@ == lines@[j]@,
        decreases n - i,
    {
        texture.push(chars_of(lines[i].as_str()));
        i += 1;
    }
    assert(grid_view(texture@) =~= crate::text_util::rows_view(lines@));
    texture
}

/// The palette indices of the day and the night texel at column `x` of row
/// `y`, where both textures have a palette character there.
pub fn sample_texels(day: &Vec<Vec<char>>, night: &Vec<Vec<char>>, x: usize, y: usize) -> (r:
    Option<(usize, usize)>)
    ensures
        match r {
            Some((d, n)) => sampled(grid_view(day@), grid_view(night@), x as int, y as int)
                == Some((d as int, n as int)),
            None => sampled(grid_view(day@), grid_view(night@), x as int, y as int) is None,
        },
{
    if y < day.len() && y < night.len() {
        if x < day[y].len() && x < night[y].len() {
            let d: i32 = palette_index(day[y][x]);
            let n: i32 = palette_index(night[y][x]);
            if d >= 0 && n >= 0 {
                return Some((d as usize, n as usize));
            }
        }
    }
    None
}

/// Writes the palette character for `index` into the cell at column `x` of
/// row `y`, if that cell lies inside the frame and inside the canvas.
pub fn shade_pixel(
    canvas: &mut Vec<Vec<char>>,
    x: usize,
    y: usize,
    index: usize,
    canvas_width: usize,
    canvas_height: usize,
)
    ensures
        grid_view(final(canvas)@) == plotted(
            grid_view(old(canvas)@),
            x as int,
            y as int,
            shade_of(index as int),
            canvas_width as int,
            canvas_height as int,
        ),
{
    let c = palette_char(index);
    draw_point(canvas, x, y, c, canvas_width, canvas_height);
}

/// Why a pair of textures cannot be used.
#[derive(Debug, Clone, Copy, PartialEq, Eq, Structural)]
pub enum TextureError {
    /// The day texture has no row, or its first row has no cell.
    EmptyDay,
    /// The night texture has no row, or its first row has no cell.
    EmptyNight,
}

/// The day and the night texture of the globe, both usable.
pub struct GlobeTextures {
    day: Vec<Vec<char>>,
    night: Vec<Vec<char>>,
}

impl GlobeTextures {
    #[verifier::type_invariant]
    spec fn inv(self) -> bool {
        usable(grid_view(self.day@)) && usable(grid_view(self.night@))
    }

    /// The rows of the day texture.
    pub closed spec fn day_rows(self) -> Seq<Seq<char>> {
        grid_view(self.day@)
    }

    /// The rows of the night texture.
    pub closed spec fn night_rows(self) -> Seq<Seq<char>> {
        grid_view(self.night@)
    }

    /// Pairs two textures, refusing one that cannot be sampled. The day
    /// texture is looked at first.
    pub fn new(day: Vec<Vec<char>>, night: Vec<Vec<char>>) -> (r: Result<Self, TextureError>)
        ensures
            match r {
                Ok(pair) => usable(grid_view(day@)) && usable(grid_view(night@))
                    && pair.day_rows() == grid_view(day@) && pair.night_rows() == grid_view(
                    night@,
                ),
                Err(TextureError::EmptyDay) => !usable(grid_view(day@)),
                Err(TextureError::EmptyNight) => usable(grid_view(day@)) && !usable(
                    grid_view(night@),
                ),
            },
    {
        if day.len() == 0 || day[0].len() == 0 {
            return Err(TextureError::EmptyDay);
        }
        if night.len() == 0 || night[0].len() == 0 {
            return Err(TextureError::EmptyNight);
        }
        Ok(Self { day, night })
    }

    /// Reads both textures from their text and pairs them.
    pub fn from_text(day_text: &str, night_text: &str) -> (r: Result<Self, TextureError>)
        ensures
            match r {
                Ok(pair) => usable(split_lines(day_text@)) && usable(split_lines(night_text@))
                    && pair.day_rows() == split_lines(day_text@) && pair.night_rows()
                    == split_lines(night_text@),
                Err(TextureError::EmptyDay) => !usable(split_lines(day_text@)),
                Err(TextureError::EmptyNight) => usable(split_lines(day_text@)) && !usable(
                    split_lines(night_text@),
                ),
            },
    {
        Self::new(parse_texture(day_text), parse_texture(night_text))
    }

    /// The number of columns that texture coordinates are scaled to: the
    /// length of the day texture's first row.
    pub fn width(&self) -> (w: usize)
        ensures
            w == self.day_rows()[0].len(),
            w >= 1,
    {
        proof {
            use_type_invariant(self);
        }
        self.day[0].len()
    }

    /// The number of rows of the day texture.
    pub fn height(&self) -> (h: usize)
        ensures
            h == self.day_rows().len(),
            h >= 1,
    {
        proof {
            use_type_invariant(self);
        }
        self.day.len()
    }

    /// The day texture.
    pub fn day(&self) -> (t: &Vec<Vec<char>>)
        ensures
            grid_view(t@) == self.day_rows(),
    {
        &self.day
    }

    /// The night texture.
    pub fn night(&self) -> (t: &Vec<Vec<char>>)
        ensures
            grid_view(t@) == self.night_rows(),
    {
        &self.night
    }

    /// The sample for a pixel whose scaled texture coordinates are `raw_x`
    /// and `raw_y`: both are limited to the day texture's columns and rows,
    /// then both textures are read there.
    pub fn lookup(&self, raw_x: i32, raw_y: i32) -> (r: Option<(usize, usize)>)
        ensures
            usable(self.day_rows()),
            match r {
                Some((d, n)) => sampled(
                    self.day_rows(),
                    self.night_rows(),
                    clamped(raw_x as int, 0, self.day_rows()[0].len() - 1),
                    clamped(raw_y as int, 0, self.day_rows().len() - 1),
                ) == Some((d as int, n as int)),
                None => sampled(
                    self.day_rows(),
                    self.night_rows(),
                    clamped(raw_x as int, 0, self.day_rows()[0].len() - 1),
                    clamped(raw_y as int, 0, self.day_rows().len() - 1),
                ) is None,
            },
    {
        proof {
            use_type_invariant(self);
        }
        let x = texel_index(raw_x, self.width());
        let y = texel_index(raw_y, self.height());
        sample_texels(&self.day, &self.night, x, y)
    }
}

/// A sample's indices lie in the palette, and the palette character of the
/// day index is the day texel itself: a pixel shaded with the day index
/// alone, as it is when lighting is off, shows the day texture unblended.
pub proof fn lemma_unlit_pixel_shows_day_texel(
    day: Seq<Seq<char>>,
    night: Seq<Seq<char>>,
    x: int,
    y: int,
)
    requires
        sampled(day, night, x, y) is Some,
    ensures
        ({
            let pair = sampled(day, night, x, y)->0;
            &&& 0 <= pair.0 < 18
            &&& 0 <= pair.1 < 18
            &&& shade_of(pair.0) == day[y][x]
        }),
{
    lemma_palette();
    lemma_first_index(palette(), day[y][x]);
    lemma_first_index(palette(), night[y][x]);
}

/// In a texture of one row and one column every pixel samples that one
/// texel, whatever its scaled coordinates are.
pub proof fn lemma_single_texel(day: Seq<Seq<char>>, night: Seq<Seq<char>>, raw_x: int, raw_y: int)
    requires
        day.len() == 1,
        day[0].len() == 1,
    ensures
        sampled(
            day,
            night,
            clamped(raw_x, 0, day[0].len() - 1),
            clamped(raw_y, 0, day.len() - 1),
        ) == sampled(day, night, 0, 0),
{
}

/// Limited coordinates always name a cell of a usable texture's first-row
/// width and height: no pixel samples outside the texture's bounds.
pub proof fn lemma_texel_in_bounds(day: Seq<Seq<char>>, raw_x: int, raw_y: int)
    requires
        usable(day),
    ensures
        0 <= clamped(raw_x, 0, day[0].len() - 1) < day[0].len(),
        0 <= clamped(raw_y, 0, day.len() - 1) < day.len(),
{
}

/// Writing a pixel a second time changes nothing: a frame drawn twice from
/// the same samples is the frame drawn once.
pub proof fn lemma_plot_twice(
    canvas: Seq<Seq<char>>,
    x: int,
    y: int,
    c: char,
    width: int,
    height: int,
)
    ensures
        plotted(plotted(canvas, x, y, c, width, height), x, y, c, width, height) == plotted(
            canvas,
            x,
            y,
            c,
            width,
            height,
        ),
{
    let once = plotted(canvas, x, y, c, width, height);
    let twice = plotted(once, x, y, c, width, height);
    if 0 <= x < width && 0 <= y < height && y < canvas.len() && x < canvas[y].len() {
        assert(once[y] =~= canvas[y].update(x, c));
        assert(once[y].update(x, c) =~= once[y]);
        assert(twice =~= once);
    }
}

/// Writing a pixel leaves the canvas's shape and every other cell as they
/// were: only cells inside the frame are ever touched.
pub proof fn lemma_plot_frame(
    canvas: Seq<Seq<char>>,
    x: int,
    y: int,
    c: char,
    width: int,
    height: int,
)
    ensures
        plotted(canvas, x, y, c, width, height).len() == canvas.len(),
        forall|r: int|
            0 <= r < canvas.len() ==> (#[trigger] plotted(canvas, x, y, c, width, height)[r]).len()
                == canvas[r].len(),
        forall|r: int, q: int|
            0 <= r < canvas.len() && 0 <= q < canvas[r].len() && !(r == y && q == x)
                ==> #[trigger] plotted(canvas, x, y, c, width, height)[r][q] == canvas[r][q],
{
}

/// A cell of the frame that a ray hit, and the blended palette index that
/// it is shaded with.
#[derive(Debug, Clone, Copy, PartialEq, Eq, Structural)]
pub struct Pixel {
    pub x: usize,
    pub y: usize,
    pub index: usize,
}

/// `canvas` with `pixels` written into it one after another.
pub open spec fn painted(
    canvas: Seq<Seq<char>>,
    pixels: Seq<Pixel>,
    width: int,
    height: int,
) -> Seq<Seq<char>>
    decreases pixels.len(),
{
    if pixels.len() == 0 {
        canvas
    } else {
        let pixel = pixels.last();
        plotted(
            painted(canvas, pixels.drop_last(), width, height),
            pixel.x as int,
            pixel.y as int,
            shade_of(pixel.index as int),
            width,
            height,
        )
    }
}

/// The index of the last of `pixels` that names column `x` of row `y`
/// inside the frame, if one does.
pub open spec fn last_hit(pixels: Seq<Pixel>, x: int, y: int, width: int, height: int) -> Option<
    int,
>
    decreases pixels.len(),
{
    if pixels.len() == 0 {
        None
    } else {
        let pixel = pixels.last();
        if pixel.x == x && pixel.y == y && 0 <= x < width && 0 <= y < height {
            Some(pixel.index as int)
        } else {
            last_hit(pixels.drop_last(), x, y, width, height)
        }
    }
}

/// Writes the pixels of a frame into the canvas, one after another.
pub fn paint_frame(
    canvas: &mut Vec<Vec<char>>,
    pixels: &Vec<Pixel>,
    canvas_width: usize,
    canvas_height: usize,
)
    ensures
        grid_view(final(canvas)@) == painted(
            grid_view(old(canvas)@),
            pixels@,
            canvas_width as int,
            canvas_height as int,
        ),
{
    let n: usize = pixels.len();
    let mut i: usize = 0;
    while i < n
        invariant
            i <= n,
            n == pixels@.len(),
            grid_view(canvas@) == painted(
                grid_view(old(canvas)@),
                pixels@.subrange(0, i as int),
                canvas_width as int,
                canvas_height as int,
            ),
        decreases n - i,
    {
        proof {
            let next = pixels@.subrange(0, i + 1);
            assert(next.drop_last() =~= pixels@.subrange(0, i as int));
            assert(next.last() == pixels@[i as int]);
        }
        let pixel = pixels[i];
        shade_pixel(canvas, pixel.x, pixel.y, pixel.index, canvas_width, canvas_height);
        i += 1;
    }
    assert(pixels@.subrange(0, n as int) =~= pixels@);
}

/// A painted canvas has the shape of the canvas, and each of its cells
/// shows the last pixel that names it inside the frame; a cell that no
/// pixel names is as it was.
pub proof fn lemma_painted_cells(
    canvas: Seq<Seq<char>>,
    pixels: Seq<Pixel>,
    width: int,
    height: int,
)
    ensures
        painted(canvas, pixels, width, height).len() == canvas.len(),
        forall|y: int|
            0 <= y < canvas.len() ==> (#[trigger] painted(canvas, pixels, width, height)[y]).len()
                == canvas[y].len(),
        forall|y: int, x: int|
            0 <= y < canvas.len() && 0 <= x < canvas[y].len() ==> #[trigger] painted(
                canvas,
                pixels,
                width,
                height,
            )[y][x] == match last_hit(pixels, x, y, width, height) {
                Some(index) => shade_of(index),
                None => canvas[y][x],
            },
    decreases pixels.len(),
{
    if pixels.len() > 0 {
        lemma_painted_cells(canvas, pixels.drop_last(), width, height);
    }
}

/// Painting the same pixels a second time changes nothing: a frame drawn
/// twice from the same state is the frame drawn once.
pub proof fn lemma_paint_twice(canvas: Seq<Seq<char>>, pixels: Seq<Pixel>, width: int, height: int)
    ensures
        painted(painted(canvas, pixels, width, height), pixels, width, height) == painted(
            canvas,
            pixels,
            width,
            height,
        ),
{
    let once = painted(canvas, pixels, width, height);
    let twice = painted(once, pixels, width, height);
    lemma_painted_cells(canvas, pixels, width, height);
    lemma_painted_cells(once, pixels, width, height);
    assert forall|y: int| 0 <= y < once.len() implies #[trigger] twice[y] =~= once[y] by {
        assert forall|x: int| 0 <= x < once[y].len() implies twice[y][x] == once[y][x] by {
            assert(twice[y][x] == match last_hit(pixels, x, y, width, height) {
                Some(index) => shade_of(index),
                None => once[y][x],
            });
        }
    }
    assert(twice =~= once);
}

/// The palette index of the day texel of a sample, or -1 where there is no
/// sample.
pub open spec fn day_index(day: Seq<Seq<char>>, night: Seq<Seq<char>>, x: int, y: int) -> int {
    match sampled(day, night, x, y) {
        Some((d, n)) => d,
        None => -1,
    }
}

/// With lighting off every pixel is shaded with the index of its day
/// texel, so every cell that the frame writes shows a day texel unblended.
pub proof fn lemma_unlit_frame_shows_day_texels(
    canvas: Seq<Seq<char>>,
    pixels: Seq<Pixel>,
    width: int,
    height: int,
    day: Seq<Seq<char>>,
    night: Seq<Seq<char>>,
    y: int,
    x: int,
)
    requires
        0 <= y < canvas.len(),
        0 <= x < canvas[y].len(),
        forall|i: int|
            0 <= i < pixels.len() ==> exists|tx: int, ty: int|
                sampled(day, night, tx, ty) is Some && (#[trigger] pixels[i]).index == day_index(
                    day,
                    night,
                    tx,
                    ty,
                ),
    ensures
        painted(canvas, pixels, width, height)[y][x] == canvas[y][x] || exists|tx: int, ty: int|
            texel(day, tx, ty) == Some(painted(canvas, pixels, width, height)[y][x]),
{
    lemma_painted_cells(canvas, pixels, width, height);
    lemma_last_hit_is_a_pixel(pixels, x, y, width, height);
    if last_hit(pixels, x, y, width, height) is Some {
        let i = choose|i: int|
            0 <= i < pixels.len() && last_hit(pixels, x, y, width, height) == Some(
                (#[trigger] pixels[i]).index as int,
            );
        let (tx, ty) = choose|tx: int, ty: int|
            sampled(day, night, tx, ty) is Some && pixels[i].index == day_index(
                day,
                night,
                tx,
                ty,
            );
        lemma_unlit_pixel_shows_day_texel(day, night, tx, ty);
        assert(texel(day, tx, ty) == Some(painted(canvas, pixels, width, height)[y][x]));
    }
}

/// The last hit of a cell is the index of one of the pixels.
pub proof fn lemma_last_hit_is_a_pixel(pixels: Seq<Pixel>, x: int, y: int, width: int, height: int)
    ensures
        last_hit(pixels, x, y, width, height) is Some ==> exists|i: int|
            0 <= i < pixels.len() && last_hit(pixels, x, y, width, height) == Some(
                (#[trigger] pixels[i]).index as int,
            ),
    decreases pixels.len(),
{
    if pixels.len() > 0 {
        let pixel = pixels.last();
        if pixel.x == x && pixel.y == y && 0 <= x < width && 0 <= y < height {
            assert(pixels[pixels.len() - 1] == pixel);
        } else {
            lemma_last_hit_is_a_pixel(pixels.drop_last(), x, y, width, height);
            if last_hit(pixels, x, y, width, height) is Some {
                let i = choose|i: int|
                    0 <= i < pixels.drop_last().len() && last_hit(
                        pixels.drop_last(),
                        x,
                        y,
                        width,
                        height,
                    ) == Some((#[trigger] pixels.drop_last()[i]).index as int);
                assert(pixels[i] == pixels.drop_last()[i]);
            }
        }
    }
}

} // verus!
