use rand::Rng;
use vstd::prelude::*;
use vstd::string::*;

verus! {

/// A star of the night sky: its cell, counted from the sky's upper left
/// corner, and its brightness from 1 to 5.
#[derive(Debug, Clone, Copy, PartialEq, Eq, Structural)]
pub struct StarSeed {
    pub x: u16,
    pub y: u16,
    pub brightness: u8,
}

/// The number of stars in a sky of `width` by `height` cells: one for every
/// twenty cells, and no more than five hundred.
pub open spec fn star_total(width: u16, height: u16) -> nat {
    let by_area = (width as nat * height as nat) / 20;
    if by_area < 500 {
        by_area
    } else {
        500
    }
}

/// A star that stands inside a sky of `width` by `height` cells.
pub open spec fn star_fits(star: StarSeed, width: u16, height: u16) -> bool {
    star.x < width && star.y < height && 1 <= star.brightness <= 5
}

/// The sum of `a` and `b`, or the largest number of 16 bits where the sum
/// is larger.
pub open spec fn capped_sum(a: u16, b: u16) -> u16 {
    if a + b > u16::MAX {
        u16::MAX
    } else {
        (a + b) as u16
    }
}

/// The cell of the screen that a star is drawn in, for a sky whose upper
/// left corner is at column `x` and row `y`; `None` for a star outside the
/// sky or outside the screen's coordinates.
pub open spec fn star_cell(star: StarSeed, x: u16, y: u16, width: u16, height: u16) -> Option<
    (u16, u16),
> {
    let column = capped_sum(x, star.x);
    let row = capped_sum(y, star.y);
    if star.x < width && star.y < height && column < capped_sum(x, width) && row < capped_sum(
        y,
        height,
    ) {
        Some((column, row))
    } else {
        None
    }
}

/// `rand::Rng::gen_range` on the generator of the current thread: some
/// number from `low` up to, but not including, `high`.
#[verifier::external_body]
fn random_in(low: u16, high: u16) -> (r: u16)
    requires
        low < high,
    ensures
        low <= r < high,
{
    rand::thread_rng().gen_range(low..high)
}

/// The number of stars in a sky of `width` by `height` cells.
pub fn star_count(width: u16, height: u16) -> (count: usize)
    ensures
        count == star_total(width, height),
{
    assert(width as nat * height as nat <= 65535 * 65535) by (nonlinear_arith)
        requires
            width <= 65535,
            height <= 65535,
    ;
    let by_area: u32 = (width as u32 * height as u32) / 20;
    if by_area < 500 {
        by_area as usize
    } else {
        500
    }
}

/// Scatters the stars of a sky of `width` by `height` cells at random.
pub fn scatter_stars(width: u16, height: u16) -> (stars: Vec<StarSeed>)
    ensures
        stars@.len() == star_total(width, height),
        forall|i: int| 0 <= i < stars@.len() ==> star_fits(#[trigger] stars@[i], width, height),
{
    let count: usize = star_count(width, height);
    let mut stars: Vec<StarSeed> = Vec::new();
    if count == 0 {
        return stars;
    }
    assert(width > 0 && height > 0) by (nonlinear_arith)
        requires
            (width as nat * height as nat) / 20 > 0,
    ;
    let mut i: usize = 0;
    while i < count
        invariant
            i <= count,
            width > 0,
            height > 0,
            stars@.len() == i,
            forall|j: int| 0 <= j < i ==> star_fits(#[trigger] stars@[j], width, height),
        decreases count - i,
    {
        let x = random_in(0, width);
        let y = random_in(0, height);
        let brightness = random_in(1, 6) as u8;
        stars.push(StarSeed { x, y, brightness });
        i += 1;
    }
    stars
}

/// The sign that a star of the given brightness is drawn with: a small dot
/// up to 1, a bullet up to 3, a four-pointed star above.
pub fn star_glyph(brightness: u8) -> (glyph: &'static str)
    ensures
        glyph@ == if brightness <= 1 {
            "·"@
        } else if brightness <= 3 {
            "•"@
        } else {
            "✦"@
        },
{
    if brightness <= 1 {
        "·"
    } else if brightness <= 3 {
        "•"
    } else {
        "✦"
    }
}

/// The cell of the screen that a star is drawn in, if it is drawn.
pub fn star_position(star: &StarSeed, x: u16, y: u16, width: u16, height: u16) -> (cell: Option<
    (u16, u16),
>)
    ensures
        cell == star_cell(*star, x, y, width, height),
{
    if star.x >= width || star.y >= height {
        return None;
    }
    let column: u16 = x.saturating_add(star.x);
    let row: u16 = y.saturating_add(star.y);
    if column < x.saturating_add(width) && row < y.saturating_add(height) {
        Some((column, row))
    } else {
        None
    }
}

} // verus!
