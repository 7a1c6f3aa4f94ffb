use std::collections::HashMap;
use vstd::prelude::*;
use crate::text_util::{blank_string, copy_rows, rows_view, spaces};
use crate::charset::{is_builtin_key, is_mini_key};
use crate::glyphs_block::{
    add_lowercase_glyphs, add_number_glyphs, add_special_glyphs, add_uppercase_glyphs,
    block_glyph,
};
use crate::glyphs_compact::{
    add_ansi_compact_lowercase, add_ansi_compact_numbers, add_ansi_compact_special,
    add_ansi_compact_uppercase, compact_glyph,
};
use crate::glyphs_mini::{
    add_mini_lowercase, add_mini_numbers, add_mini_special, add_mini_uppercase, mini_glyph,
};

verus! {

/// One character drawn as rows of text, top row first.
pub type Glyph = Vec<String>;

/// A set of glyphs, each stored under the code point of its character.
#[derive(Debug, Clone)]
pub struct Font {
    /// Width of a character cell, in characters.
    pub width: usize,
    /// Height of a character cell, in rows.
    pub height: usize,
    /// Blank columns between neighbouring characters.
    pub spacing: usize,
    /// The glyphs, keyed by code point.
    pub glyphs: HashMap<u32, Glyph>,
}

/// The key under which a font stores the glyph of `ch`.
pub open spec fn glyph_key(ch: char) -> u32 {
    ch as u32
}

/// What a font is: the size of its cells, its spacing, and the rows of its
/// glyphs by code point.
pub struct FontModel {
    pub width: nat,
    pub height: nat,
    pub spacing: nat,
    pub glyphs: Map<u32, Seq<Seq<char>>>,
}

impl FontModel {
    /// The rows drawn for `ch`: its glyph, or a blank cell where the font
    /// has none.
    pub open spec fn glyph_rows(self, ch: char) -> Seq<Seq<char>> {
        if self.glyphs.contains_key(glyph_key(ch)) {
            self.glyphs[glyph_key(ch)]
        } else {
            Seq::new(self.height, |i: int| spaces(self.width))
        }
    }

    /// The font with `rows(k)` as the glyph under every key `k` in `keys`,
    /// and its other glyphs as they are.
    pub open spec fn with_glyphs(
        self,
        keys: spec_fn(u32) -> bool,
        rows: spec_fn(u32) -> Seq<Seq<char>>,
    ) -> FontModel {
        FontModel {
            glyphs: Map::new(
                |k: u32| self.glyphs.contains_key(k) || keys(k),
                |k: u32|
                    if keys(k) {
                        rows(k)
                    } else {
                        self.glyphs[k]
                    },
            ),
            ..self
        }
    }
}

impl View for Font {
    type V = FontModel;

    open spec fn view(&self) -> FontModel {
        FontModel {
            width: self.width as nat,
            height: self.height as nat,
            spacing: self.spacing as nat,
            glyphs: self.glyphs@.map_values(|g: Glyph| rows_view(g@)),
        }
    }
}

impl Font {
    /// A font of the given cell size and spacing that holds no glyph yet.
    pub fn new(width: usize, height: usize, spacing: usize) -> (font: Self)
        ensures
            font.width == width,
            font.height == height,
            font.spacing == spacing,
            font@.glyphs == Map::<u32, Seq<Seq<char>>>::empty(),
    {
        let font = Self { width, height, spacing, glyphs: HashMap::new() };
        assert(font@.glyphs =~= Map::<u32, Seq<Seq<char>>>::empty());
        font
    }

    /// Stores `glyph` for `ch`, replacing an earlier glyph of that character.
    pub fn add_glyph(&mut self, ch: char, glyph: Glyph)
        ensures
            final(self).width == old(self).width,
            final(self).height == old(self).height,
            final(self).spacing == old(self).spacing,
            final(self).glyphs@ == old(self).glyphs@.insert(glyph_key(ch), glyph),
            final(self)@.glyphs == old(self)@.glyphs.insert(glyph_key(ch), rows_view(glyph@)),
    {
        self.glyphs.insert(ch as u32, glyph);
        assert(self@.glyphs =~= old(self)@.glyphs.insert(glyph_key(ch), rows_view(glyph@)));
    }

    /// The glyph stored for `ch`, if there is one.
    pub fn get_glyph(&self, ch: char) -> (found: Option<&Glyph>)
        ensures
            found is Some <==> self@.glyphs.contains_key(glyph_key(ch)),
            found is Some ==> *found->0 == self.glyphs@[glyph_key(ch)],
            found is Some ==> rows_view(found->0@) == self@.glyphs[glyph_key(ch)],
    {
        self.glyphs.get(&(ch as u32))
    }

    /// The glyph stored for `ch`, or a blank cell of the font's size.
    pub fn get_glyph_or_placeholder(&self, ch: char) -> (glyph: Glyph)
        ensures
            rows_view(glyph@) == self@.glyph_rows(ch),
    {
        let mut glyph: Vec<String> = Vec::new();
        match self.glyphs.get(&(ch as u32)) {
            Some(stored) => {
                glyph = copy_rows(stored);
            },
            None => {
                let mut i: usize = 0;
                while i < self.height
                    invariant
                        i <= self.height,
                        glyph@.len() == i,
                        forall|j: int| 0 <= j < i ==> (#[trigger] glyph@[j])@ == spaces(self.width as nat),
                    decreases self.height - i,
                {
                    glyph.push(blank_string(self.width));
                    i += 1;
                }
                assert(rows_view(glyph@) =~= self@.glyph_rows(ch));
            },
        }
        glyph
    }
}

/// The block font: cells of seven by seven, one column between
/// characters, and the glyphs of the block tables.
pub open spec fn block_model() -> FontModel {
    FontModel {
        width: 7,
        height: 7,
        spacing: 1,
        glyphs: Map::new(|k: u32| is_builtin_key(k), |k: u32| block_glyph(k)),
    }
}

/// The compact font: cells of six columns and four rows, no spacing, and
/// the glyphs of the compact tables.
pub open spec fn compact_model() -> FontModel {
    FontModel {
        width: 6,
        height: 4,
        spacing: 0,
        glyphs: Map::new(|k: u32| is_builtin_key(k), |k: u32| compact_glyph(k)),
    }
}

/// The mini font: cells of two by two, no spacing, and the glyphs of the
/// mini tables, which have neither `x` nor `X`.
pub open spec fn mini_model() -> FontModel {
    FontModel {
        width: 2,
        height: 2,
        spacing: 0,
        glyphs: Map::new(|k: u32| is_mini_key(k), |k: u32| mini_glyph(k)),
    }
}

impl Default for Font {
    /// The block font.
    fn default() -> (font: Self)
        ensures
            font@ == block_model(),
    {
        default_font()
    }
}

/// The block font: cells of seven by seven with one column between
/// characters, drawing letters, digits, punctuation marks and symbols.
pub fn default_font() -> (font: Font)
    ensures
        font@ == block_model(),
{
    let mut font = Font::new(7, 7, 1);
    add_lowercase_glyphs(&mut font);
    add_uppercase_glyphs(&mut font);
    add_number_glyphs(&mut font);
    add_special_glyphs(&mut font);
    assert(font@.glyphs =~= block_model().glyphs);
    font
}

/// The compact font: cells of six columns and four rows, set without
/// spacing, drawing the same characters as the block font.
pub fn ansi_compact_font() -> (font: Font)
    ensures
        font@ == compact_model(),
{
    let mut font = Font::new(6, 4, 0);
    add_ansi_compact_lowercase(&mut font);
    add_ansi_compact_uppercase(&mut font);
    add_ansi_compact_numbers(&mut font);
    add_ansi_compact_special(&mut font);
    assert(font@.glyphs =~= compact_model().glyphs);
    font
}

/// The mini font: cells of two by two, set without spacing, drawing the
/// characters of the block font but `x` and `X`.
pub fn mini_font() -> (font: Font)
    ensures
        font@ == mini_model(),
{
    let mut font = Font::new(2, 2, 0);
    add_mini_lowercase(&mut font);
    add_mini_uppercase(&mut font);
    add_mini_numbers(&mut font);
    add_mini_special(&mut font);
    assert(font@.glyphs =~= mini_model().glyphs);
    font
}

} // verus!
