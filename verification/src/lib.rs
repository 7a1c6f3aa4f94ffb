use vstd::prelude::*;
use crate::font::{
    ansi_compact_font, block_model, compact_model, default_font, mini_font, mini_model, Font,
};
use crate::renderer::{render_text, rendered};

pub mod builder;
pub mod charset;
pub mod config;
pub mod font;
pub mod globe;
pub mod glyphs_block;
pub mod glyphs_compact;
pub mod glyphs_mini;
pub mod loader;
pub mod menu;
pub mod navigation;
pub mod recent;
pub mod renderer;
pub mod stars;
pub mod stats;
pub mod text_util;
pub mod theme;

verus! {

/// Draws `text` in the block font.
pub fn render(text: &str) -> (out: String)
    ensures
        out@ == rendered(block_model(), text@),
{
    let font = default_font();
    render_text(text, &font)
}

/// Draws `text` in `font`.
pub fn render_with_font(text: &str, font: &Font) -> (out: String)
    ensures
        out@ == rendered(font@, text@),
{
    render_text(text, font)
}

/// Draws `text` in the compact font.
pub fn render_ansi_compact(text: &str) -> (out: String)
    ensures
        out@ == rendered(compact_model(), text@),
{
    let font = ansi_compact_font();
    render_text(text, &font)
}

/// Draws `text` in the mini font.
pub fn render_mini(text: &str) -> (out: String)
    ensures
        out@ == rendered(mini_model(), text@),
{
    let font = mini_font();
    render_text(text, &font)
}

} // verus!
