use vstd::prelude::*;
use crate::config::ThemeConfig;

verus! {

/// A colour as red, green and blue.
#[derive(Debug, Clone, Copy, PartialEq, Eq, Structural)]
pub struct Rgb {
    pub r: u8,
    pub g: u8,
    pub b: u8,
}

/// The colour that three parts of a configuration stand for.
pub open spec fn colour_of(parts: [u8; 3]) -> Rgb {
    Rgb { r: parts@[0], g: parts@[1], b: parts@[2] }
}

/// The colours that the views draw with.
pub struct Theme {
    config: ThemeConfig,
}

/// The colour with the given parts.
fn colour(parts: &[u8; 3]) -> (c: Rgb)
    ensures
        c == colour_of(*parts),
{
    Rgb { r: parts[0], g: parts[1], b: parts[2] }
}

impl Theme {
    /// The configuration that the theme takes its colours from.
    pub closed spec fn config(&self) -> ThemeConfig {
        self.config
    }

    /// The colour of a star of the given brightness: the dim colour up to
    /// 1, then one colour each for 2, 3 and 4, and the brightest above.
    pub open spec fn star_colour_of(&self, brightness: u8) -> Rgb {
        if brightness <= 1 {
            colour_of(self.config().star_dim)
        } else if brightness == 2 {
            colour_of(self.config().star_medium)
        } else if brightness == 3 {
            colour_of(self.config().star_light)
        } else if brightness == 4 {
            colour_of(self.config().star_bright)
        } else {
            colour_of(self.config().star_brightest)
        }
    }

    /// A theme with the colours of `config`.
    pub fn new(config: ThemeConfig) -> (theme: Self)
        ensures
            theme.config() == config,
    {
        Self { config }
    }

    /// The colour of ordinary text.
    pub fn text_primary(&self) -> (c: Rgb)
        ensures
            c == colour_of(self.config().text_primary),
    {
        colour(&self.config.text_primary)
    }

    /// The colour of less important text.
    pub fn text_secondary(&self) -> (c: Rgb)
        ensures
            c == colour_of(self.config().text_secondary),
    {
        colour(&self.config.text_secondary)
    }

    /// The colour of the selected item.
    pub fn text_selected(&self) -> (c: Rgb)
        ensures
            c == colour_of(self.config().text_selected),
    {
        colour(&self.config.text_selected)
    }

    /// The colour of highlighted text.
    pub fn text_accent(&self) -> (c: Rgb)
        ensures
            c == colour_of(self.config().text_accent),
    {
        colour(&self.config.text_accent)
    }

    /// The colour of a star of the given brightness.
    pub fn star_color(&self, brightness: u8) -> (c: Rgb)
        ensures
            c == self.star_colour_of(brightness),
    {
        if brightness <= 1 {
            colour(&self.config.star_dim)
        } else if brightness == 2 {
            colour(&self.config.star_medium)
        } else if brightness == 3 {
            colour(&self.config.star_light)
        } else if brightness == 4 {
            colour(&self.config.star_bright)
        } else {
            colour(&self.config.star_brightest)
        }
    }

    /// The colour of a value that is in order.
    pub fn status_good(&self) -> (c: Rgb)
        ensures
            c == colour_of(self.config().status_good),
    {
        colour(&self.config.status_good)
    }

    /// The colour of a value that calls for attention.
    pub fn status_warning(&self) -> (c: Rgb)
        ensures
            c == colour_of(self.config().status_warning),
    {
        colour(&self.config.status_warning)
    }

    /// The colour of a value that is out of order.
    pub fn status_error(&self) -> (c: Rgb)
        ensures
            c == colour_of(self.config().status_error),
    {
        colour(&self.config.status_error)
    }

    /// The colour of a value that only informs.
    pub fn status_info(&self) -> (c: Rgb)
        ensures
            c == colour_of(self.config().status_info),
    {
        colour(&self.config.status_info)
    }

    /// The colour of borders.
    pub fn border(&self) -> (c: Rgb)
        ensures
            c == colour_of(self.config().border),
    {
        colour(&self.config.border)
    }
}

} // verus!
