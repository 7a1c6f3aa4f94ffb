use vstd::prelude::*;
use vstd::string::*;
use crate::font::{block_model, default_font, Font, FontModel};
use crate::renderer::{render_text, rendered};
use crate::text_util::{blank_string, join_lines, join_rows, lines_of, rows_view, spaces, split_lines};

verus! {

/// Where the rows of the art stand in the widest row's width.
#[derive(Debug, Clone, Copy, PartialEq, Eq, Structural)]
pub enum Alignment {
    Left,
    Center,
    Right,
}

/// Collects the settings for one piece of art and draws it.
#[derive(Debug, Clone)]
pub struct AsciiArtBuilder {
    pub text: String,
    pub font: Option<Font>,
    pub spacing: Option<usize>,
    pub line_spacing: Option<usize>,
    pub alignment: Alignment,
}

/// The first `k` rows, each but the last of all rows followed by `gap` rows
/// of one blank.
pub open spec fn spaced_prefix(rows: Seq<Seq<char>>, gap: nat, k: nat) -> Seq<Seq<char>>
    decreases k,
{
    if k == 0 {
        Seq::empty()
    } else {
        spaced_prefix(rows, gap, (k - 1) as nat) + seq![rows[k - 1]] + (if k < rows.len() {
            Seq::new(gap, |i: int| spaces(1))
        } else {
            Seq::empty()
        })
    }
}

/// `text` with `gap` rows of one blank between neighbouring rows.
pub open spec fn line_spaced(text: Seq<char>, gap: nat) -> Seq<char> {
    if gap == 0 {
        text
    } else {
        let rows = split_lines(text);
        join_lines(spaced_prefix(rows, gap, rows.len()))
    }
}

/// The length of the longest of the first `k` rows.
pub open spec fn widest(rows: Seq<Seq<char>>, k: nat) -> nat
    decreases k,
{
    if k == 0 {
        0
    } else {
        let before = widest(rows, (k - 1) as nat);
        if rows[k - 1].len() > before {
            rows[k - 1].len()
        } else {
            before
        }
    }
}

/// One row set into `width` columns.
pub open spec fn aligned_row(row: Seq<char>, width: nat, alignment: Alignment) -> Seq<char> {
    let padding: nat = if row.len() >= width {
        0
    } else {
        (width - row.len()) as nat
    };
    match alignment {
        Alignment::Left => row,
        Alignment::Center => spaces(padding / 2) + row + spaces((padding - padding / 2) as nat),
        Alignment::Right => spaces(padding) + row,
    }
}

/// `text` with every row set into the width of its widest row.
pub open spec fn aligned(text: Seq<char>, alignment: Alignment) -> Seq<char> {
    if alignment == Alignment::Left {
        text
    } else {
        let rows = split_lines(text);
        let width = widest(rows, rows.len());
        join_lines(Seq::new(rows.len(), |i: int| aligned_row(rows[i], width, alignment)))
    }
}

/// Puts `spacing` rows of one blank between neighbouring rows of `text`.
pub fn add_line_spacing(text: &str, spacing: usize) -> (out: String)
    ensures
        out@ == line_spaced(text@, spacing as nat),
{
    if spacing == 0 {
        return text.to_owned();
    }
    let lines = lines_of(text);
    let n: usize = lines.len();
    let ghost rows = rows_view(lines@);
    let mut result: Vec<String> = Vec::new();
    let mut idx: usize = 0;
    assert(rows_view(result@) =~= spaced_prefix(rows, spacing as nat, 0));
    while idx < n
        invariant
            idx <= n,
            n == lines@.len(),
            rows == rows_view(lines@),
            rows_view(result@) == spaced_prefix(rows, spacing as nat, idx as nat),
        decreases n - idx,
    {
        let ghost before = rows_view(result@);
        result.push(lines[idx].clone());
        assert(rows_view(result@) =~= before + seq![rows[idx as int]]);
        if idx + 1 < n {
            let mut k: usize = 0;
            while k < spacing
                invariant
                    k <= spacing,
                    rows_view(result@) == before + seq![rows[idx as int]] + Seq::new(
                        k as nat,
                        |i: int| spaces(1),
                    ),
                decreases spacing - k,
            {
                let ghost sofar = rows_view(result@);
                result.push(blank_string(1));
                assert(rows_view(result@) =~= sofar + seq![spaces(1)]);
                k += 1;
                assert(Seq::new(k as nat, |i: int| spaces(1)) =~= Seq::new(
                    (k - 1) as nat,
                    |i: int| spaces(1),
                ) + seq![spaces(1)]);
                assert(rows_view(result@) =~= before + seq![rows[idx as int]] + Seq::new(
                    k as nat,
                    |i: int| spaces(1),
                ));
            }
        } else {
            assert(rows_view(result@) =~= before + seq![rows[idx as int]] + Seq::<
                Seq<char>,
            >::empty());
        }
        idx += 1;
    }
    join_rows(&result)
}

/// Sets every row of `text` into the width of its widest row.
pub fn apply_alignment(text: &str, alignment: Alignment) -> (out: String)
    ensures
        out@ == aligned(text@, alignment),
{
    if alignment == Alignment::Left {
        return text.to_owned();
    }
    let lines = lines_of(text);
    let n: usize = lines.len();
    let ghost rows = rows_view(lines@);
    let mut max_width: usize = 0;
    let mut idx: usize = 0;
    while idx < n
        invariant
            idx <= n,
            n == lines@.len(),
            rows == rows_view(lines@),
            max_width == widest(rows, idx as nat),
        decreases n - idx,
    {
        let w: usize = lines[idx].as_str().unicode_len();
        if w > max_width {
            max_width = w;
        }
        idx += 1;
    }
    let mut result: Vec<String> = Vec::new();
    let mut i: usize = 0;
    while i < n
        invariant
            i <= n,
            n == lines@.len(),
            rows == rows_view(lines@),
            alignment != Alignment::Left,
            result@.len() == i,
            forall|j: int|
                0 <= j < i ==> (#[trigger] result@[j])@ == aligned_row(
                    rows[j],
                    max_width as nat,
                    alignment,
                ),
        decreases n - i,
    {
        let line = lines[i].as_str();
        let width: usize = line.unicode_len();
        let padding: usize = if width >= max_width {
            0
        } else {
            max_width - width
        };
        let mut row = String::new();
        match alignment {
            Alignment::Left => {
                row.append(line);
            },
            Alignment::Center => {
                let left_pad: usize = padding / 2;
                let right_pad: usize = padding - left_pad;
                row.append(blank_string(left_pad).as_str());
                row.append(line);
                row.append(blank_string(right_pad).as_str());
            },
            Alignment::Right => {
                row.append(blank_string(padding).as_str());
                row.append(line);
            },
        }
        assert(row@ =~= aligned_row(rows[i as int], max_width as nat, alignment));
        result.push(row);
        i += 1;
    }
    assert(rows_view(result@) =~= Seq::new(
        rows.len(),
        |i: int| aligned_row(rows[i], max_width as nat, alignment),
    ));
    join_rows(&result)
}

impl AsciiArtBuilder {
    /// The font that `build` draws with: the chosen font, else the block
    /// font, with the chosen spacing in place of its own.
    pub open spec fn effective_font(self) -> FontModel {
        let base = match self.font {
            Some(font) => font@,
            None => block_model(),
        };
        match self.spacing {
            Some(spacing) => FontModel { spacing: spacing as nat, ..base },
            None => base,
        }
    }

    /// What `build` returns: the text drawn in the effective font, then
    /// spread by the line spacing, then aligned.
    pub open spec fn art(self) -> Seq<char> {
        let drawn = rendered(self.effective_font(), self.text@);
        let spaced = match self.line_spacing {
            Some(gap) => line_spaced(drawn, gap as nat),
            None => drawn,
        };
        aligned(spaced, self.alignment)
    }

    /// A builder with no text, the block font, and rows aligned to the left.
    pub fn new() -> (builder: Self)
        ensures
            builder.text@ == Seq::<char>::empty(),
            builder.font is None,
            builder.spacing is None,
            builder.line_spacing is None,
            builder.alignment == Alignment::Left,
    {
        Self {
            text: String::new(),
            font: None,
            spacing: None,
            line_spacing: None,
            alignment: Alignment::Left,
        }
    }

    /// Sets the text to draw.
    pub fn text(self, text: &str) -> (builder: Self)
        ensures
            builder.text@ == text@,
            builder.font == self.font,
            builder.spacing == self.spacing,
            builder.line_spacing == self.line_spacing,
            builder.alignment == self.alignment,
    {
        let mut builder = self;
        builder.text = text.to_owned();
        builder
    }

    /// Sets the font to draw with.
    pub fn font(self, font: Font) -> (builder: Self)
        ensures
            builder.font == Some(font),
            builder.text == self.text,
            builder.spacing == self.spacing,
            builder.line_spacing == self.line_spacing,
            builder.alignment == self.alignment,
    {
        let mut builder = self;
        builder.font = Some(font);
        builder
    }

    /// Sets the blank columns between characters, in place of the font's own.
    pub fn spacing(self, spacing: usize) -> (builder: Self)
        ensures
            builder.spacing == Some(spacing),
            builder.text == self.text,
            builder.font == self.font,
            builder.line_spacing == self.line_spacing,
            builder.alignment == self.alignment,
    {
        let mut builder = self;
        builder.spacing = Some(spacing);
        builder
    }

    /// Sets the number of blank rows between rows of the art.
    pub fn line_spacing(self, line_spacing: usize) -> (builder: Self)
        ensures
            builder.line_spacing == Some(line_spacing),
            builder.text == self.text,
            builder.font == self.font,
            builder.spacing == self.spacing,
            builder.alignment == self.alignment,
    {
        let mut builder = self;
        builder.line_spacing = Some(line_spacing);
        builder
    }

    /// Aligns the rows to the left.
    pub fn align_left(self) -> (builder: Self)
        ensures
            builder.alignment == Alignment::Left,
            builder.text == self.text,
            builder.font == self.font,
            builder.spacing == self.spacing,
            builder.line_spacing == self.line_spacing,
    {
        let mut builder = self;
        builder.alignment = Alignment::Left;
        builder
    }

    /// Centres the rows.
    pub fn align_center(self) -> (builder: Self)
        ensures
            builder.alignment == Alignment::Center,
            builder.text == self.text,
            builder.font == self.font,
            builder.spacing == self.spacing,
            builder.line_spacing == self.line_spacing,
    {
        let mut builder = self;
        builder.alignment = Alignment::Center;
        builder
    }

    /// Aligns the rows to the right.
    pub fn align_right(self) -> (builder: Self)
        ensures
            builder.alignment == Alignment::Right,
            builder.text == self.text,
            builder.font == self.font,
            builder.spacing == self.spacing,
            builder.line_spacing == self.line_spacing,
    {
        let mut builder = self;
        builder.alignment = Alignment::Right;
        builder
    }

    /// Draws the text, in the block font where no font was chosen, then
    /// spreads and aligns the rows.
    pub fn build(self) -> (out: String)
        ensures
            out@ == self.art(),
    {
        let mut font = match self.font {
            Some(font) => font,
            None => default_font(),
        };
        if let Some(spacing) = self.spacing {
            font.spacing = spacing;
        }
        assert(font@ == self.effective_font());
        let mut result = render_text(self.text.as_str(), &font);
        if let Some(line_spacing) = self.line_spacing {
            result = add_line_spacing(result.as_str(), line_spacing);
        }
        apply_alignment(result.as_str(), self.alignment)
    }
}

impl Default for AsciiArtBuilder {
    fn default() -> (builder: Self)
        ensures
            builder.text@ == Seq::<char>::empty(),
            builder.font is None,
            builder.spacing is None,
            builder.line_spacing is None,
            builder.alignment == Alignment::Left,
    {
        Self::new()
    }
}

/// The widest row is at least as wide as each of the rows.
pub proof fn lemma_widest_bounds(rows: Seq<Seq<char>>, k: nat, i: int)
    requires
        0 <= i < k <= rows.len(),
    ensures
        rows[i].len() <= widest(rows, k),
    decreases k,
{
    if i < k - 1 {
        lemma_widest_bounds(rows, (k - 1) as nat, i);
    }
}

/// Centred or set to the right, every row is as wide as the widest row.
pub proof fn lemma_aligned_rows_are_even(rows: Seq<Seq<char>>, alignment: Alignment, i: int)
    requires
        alignment != Alignment::Left,
        0 <= i < rows.len(),
    ensures
        aligned_row(rows[i], widest(rows, rows.len()), alignment).len() == widest(
            rows,
            rows.len(),
        ),
{
    lemma_widest_bounds(rows, rows.len(), i);
}

/// Alignment only adds blanks around a row: a row set to the left is the
/// row itself, and a row that is as wide as the widest is left as it is.
pub proof fn lemma_aligned_row_keeps_full_rows(row: Seq<char>, width: nat, alignment: Alignment)
    requires
        row.len() >= width,
    ensures
        aligned_row(row, width, alignment) == row,
{
    assert(spaces(0) + row + spaces(0) =~= row);
    assert(spaces(0) + row =~= row);
}

} // verus!
