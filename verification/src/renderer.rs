use vstd::prelude::*;
use vstd::string::*;
use crate::font::{Font, FontModel, Glyph};
use crate::text_util::{
    blank_string, chars_of, join_lines, join_rows, lines_of, rows_view, spaces, split_lines,
};

verus! {

/// `s` filled up with blanks on the right to `width` characters; a longer
/// `s` is left as it is.
pub open spec fn pad_right(s: Seq<char>, width: nat) -> Seq<char> {
    if s.len() >= width {
        s
    } else {
        s + spaces((width - s.len()) as nat)
    }
}

/// Row `i` of the cell that `font` draws for `ch`: the glyph's row filled up
/// to the cell width, or a blank row where the glyph has no such row.
pub open spec fn cell_row(font: FontModel, ch: char, i: int) -> Seq<char> {
    let glyph = font.glyph_rows(ch);
    if 0 <= i < glyph.len() {
        pad_right(glyph[i], font.width)
    } else {
        spaces(font.width)
    }
}

/// Row `i` of the first `k` characters of `line`: their cells side by side,
/// each but the last character of the line followed by the font's spacing.
pub open spec fn row_prefix(font: FontModel, line: Seq<char>, i: int, k: nat) -> Seq<char>
    decreases k,
{
    if k == 0 {
        Seq::empty()
    } else {
        row_prefix(font, line, i, (k - 1) as nat) + cell_row(font, line[k - 1], i) + (if k
            < line.len() {
            spaces(font.spacing)
        } else {
            Seq::empty()
        })
    }
}

/// The rows that one line of text is drawn as: one empty row for an empty
/// line, else as many rows as the font's cells are high.
pub open spec fn line_block(font: FontModel, line: Seq<char>) -> Seq<Seq<char>> {
    if line.len() == 0 {
        seq![Seq::empty()]
    } else {
        Seq::new(font.height, |i: int| row_prefix(font, line, i, line.len()))
    }
}

/// The rows that a sequence of lines is drawn as, line after line.
pub open spec fn text_rows(font: FontModel, lines: Seq<Seq<char>>) -> Seq<Seq<char>>
    decreases lines.len(),
{
    if lines.len() == 0 {
        Seq::empty()
    } else {
        text_rows(font, lines.drop_last()) + line_block(font, lines.last())
    }
}

/// The art that `font` draws for `text`.
pub open spec fn rendered(font: FontModel, text: Seq<char>) -> Seq<char> {
    join_lines(text_rows(font, split_lines(text)))
}

/// Fills `s` up with blanks on the right to `width` characters.
pub fn pad_to_width(s: &str, width: usize) -> (out: String)
    ensures
        out@ == pad_right(s@, width as nat),
{
    let current_width: usize = s.unicode_len();
    let mut out = s.to_owned();
    if current_width < width {
        let fill = blank_string(width - current_width);
        out.append(fill.as_str());
    }
    out
}

/// Row `i` of the block of a non-empty line whose glyphs are `glyphs`.
fn render_row(font: &Font, line: &Vec<char>, glyphs: &Vec<Glyph>, i: usize) -> (row: String)
    requires
        glyphs@.len() == line@.len(),
        forall|j: int|
            0 <= j < line@.len() ==> rows_view(#[trigger] glyphs@[j]@) == font@.glyph_rows(
                line@[j],
            ),
    ensures
        row@ == row_prefix(font@, line@, i as int, line@.len()),
{
    let n: usize = line.len();
    let mut row = String::new();
    let mut idx: usize = 0;
    while idx < n
        invariant
            idx <= n,
            n == line@.len(),
            glyphs@.len() == n,
            forall|j: int|
                0 <= j < line@.len() ==> rows_view(#[trigger] glyphs@[j]@) == font@.glyph_rows(
                    line@[j],
                ),
            row@ == row_prefix(font@, line@, i as int, idx as nat),
        decreases n - idx,
    {
        let ghost before = row@;
        let glyph = &glyphs[idx];
        assert(rows_view(glyph@) == font@.glyph_rows(line@[idx as int]));
        if i < glyph.len() {
            assert(rows_view(glyph@)[i as int] == glyph@[i as int]@);
            let padded = pad_to_width(glyph[i].as_str(), font.width);
            row.append(padded.as_str());
        } else {
            let blank = blank_string(font.width);
            row.append(blank.as_str());
        }
        assert(row@ == before + cell_row(font@, line@[idx as int], i as int));
        if idx + 1 < n {
            let gap = blank_string(font.spacing);
            row.append(gap.as_str());
        } else {
            assert(row@ =~= before + cell_row(font@, line@[idx as int], i as int) + Seq::<
                char,
            >::empty());
        }
        idx += 1;
    }
    row
}

/// The rows that one line is drawn as.
fn render_line(font: &Font, line: &Vec<char>) -> (block: Vec<String>)
    ensures
        rows_view(block@) == line_block(font@, line@),
{
    let mut block: Vec<String> = Vec::new();
    let n: usize = line.len();
    if n == 0 {
        block.push(String::new());
        assert(rows_view(block@) =~= line_block(font@, line@));
        return block;
    }
    let mut glyphs: Vec<Glyph> = Vec::new();
    let mut idx: usize = 0;
    while idx < n
        invariant
            idx <= n,
            n == line@.len(),
            glyphs@.len() == idx,
            forall|j: int|
                0 <= j < idx ==> rows_view(#[trigger] glyphs@[j]@) == font@.glyph_rows(line@[j]),
        decreases n - idx,
    {
        let glyph = font.get_glyph_or_placeholder(line[idx]);
        glyphs.push(glyph);
        idx += 1;
    }
    let mut i: usize = 0;
    while i < font.height
        invariant
            i <= font.height,
            n == line@.len(),
            glyphs@.len() == n,
            forall|j: int|
                0 <= j < n ==> rows_view(#[trigger] glyphs@[j]@) == font@.glyph_rows(line@[j]),
            block@.len() == i,
            forall|j: int|
                0 <= j < i ==> (#[trigger] block@[j])@ == row_prefix(font@, line@, j, line@.len()),
        decreases font.height - i,
    {
        let row = render_row(font, line, &glyphs, i);
        block.push(row);
        i += 1;
    }
    assert(rows_view(block@) =~= line_block(font@, line@));
    block
}

/// Draws `text` in `font`: every line of the text becomes a block of rows,
/// and the rows of all blocks are put together with line feeds between them.
pub fn render_text(text: &str, font: &Font) -> (out: String)
    ensures
        out@ == rendered(font@, text@),
{
    let lines = lines_of(text);
    let mut result: Vec<String> = Vec::new();
    let n: usize = lines.len();
    let ghost all = rows_view(lines@);
    let mut li: usize = 0;
    assert(rows_view(result@) =~= text_rows(font@, all.subrange(0, 0)));
    while li < n
        invariant
            li <= n,
            n == lines@.len(),
            all == rows_view(lines@),
            rows_view(result@) == text_rows(font@, all.subrange(0, li as int)),
        decreases n - li,
    {
        let line = chars_of(lines[li].as_str());
        let mut block = render_line(font, &line);
        proof {
            let next = all.subrange(0, li + 1);
            assert(next.drop_last() =~= all.subrange(0, li as int));
            assert(next.last() == line@);
            assert(rows_view(result@ + block@) =~= rows_view(result@) + rows_view(block@));
        }
        result.append(&mut block);
        li += 1;
    }
    assert(all.subrange(0, n as int) =~= all);
    join_rows(&result)
}

/// Whether no row of a glyph that `font` draws for a character of `line`
/// is wider than the cell.
pub open spec fn fits_cells(font: FontModel, line: Seq<char>) -> bool {
    forall|j: int, i: int|
        0 <= j < line.len() && 0 <= i < font.glyph_rows(line[j]).len() ==> (
        #[trigger] font.glyph_rows(line[j])[i]).len() <= font.width
}

/// The width of `k` cells side by side with the font's spacing between
/// them.
pub open spec fn cells_width(font: FontModel, k: nat) -> nat {
    if k == 0 {
        0
    } else {
        (k * font.width + (k - 1) * font.spacing) as nat
    }
}

/// A cell's row is exactly as wide as the cell, where the glyph fits it.
pub proof fn lemma_cell_row_width(font: FontModel, line: Seq<char>, j: int, i: int)
    requires
        fits_cells(font, line),
        0 <= j < line.len(),
    ensures
        cell_row(font, line[j], i).len() == font.width,
{
    let glyph = font.glyph_rows(line[j]);
    if 0 <= i < glyph.len() {
        assert(glyph[i].len() <= font.width);
    }
}

/// A line drawn in a font whose glyphs fit its cells is a block of even
/// rows: as many as the cells are high, each as wide as the line's cells
/// and the spacing between them.
pub proof fn lemma_line_block_is_even(font: FontModel, line: Seq<char>)
    requires
        fits_cells(font, line),
        line.len() > 0,
    ensures
        line_block(font, line).len() == font.height,
        forall|i: int|
            0 <= i < font.height ==> (#[trigger] line_block(font, line)[i]).len() == cells_width(
                font,
                line.len(),
            ),
{
    assert forall|i: int| 0 <= i < font.height implies (#[trigger] line_block(font, line)[i]).len()
        == cells_width(font, line.len()) by {
        lemma_row_prefix_width(font, line, i, line.len());
    }
}

/// The first `k` cells of a row, with the spacing behind each but the
/// line's last, are as wide as `k` cells and their spacing.
pub proof fn lemma_row_prefix_width(font: FontModel, line: Seq<char>, i: int, k: nat)
    requires
        fits_cells(font, line),
        k <= line.len(),
    ensures
        row_prefix(font, line, i, k).len() == if k < line.len() {
            k * font.width + k * font.spacing
        } else {
            cells_width(font, k)
        },
    decreases k,
{
    if k > 0 {
        lemma_row_prefix_width(font, line, i, (k - 1) as nat);
        lemma_cell_row_width(font, line, k - 1, i);
        assert((k - 1) * font.width + font.width == k * font.width) by (nonlinear_arith);
        assert((k - 1) * font.spacing + font.spacing == k * font.spacing) by (nonlinear_arith);
    }
}

/// The number of rows that lines are drawn as: one for an empty line, the
/// cell height for another.
pub open spec fn rows_count(font: FontModel, lines: Seq<Seq<char>>) -> nat
    decreases lines.len(),
{
    if lines.len() == 0 {
        0
    } else {
        rows_count(font, lines.drop_last()) + if lines.last().len() == 0 {
            1
        } else {
            font.height
        }
    }
}

/// A text is drawn as one row for each of its empty lines and as many
/// rows as the cells are high for each other line.
pub proof fn lemma_text_rows_count(font: FontModel, lines: Seq<Seq<char>>)
    ensures
        text_rows(font, lines).len() == rows_count(font, lines),
    decreases lines.len(),
{
    if lines.len() > 0 {
        lemma_text_rows_count(font, lines.drop_last());
    }
}

} // verus!
