use vstd::prelude::*;
use vstd::string::*;
use crate::font::{glyph_key, Font, FontModel};
use crate::text_util::{chars_of, copy_rows, decimal, decimal_string, rows_view};

verus! {

/// Why a font could not be loaded.
#[derive(Debug)]
pub enum LoadError {
    /// The file could not be read; the text says why.
    Io(String),
    /// The file is not the JSON of a font; the text says why.
    Json(String),
    /// The font's data break a rule; the text says which.
    InvalidFont(String),
}

/// A font as its file holds it.
#[derive(Debug, Clone)]
pub struct FontJson {
    /// Width of a character cell.
    pub width: usize,
    /// Height of a character cell.
    pub height: usize,
    /// Blank columns between characters.
    pub spacing: usize,
    /// The glyphs, each under the text that names its character, in the
    /// order in which they are taken into the font.
    pub glyphs: Vec<(String, Vec<String>)>,
}

/// What is wrong with the text that names a glyph's character.
pub enum NameFault {
    /// The text is empty.
    Empty,
    /// The braces of `\u{..}` hold no hexadecimal number that fits 32 bits.
    BadEscapeNumber,
    /// The number in `\u{..}` is no code point of a character.
    NoSuchCharacter,
    /// The text starts with a backslash and is no known escape.
    UnknownEscape,
}

/// The value of a hexadecimal digit, in either case.
pub open spec fn hex_digit(c: char) -> Option<int> {
    if '0' <= c <= '9' {
        Some(c as int - '0' as int)
    } else if 'a' <= c <= 'f' {
        Some(c as int - 'a' as int + 10)
    } else if 'A' <= c <= 'F' {
        Some(c as int - 'A' as int + 10)
    } else {
        None
    }
}

/// The number that a run of hexadecimal digits writes, or `None` where a
/// character of the run is no such digit. The empty run writes 0.
pub open spec fn hex_value(digits: Seq<char>) -> Option<int>
    decreases digits.len(),
{
    if digits.len() == 0 {
        Some(0)
    } else {
        match (hex_value(digits.drop_last()), hex_digit(digits.last())) {
            (Some(v), Some(d)) => Some(16 * v + d),
            _ => None,
        }
    }
}

/// The 32-bit number that `s` writes in hexadecimal: an optional `+`, then
/// at least one digit, and a value that fits.
pub open spec fn hex_u32(s: Seq<char>) -> Option<u32> {
    let digits = if s.len() > 0 && s[0] == '+' {
        s.drop_first()
    } else {
        s
    };
    if digits.len() == 0 {
        None
    } else {
        match hex_value(digits) {
            Some(v) => if v <= u32::MAX {
                Some(v as u32)
            } else {
                None
            },
            None => None,
        }
    }
}

/// Whether `code` is the code point of a character: at most 0x10FFFF and no
/// surrogate.
pub open spec fn is_scalar_value(code: u32) -> bool {
    code <= 0xD7FF || 0xE000 <= code <= 0x10FFFF
}

/// The character that a glyph's name stands for.
///
/// A name that does not start with a backslash stands for its first
/// character, and a lone backslash for itself. Otherwise the name is an
/// escape: one of `\n \t \r \0 \' \" \\`, or `\u{..}` with a hexadecimal
/// code point between the braces.
pub open spec fn named_character(s: Seq<char>) -> Result<char, NameFault> {
    if s.len() == 0 {
        Err(NameFault::Empty)
    } else if s[0] != '\\' || s.len() == 1 {
        Ok(s[0])
    } else if s.len() == 2 && s[1] == 'n' {
        Ok('\n')
    } else if s.len() == 2 && s[1] == 't' {
        Ok('\t')
    } else if s.len() == 2 && s[1] == 'r' {
        Ok('\r')
    } else if s.len() == 2 && s[1] == '0' {
        Ok('\0')
    } else if s.len() == 2 && s[1] == '\'' {
        Ok('\'')
    } else if s.len() == 2 && s[1] == '"' {
        Ok('"')
    } else if s.len() == 2 && s[1] == '\\' {
        Ok('\\')
    } else if s.len() >= 4 && s[1] == 'u' && s[2] == '{' && s.last() == '}' {
        match hex_u32(s.subrange(3, s.len() - 1)) {
            Some(code) => if is_scalar_value(code) {
                Ok(code as char)
            } else {
                Err(NameFault::NoSuchCharacter)
            },
            None => Err(NameFault::BadEscapeNumber),
        }
    } else {
        Err(NameFault::UnknownEscape)
    }
}

/// The text of the error for a name `s` with the given fault.
pub open spec fn name_fault_text(fault: NameFault, s: Seq<char>) -> Seq<char> {
    match fault {
        NameFault::Empty => "Empty character string: "@ + s,
        NameFault::BadEscapeNumber => "Invalid unicode escape: "@ + s,
        NameFault::NoSuchCharacter => "Invalid unicode character: "@ + s,
        NameFault::UnknownEscape => "Unknown escape sequence: "@ + s,
    }
}

/// `char::from_u32`: the character with code point `code`; `None` where
/// `code` is a surrogate or lies above 0x10FFFF.
#[verifier::external_body]
fn char_from_u32(code: u32) -> (r: Option<char>)
    ensures
        r is Some <==> is_scalar_value(code),
        r is Some ==> r->0 == code as char,
{
    char::from_u32(code)
}

/// A longer run of digits writes no smaller number than its beginning, and
/// is made of digits only if its beginning is.
pub proof fn lemma_hex_value_prefix(digits: Seq<char>, k: int)
    requires
        0 <= k <= digits.len(),
        hex_value(digits) is Some,
    ensures
        hex_value(digits.subrange(0, k)) is Some,
        hex_value(digits.subrange(0, k))->0 <= hex_value(digits)->0,
        hex_value(digits.subrange(0, k))->0 >= 0,
    decreases digits.len() - k,
{
    if k == digits.len() {
        assert(digits.subrange(0, k) =~= digits);
        lemma_hex_value_nonnegative(digits);
    } else {
        let shorter = digits.drop_last();
        assert(shorter.subrange(0, k) =~= digits.subrange(0, k));
        lemma_hex_value_prefix(shorter, k);
    }
}

/// No run of digits writes a negative number.
pub proof fn lemma_hex_value_nonnegative(digits: Seq<char>)
    ensures
        hex_value(digits) is Some ==> hex_value(digits)->0 >= 0,
    decreases digits.len(),
{
    if digits.len() > 0 {
        lemma_hex_value_nonnegative(digits.drop_last());
    }
}

/// The value of the hexadecimal digit `c`, if it is one.
pub fn hex_digit_value(c: char) -> (r: Option<u32>)
    ensures
        match r {
            Some(d) => hex_digit(c) == Some(d as int) && d < 16,
            None => hex_digit(c) is None,
        },
{
    if '0' <= c && c <= '9' {
        Some(c as u32 - '0' as u32)
    } else if 'a' <= c && c <= 'f' {
        Some(c as u32 - 'a' as u32 + 10)
    } else if 'A' <= c && c <= 'F' {
        Some(c as u32 - 'A' as u32 + 10)
    } else {
        None
    }
}

/// Reads the characters of `chars` from `from` up to `to` as a hexadecimal
/// number of 32 bits.
pub fn parse_hex_u32(chars: &Vec<char>, from: usize, to: usize) -> (r: Option<u32>)
    requires
        from <= to <= chars@.len(),
    ensures
        r == hex_u32(chars@.subrange(from as int, to as int)),
{
    let ghost s = chars@.subrange(from as int, to as int);
    let start: usize = if from < to && chars[from] == '+' {
        from + 1
    } else {
        from
    };
    let ghost digits = chars@.subrange(start as int, to as int);
    proof {
        if from < to && chars@[from as int] == '+' {
            assert(s[0] == '+');
            assert(s.drop_first() =~= digits);
        } else {
            assert(s =~= digits);
            if s.len() > 0 {
                assert(s[0] == chars@[from as int]);
            }
        }
    }
    if start == to {
        return None;
    }
    let mut value: u64 = 0;
    let mut i: usize = start;
    proof {
        assert(digits.subrange(0, 0) =~= Seq::<char>::empty());
    }
    while i < to
        invariant
            start <= i <= to,
            from <= to <= chars@.len(),
            digits == chars@.subrange(start as int, to as int),
            hex_u32(chars@.subrange(from as int, to as int)) == match hex_value(digits) {
                Some(v) => if v <= u32::MAX {
                    Some(v as u32)
                } else {
                    None
                },
                None => None,
            },
            hex_value(digits.subrange(0, i - start)) == Some(value as int),
            value <= u32::MAX,
        decreases to - i,
    {
        let ghost upto = digits.subrange(0, i - start + 1);
        proof {
            assert(upto.drop_last() =~= digits.subrange(0, i - start));
            assert(upto.last() == chars@[i as int]);
        }
        match hex_digit_value(chars[i]) {
            Some(d) => {
                let next: u64 = value * 16 + d as u64;
                if next > 0xffff_ffff {
                    proof {
                        if hex_value(digits) is Some {
                            lemma_hex_value_prefix(digits, i - start + 1);
                        }
                    }
                    return None;
                }
                value = next;
            },
            None => {
                proof {
                    if hex_value(digits) is Some {
                        lemma_hex_value_prefix(digits, i - start + 1);
                    }
                }
                return None;
            },
        }
        i += 1;
    }
    proof {
        assert(digits.subrange(0, to - start) =~= digits);
    }
    Some(value as u32)
}

/// An error for font data that break a rule, with `prefix` followed by
/// `detail` as its text.
fn invalid_font(prefix: &str, detail: &str) -> (e: LoadError)
    ensures
        e matches LoadError::InvalidFont(text) && text@ == prefix@ + detail@,
{
    let mut text = prefix.to_owned();
    text.append(detail);
    LoadError::InvalidFont(text)
}

/// Reads the name of a glyph's character.
pub fn parse_character(s: &str) -> (r: Result<char, LoadError>)
    ensures
        match named_character(s@) {
            Ok(c) => r == Ok::<char, LoadError>(c),
            Err(fault) => r matches Err(LoadError::InvalidFont(text)) && text@
                == name_fault_text(fault, s@),
        },
{
    let chars = chars_of(s);
    let n: usize = chars.len();
    if n == 0 {
        return Err(invalid_font("Empty character string: ", s));
    }
    if chars[0] != '\\' || n == 1 {
        return Ok(chars[0]);
    }
    if n == 2 {
        let c = chars[1];
        if c == 'n' {
            return Ok('\n');
        } else if c == 't' {
            return Ok('\t');
        } else if c == 'r' {
            return Ok('\r');
        } else if c == '0' {
            return Ok('\0');
        } else if c == '\'' {
            return Ok('\'');
        } else if c == '"' {
            return Ok('"');
        } else if c == '\\' {
            return Ok('\\');
        }
    }
    if n >= 4 && chars[1] == 'u' && chars[2] == '{' && chars[n - 1] == '}' {
        match parse_hex_u32(&chars, 3, n - 1) {
            Some(code) => match char_from_u32(code) {
                Some(c) => Ok(c),
                None => Err(invalid_font("Invalid unicode character: ", s)),
            },
            None => Err(invalid_font("Invalid unicode escape: ", s)),
        }
    } else {
        Err(invalid_font("Unknown escape sequence: ", s))
    }
}

/// The spacing of a font whose file names none.
pub fn default_spacing() -> (spacing: usize)
    ensures
        spacing == 1,
{
    1
}

impl FontJson {
    /// The error text for a cell size that a font cannot have, if the size
    /// is such.
    pub open spec fn size_fault(self) -> Option<Seq<char>> {
        if self.width == 0 {
            Some("Font width must be greater than 0"@)
        } else if self.height == 0 {
            Some("Font height must be greater than 0"@)
        } else {
            None
        }
    }
}

/// Checks the cell size of a font's data: neither side may be 0.
pub fn validate_font_json(font_json: &FontJson) -> (r: Result<(), LoadError>)
    ensures
        match font_json.size_fault() {
            None => r is Ok,
            Some(fault) => r matches Err(LoadError::InvalidFont(text)) && text@ == fault,
        },
{
    if font_json.width == 0 {
        return Err(LoadError::InvalidFont("Font width must be greater than 0".to_owned()));
    }
    if font_json.height == 0 {
        return Err(LoadError::InvalidFont("Font height must be greater than 0".to_owned()));
    }
    Ok(())
}

impl LoadError {
    /// What the error says, as a text.
    pub open spec fn text(self) -> Seq<char> {
        match self {
            LoadError::Io(detail) => "IO error: "@ + detail@,
            LoadError::Json(detail) => "JSON parse error: "@ + detail@,
            LoadError::InvalidFont(detail) => "Invalid font data: "@ + detail@,
        }
    }

    /// What the error says.
    pub fn message(&self) -> (text: String)
        ensures
            text@ == self.text(),
    {
        match self {
            LoadError::Io(detail) => {
                let mut text = "IO error: ".to_owned();
                text.append(detail.as_str());
                text
            },
            LoadError::Json(detail) => {
                let mut text = "JSON parse error: ".to_owned();
                text.append(detail.as_str());
                text
            },
            LoadError::InvalidFont(detail) => {
                let mut text = "Invalid font data: ".to_owned();
                text.append(detail.as_str());
                text
            },
        }
    }
}

/// The position of the first row longer than `width`, or the number of rows
/// where none is.
pub open spec fn first_wide_row(rows: Seq<Seq<char>>, width: nat) -> int
    decreases rows.len(),
{
    if rows.len() == 0 {
        0
    } else if rows[0].len() > width {
        0
    } else {
        1 + first_wide_row(rows.drop_first(), width)
    }
}

/// The first wide row stands at `k`, given that no row before `k` is wide
/// and that row `k`, if there is one, is.
pub proof fn lemma_first_wide_row_at(rows: Seq<Seq<char>>, width: nat, k: int)
    requires
        0 <= k <= rows.len(),
        forall|j: int| 0 <= j < k ==> rows[j].len() <= width,
        k < rows.len() ==> rows[k].len() > width,
    ensures
        first_wide_row(rows, width) == k,
    decreases rows.len(),
{
    if rows.len() > 0 && k > 0 {
        let rest = rows.drop_first();
        assert forall|j: int| 0 <= j < k - 1 implies rest[j].len() <= width by {
            assert(rest[j] == rows[j + 1]);
        }
        lemma_first_wide_row_at(rest, width, k - 1);
    }
}

/// The text of the error for a glyph with too few or too many rows.
pub open spec fn row_count_text(name: Seq<char>, rows: nat, height: nat) -> Seq<char> {
    "Glyph for '"@ + name + "' has "@ + decimal(rows) + " lines, expected "@ + decimal(height)
}

/// The text of the error for a glyph's row that is wider than the cell.
pub open spec fn wide_row_text(name: Seq<char>, row: nat, len: nat, width: nat) -> Seq<char> {
    "Glyph for '"@ + name + "' line "@ + decimal(row) + " has "@ + decimal(len)
        + " characters, maximum is "@ + decimal(width)
}

/// What is wrong with one glyph of a font's data, if anything is: its name
/// is looked at first, then the number of its rows, then its rows from the
/// top for one that is wider than the cell.
pub open spec fn glyph_fault(
    name: Seq<char>,
    rows: Seq<Seq<char>>,
    width: nat,
    height: nat,
) -> Option<Seq<char>> {
    match named_character(name) {
        Err(fault) => Some(name_fault_text(fault, name)),
        Ok(_) => {
            if rows.len() != height {
                Some(row_count_text(name, rows.len(), height))
            } else {
                let i = first_wide_row(rows, width);
                if 0 <= i < rows.len() {
                    Some(wide_row_text(name, i as nat, rows[i].len(), width))
                } else {
                    None
                }
            }
        },
    }
}

impl FontJson {
    /// What is wrong with the first faulty glyph among the first `k`.
    pub open spec fn glyphs_fault(self, k: nat) -> Option<Seq<char>>
        decreases k,
    {
        if k == 0 {
            None
        } else {
            match self.glyphs_fault((k - 1) as nat) {
                Some(text) => Some(text),
                None => glyph_fault(
                    self.glyphs@[k - 1].0@,
                    rows_view(self.glyphs@[k - 1].1@),
                    self.width as nat,
                    self.height as nat,
                ),
            }
        }
    }

    /// What is wrong with the data, if anything is: the cell size is looked
    /// at first, then the glyphs in their order.
    pub open spec fn fault(self) -> Option<Seq<char>> {
        match self.size_fault() {
            Some(text) => Some(text),
            None => self.glyphs_fault(self.glyphs@.len()),
        }
    }

    /// The font that the data describe, where nothing is wrong with them.
    pub open spec fn font(self) -> FontModel {
        FontModel {
            width: self.width as nat,
            height: self.height as nat,
            spacing: self.spacing as nat,
            glyphs: self.table(self.glyphs@.len()),
        }
    }

    /// The rows of the first `k` glyphs by code point; of two glyphs for one
    /// character the later one stays.
    pub open spec fn table(self, k: nat) -> Map<u32, Seq<Seq<char>>>
        decreases k,
    {
        if k == 0 {
            Map::empty()
        } else {
            self.table((k - 1) as nat).insert(
                glyph_key(named_character(self.glyphs@[k - 1].0@)->Ok_0),
                rows_view(self.glyphs@[k - 1].1@),
            )
        }
    }
}

/// The first fault among the glyphs stays the first when more glyphs are
/// looked at.
pub proof fn lemma_first_fault_stays(font_json: FontJson, k: nat, m: nat)
    requires
        k <= m,
        font_json.glyphs_fault(k) is Some,
    ensures
        font_json.glyphs_fault(m) == font_json.glyphs_fault(k),
    decreases m,
{
    if k < m {
        lemma_first_fault_stays(font_json, k, (m - 1) as nat);
    }
}

/// The error for a glyph with too few or too many rows.
fn row_count_error(name: &str, rows: usize, height: usize) -> (e: LoadError)
    ensures
        e matches LoadError::InvalidFont(text) && text@ == row_count_text(
            name@,
            rows as nat,
            height as nat,
        ),
{
    let mut text = "Glyph for '".to_owned();
    text.append(name);
    text.append("' has ");
    text.append(decimal_string(rows as u64).as_str());
    text.append(" lines, expected ");
    text.append(decimal_string(height as u64).as_str());
    LoadError::InvalidFont(text)
}

/// The error for a glyph's row that is wider than the cell.
fn wide_row_error(name: &str, row: usize, len: usize, width: usize) -> (e: LoadError)
    ensures
        e matches LoadError::InvalidFont(text) && text@ == wide_row_text(
            name@,
            row as nat,
            len as nat,
            width as nat,
        ),
{
    let mut text = "Glyph for '".to_owned();
    text.append(name);
    text.append("' line ");
    text.append(decimal_string(row as u64).as_str());
    text.append(" has ");
    text.append(decimal_string(len as u64).as_str());
    text.append(" characters, maximum is ");
    text.append(decimal_string(width as u64).as_str());
    LoadError::InvalidFont(text)
}

/// Checks one glyph of a font's data and reads its character.
pub fn check_glyph(name: &str, rows: &Vec<String>, width: usize, height: usize) -> (r: Result<
    char,
    LoadError,
>)
    ensures
        match glyph_fault(name@, rows_view(rows@), width as nat, height as nat) {
            Some(fault) => r matches Err(LoadError::InvalidFont(text)) && text@ == fault,
            None => r matches Ok(c) && named_character(name@) == Ok::<char, NameFault>(c),
        },
{
    let ch = match parse_character(name) {
        Ok(c) => c,
        Err(e) => {
            return Err(e);
        },
    };
    if rows.len() != height {
        return Err(row_count_error(name, rows.len(), height));
    }
    let n: usize = rows.len();
    let ghost all = rows_view(rows@);
    let mut i: usize = 0;
    while i < n
        invariant
            i <= n,
            n == rows@.len(),
            n == height,
            all == rows_view(rows@),
            named_character(name@) == Ok::<char, NameFault>(ch),
            forall|j: int| 0 <= j < i ==> all[j].len() <= width,
        decreases n - i,
    {
        let line_width: usize = rows[i].as_str().unicode_len();
        if line_width > width {
            proof {
                assert(all[i as int] == rows@[i as int]@);
                lemma_first_wide_row_at(all, width as nat, i as int);
            }
            return Err(wide_row_error(name, i, line_width, width));
        }
        assert(all[i as int] == rows@[i as int]@);
        i += 1;
    }
    proof {
        lemma_first_wide_row_at(all, width as nat, n as int);
    }
    Ok(ch)
}

/// Builds the font that a font's data describe.
///
/// The data are refused where a side of the cell is 0, a glyph's name
/// cannot be read, a glyph has not as many rows as the cell is high, or a
/// row is wider than the cell; the error then names the first such fault.
pub fn font_from_json(font_json: &FontJson) -> (r: Result<Font, LoadError>)
    ensures
        match font_json.fault() {
            Some(fault) => r matches Err(LoadError::InvalidFont(text)) && text@ == fault,
            None => r matches Ok(font) && font@ == font_json.font(),
        },
{
    match validate_font_json(font_json) {
        Ok(()) => {},
        Err(e) => {
            return Err(e);
        },
    }
    let mut font = Font::new(font_json.width, font_json.height, font_json.spacing);
    let n: usize = font_json.glyphs.len();
    let mut k: usize = 0;
    assert(font@.glyphs =~= font_json.table(0));
    while k < n
        invariant
            k <= n,
            n == font_json.glyphs@.len(),
            font_json.size_fault() is None,
            font_json.glyphs_fault(k as nat) is None,
            font.width == font_json.width,
            font.height == font_json.height,
            font.spacing == font_json.spacing,
            font@.glyphs == font_json.table(k as nat),
        decreases n - k,
    {
        let entry = &font_json.glyphs[k];
        let ch = match check_glyph(
            entry.0.as_str(),
            &entry.1,
            font_json.width,
            font_json.height,
        ) {
            Ok(c) => c,
            Err(e) => {
                proof {
                    lemma_first_fault_stays(*font_json, (k + 1) as nat, n as nat);
                }
                return Err(e);
            },
        };
        let rows = copy_rows(&entry.1);
        font.add_glyph(ch, rows);
        k += 1;
    }
    Ok(font)
}

/// Whether `code` is a control character's code point.
pub open spec fn is_control_code(code: u32) -> bool {
    code <= 0x1f || 0x7f <= code <= 0x9f
}

/// Whether a font's file names the character with this code point by an
/// escape: control characters, the backslash and the double quote.
pub open spec fn needs_escape(code: u32) -> bool {
    is_control_code(code) || code == 0x5c || code == 0x22
}

/// The character that writes the hexadecimal digit `d` in lower case.
pub open spec fn hex_char(d: nat) -> char {
    if d < 10 {
        ('0' as u8 + d as u8) as char
    } else {
        ('a' as u8 + (d - 10) as u8) as char
    }
}

/// `n` written in hexadecimal with at least four digits.
pub open spec fn hex4(n: nat) -> Seq<char>
    decreases n,
{
    if n < 0x10000 {
        seq![
            hex_char(n / 0x1000),
            hex_char(n / 0x100 % 16),
            hex_char(n / 0x10 % 16),
            hex_char(n % 16),
        ]
    } else {
        hex4(n / 16).push(hex_char(n % 16))
    }
}

/// The name under which a font's file holds the glyph of a character: the
/// character itself, or `\u{..}` with its code point for one that needs an
/// escape.
pub open spec fn glyph_name(ch: char) -> Seq<char> {
    if needs_escape(ch as u32) {
        "\\u{"@ + hex4(ch as nat) + "}"@
    } else {
        seq![ch]
    }
}

/// `String::from` on a character: the text of that one character.
#[verifier::external_body]
fn char_text(ch: char) -> (text: String)
    ensures
        text@ == seq![ch],
{
    String::from(ch)
}

/// The text of one hexadecimal digit in lower case.
fn hex_digit_text(d: u32) -> (text: String)
    requires
        d < 16,
    ensures
        text@ == seq![hex_char(d as nat)],
{
    let c: u8 = if d < 10 {
        '0' as u8 + d as u8
    } else {
        'a' as u8 + (d - 10) as u8
    };
    char_text(c as char)
}

/// Writes `n` in hexadecimal with at least four digits.
pub fn hex4_string(n: u32) -> (text: String)
    ensures
        text@ == hex4(n as nat),
    decreases n,
{
    if n < 0x10000 {
        let mut text = hex_digit_text(n / 0x1000);
        text.append(hex_digit_text(n / 0x100 % 16).as_str());
        text.append(hex_digit_text(n / 0x10 % 16).as_str());
        text.append(hex_digit_text(n % 16).as_str());
        assert(text@ =~= hex4(n as nat));
        text
    } else {
        let mut text = hex4_string(n / 16);
        text.append(hex_digit_text(n % 16).as_str());
        assert(text@ =~= hex4(n as nat));
        text
    }
}

/// The name under which a font's file holds the glyph of `ch`.
pub fn glyph_name_of(ch: char) -> (name: String)
    ensures
        name@ == glyph_name(ch),
{
    let code: u32 = ch as u32;
    if code <= 0x1f || (0x7f <= code && code <= 0x9f) || ch == '\\' || ch == '"' {
        let mut name = "\\u{".to_owned();
        name.append(hex4_string(code).as_str());
        name.append("}");
        name
    } else {
        char_text(ch)
    }
}

/// A hexadecimal digit in lower case is read back as its value.
pub proof fn lemma_hex_char(d: nat)
    requires
        d < 16,
    ensures
        hex_digit(hex_char(d)) == Some(d as int),
        hex_char(d) != '+',
{
}

/// A name that a font's file is written with is read back as the character
/// it was written for.
pub proof fn lemma_glyph_name_round_trip(ch: char)
    ensures
        named_character(glyph_name(ch)) == Ok::<char, NameFault>(ch),
{
    let code = ch as u32;
    let s = glyph_name(ch);
    if needs_escape(code) {
        reveal_strlit("\\u{");
        reveal_strlit("}");
        let n = code as int;
        let digits = hex4(n as nat);
        assert(n < 0xa0);
        assert(s.len() == 8);
        assert(s[0] == '\\' && s[1] == 'u' && s[2] == '{' && s.last() == '}');
        assert(s.subrange(3, s.len() - 1) =~= digits);
        lemma_hex_char((n / 0x1000) as nat);
        lemma_hex_char((n / 0x100 % 16) as nat);
        lemma_hex_char((n / 0x10 % 16) as nat);
        lemma_hex_char((n % 16) as nat);
        let d3 = digits.drop_last();
        let d2 = d3.drop_last();
        let d1 = d2.drop_last();
        assert(d1.drop_last().len() == 0);
        assert(hex_value(d1.drop_last()) == Some(0int));
        assert(d1.last() == hex_char((n / 0x1000) as nat));
        assert(hex_value(d1) == Some(n / 0x1000));
        assert(d2.last() == hex_char((n / 0x100 % 16) as nat));
        assert(hex_value(d2) == Some(16 * (n / 0x1000) + n / 0x100 % 16));
        assert(d3.last() == hex_char((n / 0x10 % 16) as nat));
        assert(hex_value(d3) == Some(16 * (16 * (n / 0x1000) + n / 0x100 % 16) + n / 0x10 % 16));
        assert(digits.last() == hex_char((n % 16) as nat));
        assert(hex_value(digits) == Some(n));
        assert(digits[0] != '+');
        assert(hex_u32(digits) == Some(code));
    } else {
        assert(s.len() == 1);
        assert(s[0] == ch);
    }
}

} // verus!
