use vstd::prelude::*;
use vstd::string::*;

verus! {

/// A run of `n` blanks.
pub open spec fn spaces(n: nat) -> Seq<char> {
    Seq::new(n, |i: int| ' ')
}

/// The position of the first line feed in `s`, or the length of `s` when it holds none.
pub open spec fn first_newline(s: Seq<char>) -> int
    decreases s.len(),
{
    if s.len() == 0 {
        0
    } else if s[0] == '\n' {
        0
    } else {
        1 + first_newline(s.drop_first())
    }
}

/// `s` without one trailing carriage return, if it ends in one.
pub open spec fn strip_cr(s: Seq<char>) -> Seq<char> {
    if s.len() > 0 && s.last() == '\r' {
        s.drop_last()
    } else {
        s
    }
}

/// The lines of a text.
///
/// A line ends at a line feed; a carriage return directly before that line
/// feed belongs to the line ending. The last line needs no line ending, and
/// a text that ends in a line ending has no empty line after it.
pub open spec fn split_lines(s: Seq<char>) -> Seq<Seq<char>>
    decreases s.len(),
{
    if s.len() == 0 {
        Seq::empty()
    } else {
        let k = first_newline(s);
        if 0 <= k < s.len() {
            seq![strip_cr(s.subrange(0, k))] + split_lines(s.subrange(k + 1, s.len() as int))
        } else {
            seq![s]
        }
    }
}

/// The rows of `rows` put together with one line feed between neighbours.
pub open spec fn join_lines(rows: Seq<Seq<char>>) -> Seq<char>
    decreases rows.len(),
{
    if rows.len() == 0 {
        Seq::empty()
    } else if rows.len() == 1 {
        rows[0]
    } else {
        join_lines(rows.drop_last()) + seq!['\n'] + rows.last()
    }
}

/// The character sequences of a vector of strings.
pub open spec fn rows_view(rows: Seq<String>) -> Seq<Seq<char>> {
    Seq::new(rows.len(), |i: int| rows[i]@)
}

/// The character sequences of a vector of character vectors.
pub open spec fn grid_view(rows: Seq<Vec<char>>) -> Seq<Seq<char>> {
    Seq::new(rows.len(), |i: int| rows[i]@)
}

/// The first position `k` with a line feed, given that nothing before it is one.
pub proof fn lemma_first_newline_at(s: Seq<char>, k: int)
    requires
        0 <= k <= s.len(),
        forall|j: int| 0 <= j < k ==> s[j] != '\n',
        k < s.len() ==> s[k] == '\n',
    ensures
        first_newline(s) == k,
    decreases s.len(),
{
    if s.len() > 0 && s[0] != '\n' {
        let t = s.drop_first();
        assert forall|j: int| 0 <= j < k - 1 implies t[j] != '\n' by {
            assert(t[j] == s[j + 1]);
        }
        lemma_first_newline_at(t, k - 1);
    }
}

/// The characters of a string slice.
pub fn chars_of(s: &str) -> (v: Vec<char>)
    ensures
        v@ == s@,
{
    let mut v: Vec<char> = Vec::new();
    for c in it: s.chars()
        invariant
            v@ == it.seq().subrange(0, it.index@),
    {
        v.push(c);
    }
    v
}

/// A string of `n` blanks.
pub fn blank_string(n: usize) -> (s: String)
    ensures
        s@ == spaces(n as nat),
{
    let mut s = String::new();
    let mut i: usize = 0;
    proof {
        reveal_strlit(" ");
    }
    while i < n
        invariant
            i <= n,
            s@ == spaces(i as nat),
            " "@ == seq![' '],
        decreases n - i,
    {
        s.append(" ");
        i += 1;
        assert(s@ =~= spaces(i as nat));
    }
    s
}

/// Splits a text into its lines, as `split_lines` describes.
pub fn lines_of(text: &str) -> (lines: Vec<String>)
    ensures
        rows_view(lines@) == split_lines(text@),
{
    let chars = chars_of(text);
    let n: usize = chars.len();
    let mut lines: Vec<String> = Vec::new();
    let mut start: usize = 0;
    proof {
        assert(text@.subrange(0, n as int) =~= text@);
        assert(rows_view(lines@) =~= Seq::<Seq<char>>::empty());
        assert(rows_view(lines@) + split_lines(text@) =~= split_lines(text@));
    }
    while start < n
        invariant
            start <= n,
            n == text@.len(),
            chars@ == text@,
            split_lines(text@) == rows_view(lines@) + split_lines(
                text@.subrange(start as int, n as int),
            ),
        decreases n - start,
    {
        let ghost rest = text@.subrange(start as int, n as int);
        let ghost done = rows_view(lines@);
        let mut k: usize = start;
        while k < n && chars[k] != '\n'
            invariant
                start <= k <= n,
                n == text@.len(),
                chars@ == text@,
                forall|j: int| start <= j < k ==> text@[j] != '\n',
            decreases n - k,
        {
            k += 1;
        }
        proof {
            assert forall|j: int| 0 <= j < k - start implies rest[j] != '\n' by {
                assert(rest[j] == text@[start + j]);
            }
            lemma_first_newline_at(rest, k - start);
        }
        if k < n {
            let end: usize = if k > start && chars[k - 1] == '\r' {
                k - 1
            } else {
                k
            };
            let piece = text.substring_char(start, end).to_owned();
            proof {
                let head = rest.subrange(0, k - start);
                assert(head =~= text@.subrange(start as int, k as int));
                assert(strip_cr(head) =~= text@.subrange(start as int, end as int));
                assert(rest.subrange(k - start + 1, rest.len() as int) =~= text@.subrange(
                    k + 1,
                    n as int,
                ));
                assert(rows_view(lines@.push(piece)) =~= done + seq![piece@]);
                assert(done + (seq![piece@] + split_lines(text@.subrange(k + 1, n as int)))
                    =~= (done + seq![piece@]) + split_lines(text@.subrange(k + 1, n as int)));
            }
            lines.push(piece);
            start = k + 1;
        } else {
            let piece = text.substring_char(start, n).to_owned();
            proof {
                assert(rows_view(lines@.push(piece)) =~= done + seq![piece@]);
                assert(text@.subrange(n as int, n as int) =~= Seq::<char>::empty());
                assert(done + seq![piece@] + Seq::<Seq<char>>::empty() =~= done + seq![piece@]);
            }
            lines.push(piece);
            start = n;
        }
    }
    proof {
        assert(text@.subrange(n as int, n as int) =~= Seq::<char>::empty());
        assert(rows_view(lines@) + Seq::<Seq<char>>::empty() =~= rows_view(lines@));
    }
    lines
}

/// Puts rows together with one line feed between neighbours.
pub fn join_rows(rows: &Vec<String>) -> (out: String)
    ensures
        out@ == join_lines(rows_view(rows@)),
{
    let mut out = String::new();
    let n: usize = rows.len();
    let ghost all = rows_view(rows@);
    if n == 0 {
        return out;
    }
    out.append(rows[0].as_str());
    let mut i: usize = 1;
    proof {
        reveal_strlit("\n");
        assert(all.subrange(0, 1)[0] == rows@[0]@);
        assert(out@ =~= join_lines(all.subrange(0, 1)));
    }
    while i < n
        invariant
            1 <= i <= n,
            n == rows@.len(),
            all == rows_view(rows@),
            "\n"@ == seq!['\n'],
            out@ == join_lines(all.subrange(0, i as int)),
        decreases n - i,
    {
        out.append("\n");
        out.append(rows[i].as_str());
        proof {
            let next = all.subrange(0, i + 1);
            assert(next.drop_last() =~= all.subrange(0, i as int));
            assert(next.last() == rows@[i as int]@);
        }
        i += 1;
    }
    proof {
        assert(all.subrange(0, n as int) =~= all);
    }
    out
}

/// A copy of `rows`, row by row.
pub fn copy_rows(rows: &Vec<String>) -> (copy: Vec<String>)
    ensures
        rows_view(copy@) == rows_view(rows@),
{
    let mut copy: Vec<String> = Vec::new();
    let n: usize = rows.len();
    let mut i: usize = 0;
    while i < n
        invariant
            i <= n,
            n == rows@.len(),
            copy@.len() == i,
            forall|j: int| 0 <= j < i ==> (#[trigger] copy@[j])@ == rows@[j]@,
        decreases n - i,
    {
        copy.push(rows[i].clone());
        i += 1;
    }
    assert(rows_view(copy@) =~= rows_view(rows@));
    copy
}

/// The character that writes the digit `d`.
pub open spec fn digit_char(d: nat) -> char {
    if d == 0 {
        '0'
    } else if d == 1 {
        '1'
    } else if d == 2 {
        '2'
    } else if d == 3 {
        '3'
    } else if d == 4 {
        '4'
    } else if d == 5 {
        '5'
    } else if d == 6 {
        '6'
    } else if d == 7 {
        '7'
    } else if d == 8 {
        '8'
    } else {
        '9'
    }
}

/// `n` written in decimal, without leading zeros.
pub open spec fn decimal(n: nat) -> Seq<char>
    decreases n,
{
    if n < 10 {
        seq![digit_char(n)]
    } else {
        decimal(n / 10).push(digit_char(n % 10))
    }
}

/// The text of one decimal digit.
fn digit_str(d: u64) -> (s: &'static str)
    requires
        d < 10,
    ensures
        s@ == seq![digit_char(d as nat)],
{
    proof {
        reveal_strlit("0");
        reveal_strlit("1");
        reveal_strlit("2");
        reveal_strlit("3");
        reveal_strlit("4");
        reveal_strlit("5");
        reveal_strlit("6");
        reveal_strlit("7");
        reveal_strlit("8");
        reveal_strlit("9");
    }
    let s = if d == 0 {
        "0"
    } else if d == 1 {
        "1"
    } else if d == 2 {
        "2"
    } else if d == 3 {
        "3"
    } else if d == 4 {
        "4"
    } else if d == 5 {
        "5"
    } else if d == 6 {
        "6"
    } else if d == 7 {
        "7"
    } else if d == 8 {
        "8"
    } else {
        "9"
    };
    assert(s@ =~= seq![digit_char(d as nat)]);
    s
}

/// Writes `n` in decimal.
pub fn decimal_string(n: u64) -> (s: String)
    ensures
        s@ == decimal(n as nat),
    decreases n,
{
    if n < 10 {
        digit_str(n).to_owned()
    } else {
        let mut s = decimal_string(n / 10);
        s.append(digit_str(n % 10));
        assert(s@ =~= decimal(n as nat));
        s
    }
}

/// The character sequences of a table of string literals.
pub open spec fn literal_rows(rows: Seq<&'static str>) -> Seq<Seq<char>> {
    Seq::new(rows.len(), |i: int| rows[i]@)
}

/// The rows of a table of string literals as strings.
pub fn owned_rows(rows: &[&'static str]) -> (out: Vec<String>)
    ensures
        rows_view(out@) == literal_rows(rows@),
{
    let mut out: Vec<String> = Vec::new();
    let mut i: usize = 0;
    while i < rows.len()
        invariant
            i <= rows@.len(),
            out@.len() == i,
            forall|j: int| 0 <= j < i ==> (#[trigger] out@[j])@ == rows@[j]@,
        decreases rows@.len() - i,
    {
        out.push(rows[i].to_owned());
        i += 1;
    }
    assert(rows_view(out@) =~= literal_rows(rows@));
    out
}

} // verus!
