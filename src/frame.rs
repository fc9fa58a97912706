use vstd::prelude::*;
use vstd::string::*;

verus! {

/// The line `s[start..end]` ended by a `'\n'` at `end`, without the `'\r'`
/// of a `"\r\n"` ending.
pub open spec fn line_piece(s: Seq<char>, start: int, end: int) -> Seq<char> {
    if end > start && s[end - 1] == '\r' {
        s.subrange(start, end - 1)
    } else {
        s.subrange(start, end)
    }
}

/// The lines of `s[start..]`, where the line being scanned began at `start`
/// and `i` is the next character to look at.
pub open spec fn lines_from(s: Seq<char>, start: int, i: int) -> Seq<Seq<char>>
    decreases s.len() - i,
{
    if i >= s.len() {
        if i > start {
            seq![s.subrange(start, i)]
        } else {
            seq![]
        }
    } else if s[i] == '\n' {
        seq![line_piece(s, start, i)] + lines_from(s, i + 1, i + 1)
    } else {
        lines_from(s, start, i + 1)
    }
}

/// The lines of a text: pieces ended by `'\n'` or `"\r\n"`, the last one
/// possibly unended, without a last empty piece.
pub open spec fn lines_of(s: Seq<char>) -> Seq<Seq<char>> {
    lines_from(s, 0, 0)
}

/// The length of the longest line, 0 when there is none.
pub open spec fn max_width(lines: Seq<Seq<char>>) -> nat
    decreases lines.len(),
{
    if lines.len() == 0 {
        0
    } else {
        let w = max_width(lines.drop_last());
        let l = lines.last().len();
        if l > w {
            l
        } else {
            w
        }
    }
}

/// One still picture of an animation: ASCII art and how many ticks it stays on
/// screen (0: the animation's default).
#[derive(Clone, Debug)]
pub struct Frame {
    pub ascii: String,
    pub ticks: usize,
}

/// The view of a list of strings as character sequences.
pub open spec fn strings_view(v: Seq<String>) -> Seq<Seq<char>> {
    v.map_values(|l: String| l@)
}

impl Frame {
    pub fn new(ascii: &str) -> (r: Frame)
        ensures
            r.ascii@ == ascii@,
            r.ticks == 0,
    {
        Frame { ascii: String::from_str(ascii), ticks: 0 }
    }

    pub fn new_ticks(ascii: &str, ticks: usize) -> (r: Frame)
        ensures
            r.ascii@ == ascii@,
            r.ticks == ticks,
    {
        Frame { ascii: String::from_str(ascii), ticks }
    }

    pub fn content(&self) -> (r: &str)
        ensures
            r@ == self.ascii@,
    {
        self.ascii.as_str()
    }

    pub fn ticks(&self) -> (r: usize)
        ensures
            r == self.ticks,
    {
        self.ticks
    }

    /// The lines of the picture, top line first.
    pub fn get_lines(&self) -> (r: Vec<String>)
        ensures
            strings_view(r@) == lines_of(self.ascii@),
    {
        let s = self.ascii.as_str();
        let n = s.unicode_len();
        let mut out: Vec<String> = Vec::new();
        let mut start: usize = 0;
        let mut i: usize = 0;
        while i < n
            invariant
                n == s@.len(),
                s@ == self.ascii@,
                start <= i <= n,
                strings_view(out@) + lines_from(s@, start as int, i as int) == lines_of(s@),
            decreases n - i,
        {
            let c = s.get_char(i);
            if c == '\n' {
                let end = if i > start && s.get_char(i - 1) == '\r' {
                    i - 1
                } else {
                    i
                };
                let line = String::from_str(s.substring_char(start, end));
                proof {
                    assert(line@ == line_piece(s@, start as int, i as int));
                    assert(strings_view(out@.push(line)) =~= strings_view(out@).push(line@));
                    assert(lines_from(s@, start as int, i as int) == seq![
                        line_piece(s@, start as int, i as int),
                    ] + lines_from(s@, i + 1, i + 1));
                    assert(strings_view(out@.push(line)) + lines_from(s@, i + 1, i + 1)
                        =~= strings_view(out@) + lines_from(s@, start as int, i as int));
                }
                out.push(line);
                start = i + 1;
            }
            i = i + 1;
        }
        if i > start {
            let line = String::from_str(s.substring_char(start, i));
            proof {
                assert(strings_view(out@.push(line)) =~= strings_view(out@).push(line@));
                assert(strings_view(out@.push(line)) =~= strings_view(out@) + lines_from(
                    s@,
                    start as int,
                    i as int,
                ));
            }
            out.push(line);
        } else {
            proof {
                assert(strings_view(out@) =~= strings_view(out@) + lines_from(
                    s@,
                    start as int,
                    i as int,
                ));
            }
        }
        out
    }

    /// Number of lines of the picture.
    pub fn get_height(&self) -> (r: u32)
        requires
            lines_of(self.ascii@).len() <= u32::MAX,
        ensures
            r == lines_of(self.ascii@).len(),
    {
        let lines = self.get_lines();
        proof {
            assert(lines@.len() == strings_view(lines@).len());
        }
        lines.len() as u32
    }

    /// Number of characters of the longest line.
    pub fn get_width(&self) -> (r: u32)
        requires
            max_width(lines_of(self.ascii@)) <= u32::MAX,
        ensures
            r == max_width(lines_of(self.ascii@)),
    {
        let lines = self.get_lines();
        let ghost lv = strings_view(lines@);
        let mut best: usize = 0;
        let mut k: usize = 0;
        while k < lines.len()
            invariant
                lv == strings_view(lines@),
                lv == lines_of(self.ascii@),
                max_width(lv) <= u32::MAX,
                k <= lines.len(),
                best == max_width(lv.take(k as int)),
            decreases lines.len() - k,
        {
            let w = lines[k].as_str().unicode_len();
            proof {
                assert(lv.take(k + 1).drop_last() =~= lv.take(k as int));
                assert(lv.take(k + 1).last() == lines@[k as int]@);
            }
            if w > best {
                best = w;
            }
            k = k + 1;
        }
        proof {
            assert(lv.take(k as int) =~= lv);
        }
        best as u32
    }
}

} // verus!
