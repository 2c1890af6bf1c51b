//! The document store: file text split into an ordered sequence of
//! lines, immutable after construction.
use vstd::prelude::*;

verus! {

/// The position of the first newline in `s`, or `s.len()` when `s`
/// holds none.
pub open spec fn find_nl(s: Seq<char>) -> nat
    decreases s.len(),
{
    if s.len() == 0 {
        0
    } else if s[0] == '\n' {
        0
    } else {
        1 + find_nl(s.subrange(1, s.len() as int))
    }
}

/// `find_nl(s)` is the least index holding a newline: it equals any
/// `m` below which no newline stands and at which one stands (or the
/// length, when there is none).
pub proof fn lemma_find_nl_is(s: Seq<char>, m: int)
    requires
        0 <= m <= s.len(),
        forall|k: int| 0 <= k < m ==> s[k] != '\n',
        m < s.len() ==> s[m] == '\n',
    ensures
        find_nl(s) == m,
    decreases m,
{
    if m == 0 {
    } else {
        assert(s[0] != '\n');
        let t = s.subrange(1, s.len() as int);
        assert(forall|k: int| 0 <= k < m - 1 ==> t[k] == s[k + 1] && t[k] != '\n');
        lemma_find_nl_is(t, m - 1);
    }
}

/// The lines of the text `t`: split at each newline, a carriage return
/// immediately before a newline stripped with it, and a final segment
/// without a trailing newline kept as a last line (so a trailing
/// newline adds no empty line).
pub open spec fn lines_of(t: Seq<char>) -> Seq<Seq<char>>
    decreases t.len(),
{
    if t.len() == 0 {
        seq![]
    } else {
        let j = find_nl(t);
        if j < t.len() {
            let line = if j > 0 && t[j - 1] == '\r' {
                t.subrange(0, j - 1)
            } else {
                t.subrange(0, j as int)
            };
            seq![line] + lines_of(t.subrange(j + 1 as int, t.len() as int))
        } else {
            seq![t]
        }
    }
}

/// Returns the position of the first newline in `text` at or after
/// `from`, or the length when there is none.
fn find_newline(text: &str, from: usize, n: usize) -> (j: usize)
    requires
        n == text@.len(),
        from <= n,
    ensures
        from <= j <= n,
        forall|k: int| from <= k < j ==> text@[k] != '\n',
        j < n ==> text@[j as int] == '\n',
{
    let mut j = from;
    while j < n
        invariant
            from <= j <= n,
            n == text@.len(),
            forall|k: int| from <= k < j ==> text@[k] != '\n',
        decreases n - j,
    {
        if text.get_char(j) == '\n' {
            return j;
        }
        j = j + 1;
    }
    j
}

/// One splitting step: when the text is nonempty, its lines are the
/// first line followed by the lines of what stands after the first
/// newline.
proof fn lemma_lines_of_step(t: Seq<char>, j: int)
    requires
        0 <= j <= t.len(),
        t.len() > 0,
        forall|k: int| 0 <= k < j ==> t[k] != '\n',
        j < t.len() ==> t[j] == '\n',
    ensures
        j < t.len() ==> lines_of(t) == seq![
            if j > 0 && t[j - 1] == '\r' {
                t.subrange(0, j - 1)
            } else {
                t.subrange(0, j)
            },
        ] + lines_of(t.subrange(j + 1, t.len() as int)),
        j == t.len() ==> lines_of(t) == seq![t],
{
    lemma_find_nl_is(t, j);
}

/// The document: the lines of the loaded file, in file order.
pub struct Doc {
    pub lines: Vec<String>,
}

impl Doc {
    /// The mathematical view of the document: its lines as sequences
    /// of characters.
    pub open spec fn view(&self) -> Seq<Seq<char>> {
        self.lines@.map_values(|s: String| s@)
    }

    /// Splits the raw file text into lines; the document holds exactly
    /// the text's lines, in their original order.
    pub fn from_text(text: &str) -> (doc: Doc)
        ensures
            doc@ == lines_of(text@),
    {
        let n = text.unicode_len();
        let mut lines: Vec<String> = Vec::new();
        let mut pos: usize = 0;
        proof {
            assert(text@.subrange(0, n as int) =~= text@);
            assert(lines@.map_values(|s: String| s@) + lines_of(text@) =~= lines_of(text@));
        }
        while pos < n
            invariant
                pos <= n,
                n == text@.len(),
                lines_of(text@) == lines@.map_values(|s: String| s@) + lines_of(
                    text@.subrange(pos as int, n as int),
                ),
            decreases n - pos,
        {
            let ghost rest = text@.subrange(pos as int, n as int);
            let j = find_newline(text, pos, n);
            let line_end = if j < n && j > pos && text.get_char(j - 1) == '\r' {
                j - 1
            } else {
                j
            };
            let line = text.substring_char(pos, line_end);
            proof {
                assert(forall|k: int| 0 <= k < j - pos ==> rest[k] == text@[pos + k] && rest[k]
                    != '\n');
                lemma_lines_of_step(rest, j - pos);
                if j < n {
                    if j > pos && text@[j - 1] == '\r' {
                        assert(rest[j - pos - 1] == '\r');
                        assert(line@ =~= rest.subrange(0, j - pos - 1));
                    } else {
                        assert(j - pos > 0 ==> rest[j - pos - 1] != '\r');
                        assert(line@ =~= rest.subrange(0, j - pos));
                    }
                    assert(rest.subrange(j - pos + 1, rest.len() as int) =~= text@.subrange(
                        j + 1,
                        n as int,
                    ));
                    assert(lines_of(rest) == seq![line@] + lines_of(
                        text@.subrange(j + 1, n as int),
                    ));
                } else {
                    assert(line@ =~= rest);
                    assert(lines_of(rest) == seq![line@]);
                }
            }
            let ghost old_map = lines@.map_values(|s: String| s@);
            lines.push(String::from_str(line));
            proof {
                assert(lines@.map_values(|s: String| s@) =~= old_map.push(line@));
            }
            if j < n {
                pos = j + 1;
                proof {
                    assert(old_map + (seq![line@] + lines_of(text@.subrange(pos as int, n as int)))
                        =~= old_map.push(line@) + lines_of(text@.subrange(pos as int, n as int)));
                }
            } else {
                pos = n;
                proof {
                    assert(text@.subrange(n as int, n as int) =~= Seq::<char>::empty());
                    assert(old_map + seq![line@] =~= old_map.push(line@) + lines_of(
                        text@.subrange(n as int, n as int),
                    ));
                }
            }
        }
        proof {
            assert(text@.subrange(pos as int, n as int) =~= Seq::<char>::empty());
            assert(lines_of(text@) =~= lines@.map_values(|s: String| s@));
        }
        Doc { lines }
    }

    /// The number of lines in the document.
    pub fn line_count(&self) -> (n: usize)
        ensures
            n == self@.len(),
    {
        self.lines.len()
    }
}

} // verus!
