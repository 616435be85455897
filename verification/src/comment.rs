//! Line comments: from `//` to the end of the line.
use crate::literal::{index_of, lemma_index_of};
use vstd::prelude::*;
use vstd::string::*;

verus! {

/// Whether `s` holds `//` at `i`.
pub open spec fn comment_at(s: Seq<char>, i: int) -> bool {
    0 <= i && i + 1 < s.len() && s[i] == '/' && s[i + 1] == '/'
}

/// The number of characters of `s` before the first `//`, or the length of
/// `s` where it holds none.
pub open spec fn code_length(s: Seq<char>) -> nat
    decreases s.len(),
{
    if s.len() == 0 || comment_at(s, 0) {
        0
    } else {
        1 + code_length(s.skip(1))
    }
}

/// The line that starts `s`, without its end: a line ends with a line feed,
/// or with a carriage return and a line feed, and the last line with the
/// text.
pub open spec fn first_line(s: Seq<char>) -> Seq<char> {
    let n = index_of(s, '\n') as int;
    if 0 < n < s.len() && s[n - 1] == '\r' {
        s.take(n - 1)
    } else {
        s.take(n)
    }
}

/// What follows the first line of `s` and its end.
pub open spec fn after_first_line(s: Seq<char>) -> Seq<char> {
    let n = index_of(s, '\n') as int;
    if n < s.len() {
        s.skip(n + 1)
    } else {
        Seq::empty()
    }
}

/// The text `s` without its comments: each line up to its first `//`, and a
/// line feed after each line.
pub open spec fn strip_comments(s: Seq<char>) -> Seq<char>
    decreases s.len(),
{
    if s.len() == 0 {
        Seq::empty()
    } else {
        let line = first_line(s);
        proof {
            lemma_index_of(s, '\n');
        }
        line.take(code_length(line) as int) + seq!['\n'] + strip_comments(after_first_line(s))
    }
}

/// Tests whether `text` holds `//` at `i`.
fn is_comment_at(text: &str, i: usize, len: usize) -> (b: bool)
    requires
        len == text@.len(),
    ensures
        b == comment_at(text@, i as int),
{
    i < len && len - i > 1 && text.get_char(i) == '/' && text.get_char(i + 1) == '/'
}

/// Counts the characters of `text` before the first `//`.
fn count_code(text: &str) -> (n: usize)
    ensures
        n == code_length(text@),
        n <= text@.len(),
{
    let len = text.unicode_len();
    let mut n: usize = 0;
    proof {
        assert(text@.skip(0) =~= text@);
    }
    while n < len && !is_comment_at(text, n, len)
        invariant
            len == text@.len(),
            n <= len,
            code_length(text@) == n + code_length(text@.skip(n as int)),
        decreases len - n,
    {
        proof {
            let t = text@.skip(n as int);
            assert(t[0] == text@[n as int]);
            if n + 1 < len {
                assert(t[1] == text@[n + 1]);
            }
            assert(t.skip(1) =~= text@.skip(n + 1));
        }
        n = n + 1;
    }
    proof {
        let t = text@.skip(n as int);
        if n < len {
            assert(t[0] == text@[n as int]);
            assert(t[1] == text@[n + 1]);
        }
    }
    n
}

/// Counts the characters of `text` before the first line feed.
fn count_line(text: &str) -> (n: usize)
    ensures
        n == index_of(text@, '\n'),
        n <= text@.len(),
{
    let len = text.unicode_len();
    let mut n: usize = 0;
    proof {
        assert(text@.skip(0) =~= text@);
    }
    while n < len && text.get_char(n) != '\n'
        invariant
            len == text@.len(),
            n <= len,
            index_of(text@, '\n') == n + index_of(text@.skip(n as int), '\n'),
        decreases len - n,
    {
        proof {
            let t = text@.skip(n as int);
            assert(t[0] == text@[n as int]);
            assert(t.skip(1) =~= text@.skip(n + 1));
        }
        n = n + 1;
    }
    proof {
        let t = text@.skip(n as int);
        if n < len {
            assert(t[0] == text@[n as int]);
        }
    }
    n
}

/// The text without its comments: of each line what stands before its
/// first `//`, and a line feed after each line, the last one too.
pub fn remove_comments(text: &str) -> (stripped: String)
    ensures
        stripped@ == strip_comments(text@),
        stripped@.len() <= text@.len() + 1,
{
    let mut stripped = String::new();
    let mut rest = text;
    proof {
        reveal_strlit("\n");
        assert(stripped@ + strip_comments(rest@) =~= strip_comments(text@));
    }
    loop
        invariant
            "\n"@ == seq!['\n'],
            strip_comments(text@) == stripped@ + strip_comments(rest@),
            rest@.len() > 0 ==> stripped@.len() + rest@.len() <= text@.len(),
            stripped@.len() <= text@.len() + 1,
        decreases rest@.len(),
    {
        let len = rest.unicode_len();
        if len == 0 {
            proof {
                assert(stripped@ + Seq::<char>::empty() =~= stripped@);
            }
            return stripped;
        }
        let n = count_line(rest);
        let end = if 0 < n && n < len && rest.get_char(n - 1) == '\r' {
            n - 1
        } else {
            n
        };
        let line = rest.substring_char(0, end);
        let next = if n < len {
            rest.substring_char(n + 1, len)
        } else {
            rest.substring_char(len, len)
        };
        let code = line.substring_char(0, count_code(line));
        let ghost before = stripped@;
        stripped.append(code);
        stripped.append("\n");
        proof {
            lemma_index_of(rest@, '\n');
            assert(line@ =~= first_line(rest@));
            assert(next@ =~= after_first_line(rest@));
            assert(code@ =~= line@.take(code_length(line@) as int));
            assert(stripped@ + strip_comments(next@) =~= before + (code@ + seq!['\n']
                + strip_comments(next@)));
        }
        rest = next;
    }
}

} // verus!
