//! Character classes and the scanners that take a maximal run of one class
//! from the front of a text.
use vstd::prelude::*;
use vstd::string::*;

verus! {

/// The sets of characters that the scanners know.
#[derive(Debug, PartialEq, Eq, Clone, Copy)]
pub enum CharClass {
    /// An ASCII letter.
    Alpha,
    /// An ASCII letter or `_`.
    AlphaOrUnderscore,
    /// An ASCII letter or an ASCII decimal digit.
    AlphaNumeric,
    /// An ASCII letter, an ASCII decimal digit or `_`.
    Word,
    /// An ASCII hexadecimal digit or the letter `x`.
    Hex,
    /// An ASCII decimal digit or `-`.
    Decimal,
    /// A space, a tab, a carriage return or a line feed.
    Space,
}

/// Whether `c` is an ASCII letter.
pub open spec fn is_alpha(c: char) -> bool {
    ('a' <= c && c <= 'z') || ('A' <= c && c <= 'Z')
}

/// Whether `c` is an ASCII decimal digit.
pub open spec fn is_digit(c: char) -> bool {
    '0' <= c && c <= '9'
}

/// Whether `c` is an ASCII hexadecimal digit.
pub open spec fn is_hex_digit(c: char) -> bool {
    is_digit(c) || ('a' <= c && c <= 'f') || ('A' <= c && c <= 'F')
}

/// Whether `c` is a space, a tab, a carriage return or a line feed.
pub open spec fn is_space(c: char) -> bool {
    c == ' ' || c == '\t' || c == '\r' || c == '\n'
}

impl CharClass {
    /// Whether `c` belongs to the class.
    pub open spec fn contains(self, c: char) -> bool {
        match self {
            CharClass::Alpha => is_alpha(c),
            CharClass::AlphaOrUnderscore => is_alpha(c) || c == '_',
            CharClass::AlphaNumeric => is_alpha(c) || is_digit(c),
            CharClass::Word => is_alpha(c) || is_digit(c) || c == '_',
            CharClass::Hex => is_hex_digit(c) || c == 'x',
            CharClass::Decimal => is_digit(c) || c == '-',
            CharClass::Space => is_space(c),
        }
    }

    /// Tests whether `c` belongs to the class.
    pub fn has(self, c: char) -> (b: bool)
        ensures
            b == self.contains(c),
    {
        let alpha = ('a' <= c && c <= 'z') || ('A' <= c && c <= 'Z');
        let digit = '0' <= c && c <= '9';
        match self {
            CharClass::Alpha => alpha,
            CharClass::AlphaOrUnderscore => alpha || c == '_',
            CharClass::AlphaNumeric => alpha || digit,
            CharClass::Word => alpha || digit || c == '_',
            CharClass::Hex => digit || ('a' <= c && c <= 'f') || ('A' <= c && c <= 'F') || c == 'x',
            CharClass::Decimal => digit || c == '-',
            CharClass::Space => c == ' ' || c == '\t' || c == '\r' || c == '\n',
        }
    }
}

/// The length of the longest prefix of `s` made of characters of `class`.
pub open spec fn run_length(s: Seq<char>, class: CharClass) -> nat
    decreases s.len(),
{
    if s.len() > 0 && class.contains(s[0]) {
        1 + run_length(s.skip(1), class)
    } else {
        0
    }
}

/// A run is a prefix: it is no longer than the text, all of its characters
/// are of the class, and the character after it, if any, is not.
pub proof fn lemma_run_length(s: Seq<char>, class: CharClass)
    ensures
        run_length(s, class) <= s.len(),
        forall|i: int| 0 <= i < run_length(s, class) ==> class.contains(#[trigger] s[i]),
        run_length(s, class) < s.len() ==> !class.contains(s[run_length(s, class) as int]),
    decreases s.len(),
{
    if s.len() > 0 && class.contains(s[0]) {
        let t = s.skip(1);
        lemma_run_length(t, class);
        assert forall|i: int| 0 <= i < run_length(s, class) implies class.contains(
            #[trigger] s[i],
        ) by {
            if i > 0 {
                assert(s[i] == t[i - 1]);
            }
        }
        if run_length(s, class) < s.len() {
            assert(s[run_length(s, class) as int] == t[run_length(t, class) as int]);
        }
    }
}

/// Counts the characters of `class` at the front of `text`.
pub fn count_run(text: &str, class: CharClass) -> (n: usize)
    ensures
        n == run_length(text@, class),
        n <= text@.len(),
{
    let len = text.unicode_len();
    let mut n: usize = 0;
    proof {
        assert(text@.skip(0) =~= text@);
    }
    while n < len && class.has(text.get_char(n))
        invariant
            len == text@.len(),
            n <= len,
            run_length(text@, class) == n + run_length(text@.skip(n as int), class),
        decreases len - n,
    {
        proof {
            let t = text@.skip(n as int);
            assert(t[0] == text@[n as int]);
            assert(t.skip(1) =~= text@.skip(n + 1));
        }
        n = n + 1;
    }
    proof {
        let t = text@.skip(n as int);
        if n < len {
            assert(t[0] == text@[n as int]);
        }
    }
    n
}

/// Whether two texts hold the same characters.
pub fn str_equal(a: &str, b: &str) -> (same: bool)
    ensures
        same == (a@ == b@),
{
    let len = a.unicode_len();
    if len != b.unicode_len() {
        return false;
    }
    let mut i: usize = 0;
    while i < len
        invariant
            len == a@.len(),
            len == b@.len(),
            i <= len,
            forall|j: int| 0 <= j < i ==> a@[j] == b@[j],
        decreases len - i,
    {
        if a.get_char(i) != b.get_char(i) {
            return false;
        }
        i = i + 1;
    }
    proof {
        assert(a@ =~= b@);
    }
    true
}

} // verus!
