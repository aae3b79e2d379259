//! Searching and trimming text, character by character.

use vstd::prelude::*;
use vstd::std_specs::iter::IteratorSpec;
use vstd::string::*;

verus! {

/// Whether a character is white space: whether it has the Unicode property
/// `White_Space`. These are the tabulators and line ends of ASCII, the space,
/// the next-line control, the no-break spaces, the Ogham space mark, the
/// spaces of fixed width, the line and paragraph separators, the
/// mathematical space and the ideographic space.
pub open spec fn is_whitespace(c: char) -> bool {
    let code = c as u32;
    ||| 0x0009 <= code <= 0x000D
    ||| code == 0x0020
    ||| code == 0x0085
    ||| code == 0x00A0
    ||| code == 0x1680
    ||| 0x2000 <= code <= 0x200A
    ||| code == 0x2028
    ||| code == 0x2029
    ||| code == 0x202F
    ||| code == 0x205F
    ||| code == 0x3000
}

/// Tells whether a character is white space.
pub fn is_space(c: char) -> (white: bool)
    ensures
        white == is_whitespace(c),
{
    let code = c as u32;
    (0x0009 <= code && code <= 0x000D) || code == 0x0020 || code == 0x0085 || code == 0x00A0
        || code == 0x1680 || (0x2000 <= code && code <= 0x200A) || code == 0x2028 || code
        == 0x2029 || code == 0x202F || code == 0x205F || code == 0x3000
}

/// The characters that a trim removes.
#[derive(Clone, Copy, Debug, PartialEq, Eq, Structural)]
pub enum Trim {
    /// White space.
    Whitespace,
    /// One given character.
    Char(char),
}

impl Trim {
    /// Whether a trim of this kind removes `c`.
    pub open spec fn removes(self, c: char) -> bool {
        match self {
            Trim::Whitespace => is_whitespace(c),
            Trim::Char(removed) => c == removed,
        }
    }

    /// Whether a trim of this kind removes `c`.
    pub fn matches(&self, c: char) -> (removed: bool)
        ensures
            removed == self.removes(c),
    {
        match self {
            Trim::Whitespace => is_space(c),
            Trim::Char(removed) => c == *removed,
        }
    }
}

/// Where `s.subrange(from, to)` starts once the characters at its start that
/// `trim` removes are gone: the first index from `from` on that holds another
/// character, or `to`.
pub open spec fn skip_while(s: Seq<char>, trim: Trim, from: int, to: int) -> int
    decreases to - from,
{
    if 0 <= from < to <= s.len() && trim.removes(s[from]) {
        skip_while(s, trim, from + 1, to)
    } else {
        from
    }
}

/// Where `s.subrange(from, to)` ends once the characters at its end that
/// `trim` removes are gone.
pub open spec fn drop_while(s: Seq<char>, trim: Trim, from: int, to: int) -> int
    decreases to - from,
{
    if 0 <= from < to <= s.len() && trim.removes(s[to - 1]) {
        drop_while(s, trim, from, to - 1)
    } else {
        to
    }
}

/// The text `s.subrange(from, to)` without the characters at either end that
/// `trim` removes.
pub open spec fn trimmed(s: Seq<char>, trim: Trim, from: int, to: int) -> Seq<char> {
    let start = skip_while(s, trim, from, to);
    s.subrange(start, drop_while(s, trim, start, to))
}

/// Whether `pattern` stands in `s` at index `at`.
pub open spec fn occurs_at(s: Seq<char>, pattern: Seq<char>, at: int) -> bool {
    0 <= at && at + pattern.len() <= s.len() && s.subrange(at, at + pattern.len()) == pattern
}

/// The first index from `from` on at which `pattern` stands in `s`.
pub open spec fn find(s: Seq<char>, pattern: Seq<char>, from: int) -> Option<int>
    decreases s.len() - from + 1,
{
    if from < 0 || from + pattern.len() > s.len() {
        None
    } else if occurs_at(s, pattern, from) {
        Some(from)
    } else {
        find(s, pattern, from + 1)
    }
}

/// What `skip_while` computes is the one index up to which everything is
/// removed and at which something stays.
pub proof fn lemma_skip_while(s: Seq<char>, trim: Trim, from: int, to: int)
    requires
        0 <= from <= to <= s.len(),
    ensures
        from <= skip_while(s, trim, from, to) <= to,
        forall|i: int| from <= i < skip_while(s, trim, from, to) ==> trim.removes(s[i]),
        skip_while(s, trim, from, to) < to ==> !trim.removes(s[skip_while(s, trim, from, to)]),
    decreases to - from,
{
    if from < to && trim.removes(s[from]) {
        lemma_skip_while(s, trim, from + 1, to);
    }
}

/// What `drop_while` computes is the one index from which everything is
/// removed and before which something stays.
pub proof fn lemma_drop_while(s: Seq<char>, trim: Trim, from: int, to: int)
    requires
        0 <= from <= to <= s.len(),
    ensures
        from <= drop_while(s, trim, from, to) <= to,
        forall|i: int| drop_while(s, trim, from, to) <= i < to ==> trim.removes(s[i]),
        from < drop_while(s, trim, from, to) ==> !trim.removes(
            s[drop_while(s, trim, from, to) - 1],
        ),
    decreases to - from,
{
    if from < to && trim.removes(s[to - 1]) {
        lemma_drop_while(s, trim, from, to - 1);
    }
}

/// What `find` finds is the first occurrence: the pattern stands there and
/// nowhere between `from` and there; where `find` finds nothing, the pattern
/// stands nowhere from `from` on.
pub proof fn lemma_find(s: Seq<char>, pattern: Seq<char>, from: int)
    requires
        0 <= from,
    ensures
        match find(s, pattern, from) {
            Some(at) => from <= at && occurs_at(s, pattern, at) && forall|i: int|
                from <= i < at ==> !occurs_at(s, pattern, i),
            None => forall|i: int| from <= i ==> !occurs_at(s, pattern, i),
        },
    decreases s.len() - from + 1,
{
    if from + pattern.len() <= s.len() && !occurs_at(s, pattern, from) {
        lemma_find(s, pattern, from + 1);
    }
}

/// The characters of a string, in order.
pub fn chars_of(s: &str) -> (chars: Vec<char>)
    ensures
        chars@ == s@,
{
    let mut rest = s.chars();
    let mut chars: Vec<char> = Vec::new();
    proof {
        broadcast use vstd::string::group_string_axioms;
        assert(rest.remaining() == s@);
    }
    loop
        invariant
            chars@ + rest.remaining() == s@,
            rest.obeys_prophetic_iter_laws(),
            rest.decrease() is Some,
        ensures
            chars@ == s@,
        decreases rest.decrease()->0,
    {
        proof {
            broadcast use vstd::string::group_string_axioms;
        }
        let ghost before = rest.remaining();
        match rest.next() {
            Some(c) => {
                chars.push(c);
                assert(before == seq![c] + rest.remaining());
            },
            None => {
                assert(chars@ + rest.remaining() == chars@);
                break ;
            },
        }
    }
    chars
}

/// Skips, from `from` on and not beyond `to`, the characters that `trim` removes.
pub fn skip_from(s: &[char], trim: Trim, from: usize, to: usize) -> (start: usize)
    requires
        from <= to <= s.len(),
    ensures
        start == skip_while(s@, trim, from as int, to as int),
        from <= start <= to,
{
    let mut start = from;
    while start < to && trim.matches(s[start])
        invariant
            from <= start <= to <= s.len(),
            skip_while(s@, trim, from as int, to as int) == skip_while(
                s@,
                trim,
                start as int,
                to as int,
            ),
        decreases to - start,
    {
        start += 1;
    }
    start
}

/// Drops, from `to` back and not beyond `from`, the characters that `trim` removes.
pub fn drop_from(s: &[char], trim: Trim, from: usize, to: usize) -> (end: usize)
    requires
        from <= to <= s.len(),
    ensures
        end == drop_while(s@, trim, from as int, to as int),
        from <= end <= to,
{
    let mut end = to;
    while from < end && trim.matches(s[end - 1])
        invariant
            from <= end <= to <= s.len(),
            drop_while(s@, trim, from as int, to as int) == drop_while(
                s@,
                trim,
                from as int,
                end as int,
            ),
        decreases end - from,
    {
        end -= 1;
    }
    end
}

/// Tells whether `pattern` stands in `s` at index `at`.
pub fn starts_with_at(s: &[char], at: usize, pattern: &[char]) -> (found: bool)
    ensures
        found == occurs_at(s@, pattern@, at as int),
{
    if pattern.len() > s.len() || at > s.len() - pattern.len() {
        return false;
    }
    let mut i: usize = 0;
    while i < pattern.len()
        invariant
            i <= pattern.len(),
            at + pattern.len() <= s.len(),
            forall|j: int| 0 <= j < i ==> s@[at + j] == pattern@[j],
        decreases pattern.len() - i,
    {
        if s[at + i] != pattern[i] {
            assert(s@.subrange(at as int, at + pattern.len())[i as int] != pattern@[i as int]);
            return false;
        }
        i += 1;
    }
    assert(s@.subrange(at as int, at + pattern.len()) =~= pattern@);
    true
}

/// Finds the first index from `from` on at which `pattern` stands in `s`.
pub fn find_from(s: &[char], pattern: &[char], from: usize) -> (found: Option<usize>)
    ensures
        match found {
            Some(at) => find(s@, pattern@, from as int) == Some(at as int),
            None => find(s@, pattern@, from as int).is_none(),
        },
        found matches Some(at) ==> from <= at && at + pattern.len() <= s.len(),
{
    let mut at = from;
    while at <= s.len() && pattern.len() <= s.len() - at
        invariant
            from <= at,
            find(s@, pattern@, from as int) == find(s@, pattern@, at as int),
        decreases s.len() + 1 - at,
    {
        if starts_with_at(s, at, pattern) {
            return Some(at);
        }
        assert(at < s.len()) by {
            if at == s.len() {
                assert(s@.subrange(at as int, at + pattern.len()) =~= pattern@);
            }
        }
        at += 1;
    }
    None
}

} // verus!
