//! Rewriting wiki links into Markdown links.
//!
//! A wiki link is two opening square brackets, a target, optionally a
//! vertical bar and a text, and two closing square brackets. The target is
//! one or more characters other than `]` and `|`; the text is one or more
//! characters other than `]`.

use super::text::{chars_of, drop_from, occurs_at, skip_from, starts_with_at, trimmed, Trim};
use vstd::prelude::*;
use vstd::string::*;

verus! {

/// The slug of a text as `slug::slugify` makes it: lower-case ASCII letters
/// and digits, with single dashes where anything else stood.
pub uninterp spec fn slugified(text: Seq<char>) -> Seq<char>;

/// Asks `slug::slugify`.
#[verifier::external_body]
pub(crate) fn slugify(text: &str) -> (slug: String)
    ensures
        slug@ == slugified(text@),
{
    slug::slugify(text)
}

/// Where a wiki link stands in a text.
pub ghost struct Wikilink {
    /// Where the target starts.
    pub target: int,
    /// Where the target ends.
    pub target_end: int,
    /// Where the text starts and ends, if the link has one.
    pub text: Option<(int, int)>,
    /// Where the link ends, after its closing brackets.
    pub end: int,
}

/// What opens a wiki link.
pub open spec fn open_brackets() -> Seq<char> {
    seq!['[', '[']
}

/// What closes a wiki link.
pub open spec fn close_brackets() -> Seq<char> {
    seq![']', ']']
}

/// Where the run of characters from `from` on ends that are neither `]` nor,
/// where `bar_ends` holds, `|`.
pub open spec fn run_end(s: Seq<char>, bar_ends: bool, from: int) -> int
    decreases s.len() - from,
{
    if 0 <= from < s.len() && s[from] != ']' && !(bar_ends && s[from] == '|') {
        run_end(s, bar_ends, from + 1)
    } else {
        from
    }
}

/// The wiki link that starts at `at`, if one does.
pub open spec fn wikilink_at(s: Seq<char>, at: int) -> Option<Wikilink> {
    let target = at + 2;
    let target_end = run_end(s, true, target);
    if !occurs_at(s, open_brackets(), at) || target_end == target {
        None
    } else if occurs_at(s, close_brackets(), target_end) {
        Some(Wikilink { target, target_end, text: None, end: target_end + 2 })
    } else if target_end < s.len() && s[target_end] == '|' {
        let text = target_end + 1;
        let text_end = run_end(s, false, text);
        if text_end > text && occurs_at(s, close_brackets(), text_end) {
            Some(Wikilink { target, target_end, text: Some((text, text_end)), end: text_end + 2 })
        } else {
            None
        }
    } else {
        None
    }
}

/// The Markdown link that stands for a wiki link: its text, or its target
/// where it has no text, in square brackets, and, in round brackets, the
/// address of the post that the slug of the target names. The target counts
/// without the white space around it.
pub open spec fn markdown_link(s: Seq<char>, link: Wikilink) -> Seq<char> {
    let target = trimmed(s, Trim::Whitespace, link.target, link.target_end);
    let text = match link.text {
        Some((start, end)) => s.subrange(start, end),
        None => target,
    };
    "["@ + text + "](/blog/"@ + slugified(target) + ")"@
}

/// The text from `from` on with every wiki link rewritten, the links taken
/// from left to right, none overlapping another. (A link is never empty, so
/// the text after it is always shorter.)
pub open spec fn rewritten_from(s: Seq<char>, from: int) -> Seq<char>
    decreases s.len() - from,
{
    if from < 0 || from >= s.len() {
        Seq::empty()
    } else {
        match wikilink_at(s, from) {
            Some(link) => if from < link.end {
                markdown_link(s, link) + rewritten_from(s, link.end)
            } else {
                Seq::empty()
            },
            None => seq![s[from]] + rewritten_from(s, from + 1),
        }
    }
}

/// The text with every wiki link rewritten.
pub open spec fn rewritten(s: Seq<char>) -> Seq<char> {
    rewritten_from(s, 0)
}

/// A wiki link lies within the text and is not empty.
pub proof fn lemma_wikilink_bounds(s: Seq<char>, at: int)
    requires
        0 <= at,
    ensures
        wikilink_at(s, at) matches Some(link) ==> {
            &&& link.target == at + 2
            &&& link.target < link.target_end
            &&& link.target_end < link.end <= s.len()
            &&& link.text matches Some((start, end)) ==> link.target_end < start < end < link.end
        },
{
    lemma_run_end(s, true, at + 2);
    lemma_run_end(s, false, run_end(s, true, at + 2) + 1);
}

/// A run ends at the first character that ends it, or with the text.
pub proof fn lemma_run_end(s: Seq<char>, bar_ends: bool, from: int)
    requires
        0 <= from,
    ensures
        from <= run_end(s, bar_ends, from),
        from <= s.len() ==> run_end(s, bar_ends, from) <= s.len(),
        forall|i: int|
            from <= i < run_end(s, bar_ends, from) ==> s[i] != ']' && !(bar_ends && s[i] == '|'),
        run_end(s, bar_ends, from) < s.len() ==> s[run_end(s, bar_ends, from)] == ']' || (bar_ends
            && s[run_end(s, bar_ends, from)] == '|'),
    decreases s.len() - from,
{
    if from < s.len() && s[from] != ']' && !(bar_ends && s[from] == '|') {
        lemma_run_end(s, bar_ends, from + 1);
    }
}

/// Finds where the run of characters from `from` on ends.
fn find_run_end(s: &[char], bar_ends: bool, from: usize) -> (end: usize)
    requires
        from <= s.len(),
    ensures
        end == run_end(s@, bar_ends, from as int),
        from <= end <= s.len(),
{
    let mut end = from;
    while end < s.len() && s[end] != ']' && !(bar_ends && s[end] == '|')
        invariant
            from <= end <= s.len(),
            run_end(s@, bar_ends, from as int) == run_end(s@, bar_ends, end as int),
        decreases s.len() - end,
    {
        end += 1;
    }
    end
}

/// A wiki link as indices into the text.
struct Found {
    target: usize,
    target_end: usize,
    text: Option<(usize, usize)>,
    end: usize,
}

impl Found {
    spec fn link(self) -> Wikilink {
        Wikilink {
            target: self.target as int,
            target_end: self.target_end as int,
            text: match self.text {
                Some((start, end)) => Some((start as int, end as int)),
                None => None,
            },
            end: self.end as int,
        }
    }
}

/// Reads the wiki link that starts at `at`, if one does.
fn read_wikilink(s: &[char], at: usize) -> (found: Option<Found>)
    requires
        at < s.len(),
    ensures
        match found {
            Some(found) => wikilink_at(s@, at as int) == Some(found.link()),
            None => wikilink_at(s@, at as int).is_none(),
        },
{
    let open = vec!['[', '['];
    let close = vec![']', ']'];
    assert(open@ =~= open_brackets());
    assert(close@ =~= close_brackets());
    if !starts_with_at(s, at, open.as_slice()) {
        return None;
    }
    let target = at + 2;
    let target_end = find_run_end(s, true, target);
    if target_end == target {
        return None;
    }
    if starts_with_at(s, target_end, close.as_slice()) {
        return Some(Found { target, target_end, text: None, end: target_end + 2 });
    }
    if target_end < s.len() && s[target_end] == '|' {
        let text = target_end + 1;
        let text_end = find_run_end(s, false, text);
        if text_end > text && starts_with_at(s, text_end, close.as_slice()) {
            return Some(
                Found { target, target_end, text: Some((text, text_end)), end: text_end + 2 },
            );
        }
    }
    None
}

/// Appends to `out` the Markdown link that stands for a wiki link of `s`.
fn push_markdown_link(out: &mut String, s: &str, chars: &[char], found: &Found)
    requires
        chars@ == s@,
        wikilink_at(s@, found.target - 2) == Some(found.link()),
        found.target >= 2,
    ensures
        final(out)@ == old(out)@ + markdown_link(s@, found.link()),
{
    proof {
        lemma_wikilink_bounds(s@, found.target - 2);
    }
    let from = skip_from(chars, Trim::Whitespace, found.target, found.target_end);
    let to = drop_from(chars, Trim::Whitespace, from, found.target_end);
    let target = s.substring_char(from, to);
    let slug = slugify(target);
    let ghost before = out@;
    out.append("[");
    match found.text {
        Some((start, end)) => out.append(s.substring_char(start, end)),
        None => out.append(target),
    }
    out.append("](/blog/");
    out.append(slug.as_str());
    out.append(")");
    assert(out@ =~= before + markdown_link(s@, found.link()));
}

/// Rewrites every wiki link of a text into a Markdown link to the post that
/// the link names. Everything else stays as it is.
pub fn rewrite_wikilinks(s: &str) -> (out: String)
    ensures
        out@ == rewritten(s@),
{
    let chars = chars_of(s);
    let len = chars.len();
    let mut out = String::new();
    // what lies between `copied` and `at` is still to be copied
    let mut copied: usize = 0;
    let mut at: usize = 0;
    while at < len
        invariant
            copied <= at <= len,
            len == chars.len(),
            chars@ == s@,
            rewritten(s@) == out@ + s@.subrange(copied as int, at as int) + rewritten_from(
                s@,
                at as int,
            ),
        decreases len - at,
    {
        match read_wikilink(chars.as_slice(), at) {
            Some(found) => {
                proof {
                    lemma_wikilink_bounds(s@, at as int);
                }
                let ghost before = out@;
                out.append(s.substring_char(copied, at));
                push_markdown_link(&mut out, s, chars.as_slice(), &found);
                assert(out@ + s@.subrange(found.end as int, found.end as int) =~= before
                    + s@.subrange(copied as int, at as int) + markdown_link(s@, found.link()));
                assert(rewritten(s@) =~= out@ + s@.subrange(found.end as int, found.end as int)
                    + rewritten_from(s@, found.end as int));
                copied = found.end;
                at = found.end;
            },
            None => {
                assert(s@.subrange(copied as int, at + 1) =~= s@.subrange(
                    copied as int,
                    at as int,
                ) + seq![s@[at as int]]);
                assert(rewritten(s@) =~= out@ + s@.subrange(copied as int, at + 1)
                    + rewritten_from(s@, at + 1));
                at += 1;
            },
        }
    }
    out.append(s.substring_char(copied, len));
    assert(rewritten_from(s@, len as int) =~= Seq::<char>::empty());
    assert(out@ =~= rewritten(s@));
    out
}

} // verus!
