//! Taking an uploaded post apart: its front matter, its body, its title.

use super::text::{
    chars_of, drop_from, drop_while, find, find_from, occurs_at, skip_from, skip_while,
    starts_with_at, trimmed, Trim,
};
use super::wikilinks::{rewrite_wikilinks, rewritten, slugified, slugify};
use vstd::prelude::*;
use vstd::string::*;

verus! {

/// The line that opens front matter, ended by a line feed.
pub open spec fn opening() -> Seq<char> {
    seq!['-', '-', '-', '\n']
}

/// The line that opens front matter, ended by a carriage return and a line feed.
pub open spec fn opening_crlf() -> Seq<char> {
    seq!['-', '-', '-', '\r', '\n']
}

/// What closes front matter: a line feed and three dashes.
pub open spec fn closing() -> Seq<char> {
    seq!['\n', '-', '-', '-']
}

/// A post taken apart, or `None` for a post whose front matter is not
/// closed. A post has front matter where, after white space, it starts with
/// a line of three dashes. The front matter runs from the fourth character
/// after the start of that line to the first line feed that three dashes
/// follow, without the carriage returns at its ends; the body is what comes
/// after those dashes. A post without front matter is all body.
pub open spec fn front_matter(md: Seq<char>) -> Option<(Option<Seq<char>>, Seq<char>)> {
    let start = skip_while(md, Trim::Whitespace, 0, md.len() as int);
    if !occurs_at(md, opening(), start) && !occurs_at(md, opening_crlf(), start) {
        Some((None, md))
    } else {
        match find(md, closing(), start + 4) {
            Some(end) => Some(
                (Some(trimmed(md, Trim::Char('\r'), start + 4, end)), md.skip(end + 4)),
            ),
            None => None,
        }
    }
}

/// The text of an optional string.
pub open spec fn text(s: Option<&str>) -> Option<Seq<char>> {
    match s {
        Some(s) => Some(s@),
        None => None,
    }
}

/// Splits a post into its front matter, if it has any, and its body.
pub fn split_front_matter(md: &str) -> (split: Result<(Option<&str>, &str), String>)
    ensures
        match split {
            Ok((matter, body)) => front_matter(md@) == Some((text(matter), body@)),
            Err(message) => front_matter(md@).is_none() && message@
                == "Unclosed front matter '---'"@,
        },
{
    let chars = chars_of(md);
    let len = chars.len();
    let start = skip_from(chars.as_slice(), Trim::Whitespace, 0, len);
    let dashes = vec!['-', '-', '-', '\n'];
    let dashes_crlf = vec!['-', '-', '-', '\r', '\n'];
    let close = vec!['\n', '-', '-', '-'];
    assert(dashes@ =~= opening());
    assert(dashes_crlf@ =~= opening_crlf());
    assert(close@ =~= closing());
    if !starts_with_at(chars.as_slice(), start, dashes.as_slice()) && !starts_with_at(
        chars.as_slice(),
        start,
        dashes_crlf.as_slice(),
    ) {
        // No front matter, just return the markdown
        return Ok((None, md));
    }
    // Find closing tag
    let rest = start + 4;
    match find_from(chars.as_slice(), close.as_slice(), rest) {
        Some(end) => {
            let from = skip_from(chars.as_slice(), Trim::Char('\r'), rest, end);
            let to = drop_from(chars.as_slice(), Trim::Char('\r'), from, end);
            let matter = md.substring_char(from, to);
            let after = md.substring_char(end + 4, len);
            assert(after@ =~= md@.skip(end + 4));
            Ok((Some(matter), after))
        },
        None => Err(String::from_str("Unclosed front matter '---'")),
    }
}

/// The stem of a file name as `std::path::Path::file_stem` has it, by the
/// path syntax of the platform: the last component without its extension,
/// and `None` for a path without a last component.
pub uninterp spec fn file_stem(filename: Seq<char>) -> Option<Seq<char>>;

/// Asks `std::path::Path::file_stem`.
#[verifier::external_body]
fn path_file_stem(filename: &str) -> (stem: Option<String>)
    ensures
        match stem {
            Some(stem) => file_stem(filename@) == Some(stem@),
            None => file_stem(filename@).is_none(),
        },
{
    std::path::Path::new(filename).file_stem().and_then(|stem| stem.to_str()).map(
        |stem| stem.to_owned(),
    )
}

/// Where the text of a heading starts: after every `# ` at the start of
/// `s.subrange(from, to)`.
pub open spec fn skip_headings(s: Seq<char>, from: int, to: int) -> int
    decreases to - from,
{
    if 0 <= from && from + 2 <= to <= s.len() && s[from] == '#' && s[from + 1] == ' ' {
        skip_headings(s, from + 2, to)
    } else {
        from
    }
}

/// The title that stands for a file name: its stem, or the name itself where
/// it has no stem.
pub open spec fn named(filename: Seq<char>) -> Seq<char> {
    match file_stem(filename) {
        Some(stem) => stem,
        None => filename,
    }
}

/// The title of a post, decided by its first line that is not blank: a
/// heading gives the title, without the `# ` before it and the white space
/// around it; any other line leaves it to the file name. A post of blank
/// lines has no title. Line feeds are white space, so the first line that is
/// not blank starts at the first character that is not white space, and ends
/// before the next line feed.
pub open spec fn title(md: Seq<char>, filename: Seq<char>) -> Option<Seq<char>> {
    let start = skip_while(md, Trim::Whitespace, 0, md.len() as int);
    if start >= md.len() {
        None
    } else {
        let line_end = match find(md, seq!['\n'], start) {
            Some(at) => at,
            None => md.len() as int,
        };
        let end = drop_while(md, Trim::Whitespace, start, line_end);
        if start + 2 <= end && md[start] == '#' && md[start + 1] == ' ' {
            Some(trimmed(md, Trim::Whitespace, skip_headings(md, start, end), end))
        } else {
            Some(named(filename))
        }
    }
}

/// Infers the title of a post: first ATX header or filename.
pub fn infer_title(md: &str, filename: &str) -> (inferred: Option<String>)
    ensures
        match inferred {
            Some(inferred) => title(md@, filename@) == Some(inferred@),
            None => title(md@, filename@).is_none(),
        },
{
    let chars = chars_of(md);
    let len = chars.len();
    let start = skip_from(chars.as_slice(), Trim::Whitespace, 0, len);
    if start >= len {
        return None;
    }
    let line_feed = vec!['\n'];
    assert(line_feed@ =~= seq!['\n']);
    let line_end = match find_from(chars.as_slice(), line_feed.as_slice(), start) {
        Some(at) => at,
        None => len,
    };
    let end = drop_from(chars.as_slice(), Trim::Whitespace, start, line_end);
    if end >= 2 && start <= end - 2 && chars[start] == '#' && chars[start + 1] == ' ' {
        let mut text = start;
        while text <= end - 2 && chars[text] == '#' && chars[text + 1] == ' '
            invariant
                start <= text <= end <= len,
                end >= 2,
                len == chars.len(),
                skip_headings(chars@, start as int, end as int) == skip_headings(
                    chars@,
                    text as int,
                    end as int,
                ),
            decreases end - text,
        {
            text += 2;
        }
        let from = skip_from(chars.as_slice(), Trim::Whitespace, text, end);
        let to = drop_from(chars.as_slice(), Trim::Whitespace, from, end);
        return Some(md.substring_char(from, to).to_owned());
    }
    // Trim extension from filename
    match path_file_stem(filename) {
        Some(stem) => Some(stem),
        None => Some(filename.to_owned()),
    }
}

/// How Markdown is rendered.
#[derive(Clone, Copy, Debug, PartialEq, Eq, Structural)]
pub struct MarkdownOptions {
    pub strikethrough: bool,
    pub table: bool,
    pub autolink: bool,
    pub tasklist: bool,
    pub footnotes: bool,
    pub smart: bool,
    pub hardbreaks: bool,
}

/// The HTML that `comrak::markdown_to_html` renders Markdown to, under
/// comrak's default options with the given ones set.
pub uninterp spec fn rendered(md: Seq<char>, options: MarkdownOptions) -> Seq<char>;

/// Renders with `comrak::markdown_to_html`.
#[verifier::external_body]
fn comrak_html(md: &str, options: MarkdownOptions) -> (html: String)
    ensures
        html@ == rendered(md@, options),
{
    let mut comrak = comrak::Options::default();
    comrak.extension.strikethrough = options.strikethrough;
    comrak.extension.table = options.table;
    comrak.extension.autolink = options.autolink;
    comrak.extension.tasklist = options.tasklist;
    comrak.extension.footnotes = options.footnotes;
    comrak.parse.smart = options.smart;
    comrak.render.hardbreaks = options.hardbreaks;
    comrak::markdown_to_html(md, &comrak)
}

/// The HTML that `ammonia::Builder::clean` leaves of a fragment, under
/// ammonia's default settings and the given `rel` attribute for links.
pub uninterp spec fn cleaned(html: Seq<char>, link_rel: Option<Seq<char>>) -> Seq<char>;

/// Cleans with `ammonia::Builder::default().link_rel(..).clean(..)`.
#[verifier::external_body]
fn ammonia_clean(html: &str, link_rel: Option<&str>) -> (clean: String)
    ensures
        clean@ == cleaned(html@, text(link_rel)),
{
    ammonia::Builder::default().link_rel(link_rel).clean(html).to_string()
}

/// How posts are rendered: with strikethrough, tables, autolinks, task lists
/// and footnotes, with smart punctuation, and without hard line breaks.
pub open spec fn post_options() -> MarkdownOptions {
    MarkdownOptions {
        strikethrough: true,
        table: true,
        autolink: true,
        tasklist: true,
        footnotes: true,
        smart: true,
        hardbreaks: false,
    }
}

/// Renders the Markdown of a post to HTML.
pub fn md_to_html(s: &str) -> (html: String)
    ensures
        html@ == rendered(s@, post_options()),
{
    let options = MarkdownOptions {
        strikethrough: true,
        table: true,
        autolink: true,
        tasklist: true,
        footnotes: true,
        smart: true,
        hardbreaks: false,
    };
    comrak_html(s, options)
}

/// Cleans HTML of everything that a post may not hold. Links get no `rel`
/// attribute.
pub fn sanitize(html: &str) -> (clean: String)
    ensures
        clean@ == cleaned(html@, None),
{
    ammonia_clean(html, None)
}

/// A moment with its nanoseconds, as a publication date carries it.
#[derive(Clone, Copy, Debug, PartialEq, Eq, Structural)]
pub struct Timestamp {
    pub seconds: i64,
    pub nanoseconds: u32,
}

/// What the front matter of a post says.
#[derive(Clone, Debug, PartialEq, Eq)]
pub struct FrontMatter {
    pub title: Option<String>,
    pub category: Option<String>,
    pub publish_date: Option<Timestamp>,
}

/// A post as it is stored.
#[derive(Clone, Debug, PartialEq, Eq)]
pub struct Post {
    pub slug: String,
    pub title: String,
    pub body: String,
    pub published: bool,
    pub queued: bool,
    pub category: Option<String>,
    pub publish_date: Option<Timestamp>,
}

/// The name that an upload without a file name goes by.
pub open spec fn unnamed() -> Seq<char> {
    "untitled.md"@
}

/// The title of an uploaded post: the one that its front matter gives, else
/// the one inferred from its body, with the wiki links rewritten, and its
/// file name.
pub open spec fn post_title(meta: FrontMatter, body: Seq<char>, filename: Option<&str>) -> Option<
    Seq<char>,
> {
    match meta.title {
        Some(given) => Some(given@),
        None => title(
            rewritten(body),
            match filename {
                Some(filename) => filename@,
                None => unnamed(),
            },
        ),
    }
}

/// The HTML that is stored for the body of a post: its wiki links rewritten,
/// the Markdown rendered, the HTML cleaned.
pub open spec fn post_body(body: Seq<char>) -> Seq<char> {
    cleaned(rendered(rewritten(body), post_options()), None)
}

/// Prepares an uploaded post for the store, given what its front matter says
/// and the body that follows the front matter. The post is published if
/// that is asked for, and else queued if that is. A post without a title in
/// its front matter, its body or its file name is refused.
pub fn upload(
    meta: FrontMatter,
    body: &str,
    filename: Option<&str>,
    publish: bool,
    queued: bool,
) -> (prepared: Result<Post, String>)
    ensures
        match prepared {
            Ok(post) => {
                &&& post_title(meta, body@, filename) == Some(post.title@)
                &&& post.slug@ == slugified(post.title@)
                &&& post.body@ == post_body(body@)
                &&& post.published == publish
                &&& post.queued == (!publish && queued)
                &&& post.category == meta.category
                &&& post.publish_date == meta.publish_date
            },
            Err(message) => post_title(meta, body@, filename).is_none() && message@
                == "could not infer title"@,
        },
{
    // Resolve wiki links
    let body = rewrite_wikilinks(body);
    // Make sure we have a title
    let title = match meta.title {
        Some(title) => title,
        None => {
            let filename = match filename {
                Some(filename) => filename,
                None => "untitled.md",
            };
            match infer_title(body.as_str(), filename) {
                Some(title) => title,
                None => {
                    return Err(String::from_str("could not infer title"));
                },
            }
        },
    };
    // Markdown -> HTML, then sanitize
    let html = md_to_html(body.as_str());
    let html = sanitize(html.as_str());
    // Generate the slug
    let slug = slugify(title.as_str());
    Ok(
        Post {
            slug,
            title,
            body: html,
            published: publish,
            queued: !publish && queued,
            category: meta.category,
            publish_date: meta.publish_date,
        },
    )
}

} // verus!
