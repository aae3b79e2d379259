use backend::blog::wikilinks::rewrite_wikilinks;
use regex::Regex;

fn pattern() -> Regex {
    Regex::new(r"\[\[([^\]\|]+)(?:\|([^\]]+))?\]\]").unwrap()
}

fn rewrite_by_regex(re: &Regex, s: &str) -> String {
    re.replace_all(s, |caps: &regex::Captures| {
        let target = caps.get(1).unwrap().as_str().trim();
        let text = caps.get(2).map(|m| m.as_str()).unwrap_or(target);
        let slug = slug::slugify(target);
        format!("[{text}](/blog/{slug})")
    })
    .into_owned()
}

const TEXTS: [&str; 44] = [
    "",
    "plain text",
    "[[Page]]",
    "[[Page|shown]]",
    "see [[My Page]] and [[Other|that one]].",
    "[[ spaced target ]]",
    "[[ spaced | text ]]",
    "[[a|b|c]]",
    "[[a]b]]",
    "[[a|b]c]]",
    "[[a|]]",
    "[[|b]]",
    "[[]]",
    "[[",
    "[[a",
    "[[a]",
    "[[a|b",
    "[[a|b]",
    "[[[a]]",
    "[[[[a]]]]",
    "[[a]]]",
    "[[a]][[b]]",
    "[[a]] [[b|c]] [[d]]",
    "[[a\nb]]",
    "[[a|b\nc]]",
    "[a]",
    "]]",
    "[[a [[b]]",
    "[[a|[[b]]",
    "[[a|b]] tail ]]",
    "x[[Ünïcödé Pägé]]y",
    "[[日本語|テキスト]]",
    "[[ ]]",
    "[[  |x]]",
    "[[You & Me]]",
    "[[user@example.com|mail]]",
    "[[a|b]][[",
    "[[a]][",
    "[ [a]]",
    "[[a] ]",
    "✓[[✓]]✓",
    "[[--a--]]",
    "[[A B C|]] [[D]]",
    "[[a||b]]",
];

#[test]
fn rewrite_wikilinks_agrees_with_the_pattern() {
    let re = pattern();
    for text in TEXTS {
        assert_eq!(rewrite_wikilinks(text), rewrite_by_regex(&re, text), "text {:?}", text);
    }
}

#[test]
fn rewrite_wikilinks_agrees_with_the_pattern_on_all_short_texts() {
    let re = pattern();
    let alphabet = ['[', ']', '|', 'a', ' '];
    let mut texts = vec![String::new()];
    for _ in 0..6 {
        let mut longer = Vec::new();
        for text in &texts {
            for c in alphabet {
                let mut next = text.clone();
                next.push(c);
                longer.push(next);
            }
        }
        for text in &longer {
            assert_eq!(rewrite_wikilinks(text), rewrite_by_regex(&re, text), "text {:?}", text);
        }
        texts = longer;
    }
}

#[test]
fn link_without_text_shows_its_target() {
    assert_eq!(rewrite_wikilinks("[[My Page]]"), "[My Page](/blog/my-page)");
    assert_eq!(rewrite_wikilinks("[[  My Page ]]"), "[My Page](/blog/my-page)");
}

#[test]
fn link_with_text_shows_its_text() {
    assert_eq!(rewrite_wikilinks("[[My Page|here]]"), "[here](/blog/my-page)");
    assert_eq!(rewrite_wikilinks("[[My Page| here ]]"), "[ here ](/blog/my-page)");
}

#[test]
fn text_around_links_stays() {
    assert_eq!(
        rewrite_wikilinks("see [[A]] and [[B|b]], ok?"),
        "see [A](/blog/a) and [b](/blog/b), ok?"
    );
    assert_eq!(rewrite_wikilinks("no links [here]"), "no links [here]");
    assert_eq!(rewrite_wikilinks("[[broken"), "[[broken");
}

#[test]
fn slug_is_made_by_the_slug_crate() {
    assert_eq!(rewrite_wikilinks("[[Æúű--cool?]]"), "[Æúű--cool?](/blog/aeuu-cool)");
    assert_eq!(rewrite_wikilinks("[[You & Me]]"), "[You & Me](/blog/you-me)");
}
