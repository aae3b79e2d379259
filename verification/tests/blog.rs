use backend::blog::text::{chars_of, drop_from, find_from, skip_from, starts_with_at, Trim};
use backend::blog::upload::{infer_title, split_front_matter};
use std::path::Path;

fn split_by_std(md: &str) -> Result<(Option<&str>, &str), String> {
    let trimmed = md.trim_start();
    if !trimmed.starts_with("---\n") && !trimmed.starts_with("---\r\n") {
        return Ok((None, md));
    }
    let rest = &trimmed[4..];
    if let Some(end) = rest.find("\n---") {
        let fm = &rest[..end];
        let after = &rest[end + 4..];
        Ok((Some(fm.trim_matches('\r')), after))
    } else {
        Err("Unclosed front matter '---'".into())
    }
}

fn title_by_std(md: &str, filename: &str) -> Option<String> {
    for line in md.lines() {
        let line = line.trim();
        if line.starts_with("# ") {
            return Some(line.trim_start_matches("# ").trim().to_string());
        }
        if !line.is_empty() {
            let filename =
                Path::new(filename).file_stem().and_then(|s| s.to_str()).unwrap_or(filename);
            return Some(filename.into());
        }
    }
    None
}

const POSTS: [&str; 40] = [
    "",
    "no front matter",
    "---\ntitle: x\n---\nbody",
    "---\r\ntitle: x\r\n---\r\nbody",
    "  \n---\na\n---",
    "---\nunclosed",
    "---",
    "---\n",
    "---\n---",
    "---\n\n---\n",
    "---\r\n---",
    "---\r\n\n---tail",
    "\u{a0}---\nx\n---y",
    "\u{3000}\t---\r\nx: 1\r\n---\r\n# T",
    "----\nx\n---",
    "---\n\r\rx\r\r\n---rest",
    "---\n\r\r\r\n---rest",
    "---x\n---",
    "---\ntítulo: ñ\n---\ncuerpo ✓",
    "---\na\n---\n---\nb\n---",
    "--- \na\n---",
    "text\n---\na\n---",
    "# Title\nbody",
    "\n\n  # Hello World  \nmore",
    "body text",
    "   \n\t\n",
    "# # Nested",
    "# # # ",
    "#Title",
    "# \nnext",
    "\r\n# T\r\n",
    "##  x",
    "#  spaced   out  ",
    "# Ünïcödé ✓ title\n",
    "\u{a0}# nbsp\u{a0}",
    "first\n# later",
    "#",
    "# ",
    "\n",
    "#\u{a0}x",
];

const NAMES: [&str; 12] = [
    "notes.md",
    "untitled.md",
    "dir/post.tar.gz",
    ".hidden",
    "",
    "..",
    "plain",
    "a/b/",
    "trailing.",
    "/",
    "ünï.cödé.md",
    "a.b/c",
];

#[test]
fn split_front_matter_agrees_with_the_standard_library() {
    for md in POSTS {
        assert_eq!(split_front_matter(md), split_by_std(md), "post {:?}", md);
    }
}

#[test]
fn infer_title_agrees_with_the_standard_library() {
    for md in POSTS {
        for filename in NAMES {
            assert_eq!(
                infer_title(md, filename),
                title_by_std(md, filename),
                "post {:?}, file {:?}",
                md,
                filename
            );
        }
    }
}

#[test]
fn post_without_front_matter_is_all_body() {
    assert_eq!(split_front_matter("hello\nworld"), Ok((None, "hello\nworld")));
    assert_eq!(split_front_matter("  hello"), Ok((None, "  hello")));
    assert_eq!(split_front_matter(""), Ok((None, "")));
    assert_eq!(split_front_matter("--\nx\n---"), Ok((None, "--\nx\n---")));
}

#[test]
fn front_matter_is_cut_out() {
    assert_eq!(
        split_front_matter("---\ntitle: x\n---\nbody"),
        Ok((Some("title: x"), "\nbody"))
    );
    assert_eq!(
        split_front_matter("\n\n---\ntitle: x\ncategory: y\n---body"),
        Ok((Some("title: x\ncategory: y"), "body"))
    );
    assert_eq!(split_front_matter("---\n\n---"), Ok((Some(""), "")));
}

#[test]
fn carriage_returns_around_front_matter_are_dropped() {
    assert_eq!(
        split_front_matter("---\r\ntitle: x\r\n---\r\nbody"),
        Ok((Some("\ntitle: x"), "\r\nbody"))
    );
    assert_eq!(split_front_matter("---\n\r\rx\r\r\n---rest"), Ok((Some("x"), "rest")));
}

#[test]
fn unclosed_front_matter_is_an_error() {
    assert_eq!(split_front_matter("---\ntitle: x"), Err("Unclosed front matter '---'".to_owned()));
    assert_eq!(split_front_matter("---\n"), Err("Unclosed front matter '---'".to_owned()));
    assert_eq!(split_front_matter(" ---\n--"), Err("Unclosed front matter '---'".to_owned()));
}

#[test]
fn heading_gives_the_title() {
    assert_eq!(infer_title("# Title\nbody", "notes.md"), Some("Title".to_owned()));
    assert_eq!(infer_title("\n\n  # Hello World  \nmore", "notes.md"), Some("Hello World".to_owned()));
    assert_eq!(infer_title("# # Nested", "notes.md"), Some("Nested".to_owned()));
    assert_eq!(infer_title("#   wide", "notes.md"), Some("wide".to_owned()));
}

#[test]
fn other_first_line_gives_the_file_stem() {
    assert_eq!(infer_title("body text", "notes.md"), Some("notes".to_owned()));
    assert_eq!(infer_title("#Title", "untitled.md"), Some("untitled".to_owned()));
    assert_eq!(infer_title("first\n# later", "dir/post.tar.gz"), Some("post.tar".to_owned()));
    assert_eq!(infer_title("x", ".hidden"), Some(".hidden".to_owned()));
    assert_eq!(infer_title("x", "plain"), Some("plain".to_owned()));
    assert_eq!(infer_title("x", ".."), Some("..".to_owned()));
    assert_eq!(infer_title("x", ""), Some(String::new()));
}

#[test]
fn blank_post_has_no_title() {
    assert_eq!(infer_title("", "notes.md"), None);
    assert_eq!(infer_title("   \n\t\n", "notes.md"), None);
    assert_eq!(infer_title("\u{a0}\u{2003}\r\n", "notes.md"), None);
}

#[test]
fn chars_of_lists_the_characters() {
    assert_eq!(chars_of(""), Vec::<char>::new());
    assert_eq!(chars_of("aé✓"), vec!['a', 'é', '✓']);
}

#[test]
fn skipping_and_dropping() {
    let s = chars_of("  \u{a0}ab \t");
    assert_eq!(skip_from(&s, Trim::Whitespace, 0, s.len()), 3);
    assert_eq!(skip_from(&s, Trim::Whitespace, 0, 2), 2);
    assert_eq!(skip_from(&s, Trim::Whitespace, 3, s.len()), 3);
    assert_eq!(skip_from(&s, Trim::Char(' '), 0, s.len()), 2);
    assert_eq!(drop_from(&s, Trim::Whitespace, 0, s.len()), 5);
    assert_eq!(drop_from(&s, Trim::Whitespace, 5, s.len()), 5);
    assert_eq!(drop_from(&s, Trim::Char('\t'), 0, s.len()), 6);
    assert_eq!(drop_from(&s, Trim::Whitespace, 0, 3), 0);
    assert!(Trim::Whitespace.matches('\n'));
    assert!(Trim::Whitespace.matches(' '));
    assert!(!Trim::Whitespace.matches('x'));
    assert!(Trim::Char('x').matches('x'));
    assert!(!Trim::Char('x').matches('y'));
}

#[test]
fn finding() {
    let s = chars_of("abcabc");
    let bc = chars_of("bc");
    assert_eq!(find_from(&s, &bc, 0), Some(1));
    assert_eq!(find_from(&s, &bc, 1), Some(1));
    assert_eq!(find_from(&s, &bc, 2), Some(4));
    assert_eq!(find_from(&s, &bc, 5), None);
    assert_eq!(find_from(&s, &bc, 100), None);
    assert_eq!(find_from(&s, &[], 3), Some(3));
    assert_eq!(find_from(&s, &[], 6), Some(6));
    assert_eq!(find_from(&s, &[], 7), None);
    assert_eq!(find_from(&s, &chars_of("abcabcd"), 0), None);
    assert!(starts_with_at(&s, 3, &chars_of("abc")));
    assert!(!starts_with_at(&s, 4, &chars_of("abc")));
    assert!(starts_with_at(&s, 6, &[]));
    assert!(!starts_with_at(&s, 7, &[]));
}

#[test]
fn white_space_is_what_the_standard_library_says() {
    for code in 0..=0x10FFFFu32 {
        if let Some(c) = char::from_u32(code) {
            let listed = matches!(
                code,
                0x0009..=0x000D
                    | 0x0020
                    | 0x0085
                    | 0x00A0
                    | 0x1680
                    | 0x2000..=0x200A
                    | 0x2028
                    | 0x2029
                    | 0x202F
                    | 0x205F
                    | 0x3000
            );
            assert_eq!(c.is_whitespace(), listed, "U+{:04X}", code);
            assert_eq!(Trim::Whitespace.matches(c), listed, "U+{:04X}", code);
        }
    }
}
