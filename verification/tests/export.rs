use std::collections::HashSet;

use relatum::export::coverage::{face_charset, is_covered, sanitize, scalar_codepoints, GlyphCoverage};
use relatum::export::markdown::{
    blocks_from_events, heading_num, to_blocks, Block, HeadingRank, MdEvent, MdTag,
};
use relatum::export::style::Style;
use relatum::export::text::{force_bold, force_italic, split_words, Run};

/// The printable ASCII range plus the German letters, typographic punctuation,
/// arrows and math operators the report faces draw.
fn face() -> HashSet<u32> {
    let mut chars: HashSet<u32> = (0x20u32..0x7f).collect();
    chars.extend("äöüÄÖÜß„“”‚‘’–—…•→←↑↓≤≥≠±×÷".chars().map(u32::from));
    chars
}

fn coverage() -> GlyphCoverage {
    GlyphCoverage {
        regular: face(),
        bold: face(),
        italic: face(),
        bold_italic: face(),
        mono: face(),
    }
}

#[test]
fn sanitize_keeps_covered_replaces_uncovered() {
    let cov = coverage();
    assert_eq!(sanitize(&cov, Style::Regular, "a→b"), "a→b");
    assert_eq!(sanitize(&cov, Style::Regular, "x ≤ y ≥ z"), "x ≤ y ≥ z");
    assert_eq!(sanitize(&cov, Style::Regular, "emoji 🚀 here"), "emoji ? here");
    assert_eq!(sanitize(&cov, Style::Regular, "Maß „ja“ — •"), "Maß „ja“ — •");
}

#[test]
fn sanitize_expands_tabs_and_blanks_control_characters() {
    let cov = coverage();
    assert_eq!(sanitize(&cov, Style::Mono, "a\tb"), "a    b");
    assert_eq!(sanitize(&cov, Style::Mono, "a\u{7}b\u{85}c"), "a b c");
    assert_eq!(sanitize(&cov, Style::Mono, "line\r\nnext"), "line\r\nnext");
    assert_eq!(sanitize(&cov, Style::Mono, ""), "");
}

#[test]
fn sanitize_consults_the_face_of_the_style() {
    let mut cov = coverage();
    cov.bold = HashSet::from([u32::from('a')]);
    assert_eq!(sanitize(&cov, Style::Bold, "ab"), "a?");
    assert_eq!(sanitize(&cov, Style::Regular, "ab"), "ab");
    assert!(is_covered(&cov, Style::Bold, 'a'));
    assert!(!is_covered(&cov, Style::Bold, 'b'));
}

#[test]
fn code_points_outside_unicode_are_skipped() {
    let chars = scalar_codepoints(&vec![0x41, 0xD800, 0x1F680, 0x110000, 0x42, 0x41]);
    assert_eq!(chars, HashSet::from([0x41, 0x1F680, 0x42]));
}

#[test]
fn bytes_that_are_not_a_font_cover_nothing() {
    assert!(face_charset(b"not a font").is_empty());
    let cov = GlyphCoverage::from_fonts(b"", b"", b"", b"", b"");
    assert_eq!(sanitize(&cov, Style::Regular, "a\tb\n"), "?    ?\n");
}

#[test]
fn emphasis_flags_pick_the_face() {
    assert_eq!(Style::from_emphasis(false, false), Style::Regular);
    assert_eq!(Style::from_emphasis(true, false), Style::Bold);
    assert_eq!(Style::from_emphasis(false, true), Style::Italic);
    assert_eq!(Style::from_emphasis(true, true), Style::BoldItalic);
    assert_eq!(Style::Mono.index(), 4);
}

fn texts(runs: &[Run]) -> Vec<(Style, String)> {
    runs.iter().map(|r| (r.style, r.text.clone())).collect()
}

#[test]
fn words_split_on_ascii_whitespace_and_keep_faces() {
    let spans = vec![
        Run::new(Style::Regular, "hello wor"),
        Run::new(Style::Bold, "ld  again"),
        Run::new(Style::Bold, "st\u{a0}it"),
    ];
    let words = split_words(&spans);
    let words: Vec<Vec<(Style, String)>> = words.iter().map(|w| texts(w)).collect();
    assert_eq!(
        words,
        vec![
            vec![(Style::Regular, "hello".to_string())],
            vec![(Style::Regular, "wor".to_string()), (Style::Bold, "ld".to_string())],
            vec![(Style::Bold, "against\u{a0}it".to_string())],
        ]
    );
    assert!(split_words(&[Run::new(Style::Regular, " \t\n\r\u{c} ")]).is_empty());
    let vertical_tab = split_words(&[Run::new(Style::Regular, "a\u{b}b c")]);
    assert_eq!(vertical_tab.len(), 2);
    assert_eq!(vertical_tab[0][0].text, "a\u{b}b");
}

#[test]
fn headings_are_bold_and_quotes_italic() {
    let spans = vec![
        Run::new(Style::Regular, "a"),
        Run::new(Style::Italic, "b"),
        Run::new(Style::Mono, "c"),
        Run::new(Style::Bold, "d"),
    ];
    assert_eq!(
        texts(&force_bold(&spans)).iter().map(|t| t.0).collect::<Vec<_>>(),
        vec![Style::Bold, Style::BoldItalic, Style::Bold, Style::Bold]
    );
    assert_eq!(
        texts(&force_italic(&spans)).iter().map(|t| t.0).collect::<Vec<_>>(),
        vec![Style::Italic, Style::Italic, Style::Mono, Style::BoldItalic]
    );
    assert_eq!(force_bold(&spans)[2].text, "c");
}

#[test]
fn heading_ranks_number_one_to_six() {
    assert_eq!(heading_num(HeadingRank::H1), 1);
    assert_eq!(heading_num(HeadingRank::H6), 6);
}

#[test]
fn markdown_features_become_blocks() {
    let body = "\
# Title

- one
- two

1. first
2. second

> a quote

```
let x = 1;
let y = 2;
```

| a | b |
|---|---|
| 1 | 2 |

---

Done with an arrow → and emoji 🚀.";
    let blocks = to_blocks(&coverage(), body);
    match &blocks[0] {
        Block::Heading { level, spans } => {
            assert_eq!(*level, 1);
            assert_eq!(texts(spans), vec![(Style::Regular, "Title".to_string())]);
        }
        other => panic!("expected a heading, got {other:?}"),
    }
    let items: Vec<(u8, String)> = blocks
        .iter()
        .filter_map(|b| match b {
            Block::ListItem { depth, marker, .. } => Some((*depth, marker.clone())),
            _ => None,
        })
        .collect();
    assert_eq!(
        items,
        vec![
            (0, "•".to_string()),
            (0, "•".to_string()),
            (0, "1.".to_string()),
            (0, "2.".to_string()),
        ]
    );
    assert!(blocks.iter().any(|b| matches!(b, Block::Quote(s) if s[0].text == "a quote")));
    assert!(blocks.iter().any(|b| matches!(b, Block::Code(lines)
        if lines == &vec!["let x = 1;".to_string(), "let y = 2;".to_string()])));
    assert!(blocks.iter().any(|b| matches!(b, Block::Code(lines) if lines == &vec!["a | b".to_string()])));
    assert!(blocks.iter().any(|b| matches!(b, Block::Code(lines) if lines == &vec!["1 | 2".to_string()])));
    assert!(blocks.iter().any(|b| matches!(b, Block::Rule)));
    match blocks.last().unwrap() {
        Block::Paragraph(spans) => {
            let text: String = spans.iter().map(|r| r.text.as_str()).collect();
            assert_eq!(text, "Done with an arrow → and emoji ?.");
        }
        other => panic!("expected a paragraph, got {other:?}"),
    }
}

#[test]
fn emphasis_switches_the_face() {
    let blocks = to_blocks(&coverage(), "plain **bold *both*** _it_ `code`");
    match &blocks[0] {
        Block::Paragraph(spans) => assert_eq!(
            texts(spans),
            vec![
                (Style::Regular, "plain ".to_string()),
                (Style::Bold, "bold ".to_string()),
                (Style::BoldItalic, "both".to_string()),
                (Style::Regular, " ".to_string()),
                (Style::Italic, "it".to_string()),
                (Style::Regular, " ".to_string()),
                (Style::Mono, "code".to_string()),
            ]
        ),
        other => panic!("expected a paragraph, got {other:?}"),
    }
}

#[test]
fn ordered_lists_count_from_their_start() {
    let blocks = to_blocks(&coverage(), "7. a\n8. b\n9. c");
    let markers: Vec<String> = blocks
        .iter()
        .filter_map(|b| match b {
            Block::ListItem { marker, .. } => Some(marker.clone()),
            _ => None,
        })
        .collect();
    assert_eq!(markers, vec!["7.", "8.", "9."]);
}

#[test]
fn task_lists_render_their_checkboxes() {
    let blocks = to_blocks(&coverage(), "- [x] done\n- [ ] open");
    let spans: Vec<Vec<(Style, String)>> = blocks
        .iter()
        .filter_map(|b| match b {
            Block::ListItem { spans, .. } => Some(texts(spans)),
            _ => None,
        })
        .collect();
    assert_eq!(spans[0][0], (Style::Regular, "[x] ".to_string()));
    assert_eq!(spans[1][0], (Style::Regular, "[ ] ".to_string()));
}

#[test]
fn event_streams_fold_into_blocks() {
    let events = vec![
        MdEvent::StartList(None),
        MdEvent::Start(MdTag::Item),
        MdEvent::Text("outer".to_string()),
        MdEvent::StartList(Some(3)),
        MdEvent::Start(MdTag::Item),
        MdEvent::Text("inner".to_string()),
        MdEvent::End(MdTag::Item),
        MdEvent::End(MdTag::List),
        MdEvent::End(MdTag::Item),
        MdEvent::End(MdTag::List),
        MdEvent::Text("tail".to_string()),
    ];
    let blocks = blocks_from_events(&coverage(), &events);
    assert_eq!(blocks.len(), 3);
    match &blocks[0] {
        Block::ListItem { depth, marker, spans } => {
            assert_eq!(*depth, 1);
            assert_eq!(marker, "3.");
            assert_eq!(texts(spans), vec![(Style::Regular, "inner".to_string())]);
        }
        other => panic!("expected the inner item, got {other:?}"),
    }
    match &blocks[1] {
        Block::ListItem { depth, marker, spans } => {
            assert_eq!(*depth, 0);
            assert_eq!(marker, "•");
            assert!(spans.is_empty());
        }
        other => panic!("expected the outer item, got {other:?}"),
    }
    assert!(matches!(&blocks[2], Block::Paragraph(s) if s[0].text == "tail"));
}

#[test]
fn code_blocks_drop_trailing_newlines_only() {
    let events = vec![
        MdEvent::Start(MdTag::CodeBlock),
        MdEvent::Text("a\n\nb\t\n\n".to_string()),
        MdEvent::End(MdTag::CodeBlock),
        MdEvent::Start(MdTag::CodeBlock),
        MdEvent::End(MdTag::CodeBlock),
    ];
    let blocks = blocks_from_events(&coverage(), &events);
    assert!(matches!(&blocks[0], Block::Code(lines)
        if lines == &vec!["a".to_string(), "".to_string(), "b    ".to_string()]));
    assert!(matches!(&blocks[1], Block::Code(lines) if lines == &vec!["".to_string()]));
}
