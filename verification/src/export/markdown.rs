//! Markdown to layout blocks.
//!
//! A pass over the `pulldown-cmark` event stream (with the same extensions the
//! web frontend enables: tables, strikethrough, task lists) that flattens a
//! report body into [`Block`]s. Inline emphasis becomes face switches; lists,
//! code, rules and block quotes are kept; a table degrades to one monospace
//! line per row and images are dropped (report bodies are short prose).
//!
//! [`to_blocks`] makes the parser call; what happens to the events after it is
//! [`blocks_from_events`], whose contract is the fold [`blocks_of`].

use vstd::prelude::*;

use crate::export::coverage::{sanitize, sanitized, GlyphCoverage};
use crate::export::style::{emphasis_style, Style};
use crate::export::text::{runs_view, Run, RunView};
use crate::textual::{decimal, push_decimal};

verus! {

/// `pulldown_cmark::Event`, a parser event.
#[verifier::external_type_specification]
#[verifier::external_body]
pub struct ExMarkdownEvent<'a>(pulldown_cmark::Event<'a>);

/// `pulldown_cmark::TagEnd`, the kind of a closed element.
#[verifier::external_type_specification]
#[verifier::external_body]
pub struct ExTagEnd(pulldown_cmark::TagEnd);

/// `pulldown_cmark::HeadingLevel`.
#[verifier::external_type_specification]
#[verifier::external_body]
pub struct ExHeadingLevel(pulldown_cmark::HeadingLevel);

/// The rank of a heading, `#` to `######`.
#[derive(Clone, Copy, PartialEq, Eq, Debug, Structural)]
pub enum HeadingRank {
    H1,
    H2,
    H3,
    H4,
    H5,
    H6,
}

/// The elements of a markdown document that the layout pass tells apart.
#[derive(Clone, Copy, PartialEq, Eq, Debug, Structural)]
pub enum MdTag {
    Paragraph,
    Heading(HeadingRank),
    BlockQuote,
    CodeBlock,
    List,
    Item,
    Table,
    TableHead,
    TableRow,
    TableCell,
    Emphasis,
    Strong,
    /// Any other element (links, images, strikethrough, HTML, …).
    Other,
}

/// A parser event, as far as the layout pass reads it.
#[derive(Debug)]
pub enum MdEvent {
    /// An element opens (lists excepted).
    Start(MdTag),
    /// A list opens; ordered lists carry their first number.
    StartList(Option<u64>),
    /// An element closes.
    End(MdTag),
    Text(String),
    /// Inline code.
    Code(String),
    SoftBreak,
    HardBreak,
    Rule,
    /// A task-list checkbox, checked or not.
    TaskListMarker(bool),
    /// Any other event (HTML, math, footnote references, …).
    Other,
}

/// A parser event as a value.
pub enum MdEventView {
    Start(MdTag),
    StartList(Option<u64>),
    End(MdTag),
    Text(Seq<char>),
    Code(Seq<char>),
    SoftBreak,
    HardBreak,
    Rule,
    TaskListMarker(bool),
    Other,
}

impl View for MdEvent {
    type V = MdEventView;

    open spec fn view(&self) -> MdEventView {
        match self {
            MdEvent::Start(t) => MdEventView::Start(*t),
            MdEvent::StartList(s) => MdEventView::StartList(*s),
            MdEvent::End(t) => MdEventView::End(*t),
            MdEvent::Text(s) => MdEventView::Text(s@),
            MdEvent::Code(s) => MdEventView::Code(s@),
            MdEvent::SoftBreak => MdEventView::SoftBreak,
            MdEvent::HardBreak => MdEventView::HardBreak,
            MdEvent::Rule => MdEventView::Rule,
            MdEvent::TaskListMarker(b) => MdEventView::TaskListMarker(*b),
            MdEvent::Other => MdEventView::Other,
        }
    }
}

/// The values of a list of events.
pub open spec fn events_view(events: Seq<MdEvent>) -> Seq<MdEventView> {
    events.map_values(|e: MdEvent| e@)
}

/// The events `pulldown-cmark` reports for `markdown` with tables,
/// strikethrough and task lists enabled.
pub uninterp spec fn markdown_events(markdown: Seq<char>) -> Seq<MdEventView>;

/// Parse `markdown` into its event stream.
///
/// Runs `pulldown_cmark::Parser::new_ext` with `ENABLE_TABLES`,
/// `ENABLE_STRIKETHROUGH` and `ENABLE_TASKLISTS` and converts every event with
/// [`md_event`]. The contract names the result; the grammar is the parser's.
#[verifier::external_body]
fn parse_markdown(markdown: &str) -> (events: Vec<MdEvent>)
    ensures
        events_view(events@) == markdown_events(markdown@),
{
    let options = pulldown_cmark::Options::ENABLE_TABLES
        | pulldown_cmark::Options::ENABLE_STRIKETHROUGH
        | pulldown_cmark::Options::ENABLE_TASKLISTS;
    pulldown_cmark::Parser::new_ext(markdown, options).map(md_event).collect()
}

/// Convert one `pulldown_cmark::Event`, variant for variant, keeping the text of
/// text and inline-code events; used by [`parse_markdown`].
#[verifier::external_body]
fn md_event(event: pulldown_cmark::Event<'_>) -> MdEvent {
    match event {
        pulldown_cmark::Event::Start(pulldown_cmark::Tag::List(start)) => MdEvent::StartList(start),
        pulldown_cmark::Event::Start(tag) => MdEvent::Start(md_tag(tag.to_end())),
        pulldown_cmark::Event::End(end) => MdEvent::End(md_tag(end)),
        pulldown_cmark::Event::Text(text) => MdEvent::Text(text.to_string()),
        pulldown_cmark::Event::Code(text) => MdEvent::Code(text.to_string()),
        pulldown_cmark::Event::SoftBreak => MdEvent::SoftBreak,
        pulldown_cmark::Event::HardBreak => MdEvent::HardBreak,
        pulldown_cmark::Event::Rule => MdEvent::Rule,
        pulldown_cmark::Event::TaskListMarker(done) => MdEvent::TaskListMarker(done),
        _ => MdEvent::Other,
    }
}

/// Convert one `pulldown_cmark::TagEnd`, variant for variant; used by
/// [`md_event`].
#[verifier::external_body]
fn md_tag(end: pulldown_cmark::TagEnd) -> MdTag {
    match end {
        pulldown_cmark::TagEnd::Paragraph => MdTag::Paragraph,
        pulldown_cmark::TagEnd::Heading(level) => MdTag::Heading(md_rank(level)),
        pulldown_cmark::TagEnd::BlockQuote(_) => MdTag::BlockQuote,
        pulldown_cmark::TagEnd::CodeBlock => MdTag::CodeBlock,
        pulldown_cmark::TagEnd::List(_) => MdTag::List,
        pulldown_cmark::TagEnd::Item => MdTag::Item,
        pulldown_cmark::TagEnd::Table => MdTag::Table,
        pulldown_cmark::TagEnd::TableHead => MdTag::TableHead,
        pulldown_cmark::TagEnd::TableRow => MdTag::TableRow,
        pulldown_cmark::TagEnd::TableCell => MdTag::TableCell,
        pulldown_cmark::TagEnd::Emphasis => MdTag::Emphasis,
        pulldown_cmark::TagEnd::Strong => MdTag::Strong,
        _ => MdTag::Other,
    }
}

/// Convert a `pulldown_cmark::HeadingLevel`, variant for variant; used by
/// [`md_tag`].
#[verifier::external_body]
fn md_rank(level: pulldown_cmark::HeadingLevel) -> HeadingRank {
    match level {
        pulldown_cmark::HeadingLevel::H1 => HeadingRank::H1,
        pulldown_cmark::HeadingLevel::H2 => HeadingRank::H2,
        pulldown_cmark::HeadingLevel::H3 => HeadingRank::H3,
        pulldown_cmark::HeadingLevel::H4 => HeadingRank::H4,
        pulldown_cmark::HeadingLevel::H5 => HeadingRank::H5,
        pulldown_cmark::HeadingLevel::H6 => HeadingRank::H6,
    }
}

/// The number of a heading rank, 1 to 6.
pub open spec fn rank_number(rank: HeadingRank) -> u8 {
    match rank {
        HeadingRank::H1 => 1,
        HeadingRank::H2 => 2,
        HeadingRank::H3 => 3,
        HeadingRank::H4 => 4,
        HeadingRank::H5 => 5,
        HeadingRank::H6 => 6,
    }
}

/// The number of a heading rank.
pub fn heading_num(rank: HeadingRank) -> (r: u8)
    ensures
        r == rank_number(rank),
        1 <= r <= 6,
{
    match rank {
        HeadingRank::H1 => 1,
        HeadingRank::H2 => 2,
        HeadingRank::H3 => 3,
        HeadingRank::H4 => 4,
        HeadingRank::H5 => 5,
        HeadingRank::H6 => 6,
    }
}

/// A laid-out block of content.
#[derive(Debug)]
pub enum Block {
    Heading { level: u8, spans: Vec<Run> },
    Paragraph(Vec<Run>),
    /// A list item: `depth` is its nesting level (0 at the top), `marker` the
    /// bullet or number prefix, `spans` the item's inline content.
    ListItem { depth: u8, marker: String, spans: Vec<Run> },
    /// A fenced or indented code block, one entry per source line.
    Code(Vec<String>),
    /// A block-quote paragraph.
    Quote(Vec<Run>),
    Rule,
}

/// A block as a value.
pub enum BlockView {
    Heading { level: u8, spans: Seq<RunView> },
    Paragraph(Seq<RunView>),
    ListItem { depth: u8, marker: Seq<char>, spans: Seq<RunView> },
    Code(Seq<Seq<char>>),
    Quote(Seq<RunView>),
    Rule,
}

/// The characters of a list of strings.
pub open spec fn strings_view(lines: Seq<String>) -> Seq<Seq<char>> {
    lines.map_values(|s: String| s@)
}

impl View for Block {
    type V = BlockView;

    open spec fn view(&self) -> BlockView {
        match self {
            Block::Heading { level, spans } => BlockView::Heading {
                level: *level,
                spans: runs_view(spans@),
            },
            Block::Paragraph(spans) => BlockView::Paragraph(runs_view(spans@)),
            Block::ListItem { depth, marker, spans } => BlockView::ListItem {
                depth: *depth,
                marker: marker@,
                spans: runs_view(spans@),
            },
            Block::Code(lines) => BlockView::Code(strings_view(lines@)),
            Block::Quote(spans) => BlockView::Quote(runs_view(spans@)),
            Block::Rule => BlockView::Rule,
        }
    }
}

/// The values of a list of blocks.
pub open spec fn blocks_view(blocks: Seq<Block>) -> Seq<BlockView> {
    blocks.map_values(|b: Block| b@)
}

/// An open list: whether it is numbered, and the number of its next item.
#[derive(Clone, Copy, PartialEq, Eq, Debug, Structural)]
pub struct ListLevel {
    pub ordered: bool,
    pub next: u64,
}

/// What the element being read will need when it closes: a heading's level,
/// or a list item's depth and marker.
pub enum Pending {
    Nothing,
    Heading(u8),
    Item(u8, Seq<char>),
}

/// The state of the layout pass between two events.
#[verifier::ext_equal]
pub struct MdFold {
    /// The finished blocks.
    pub blocks: Seq<BlockView>,
    /// The inline content read since the current block began.
    pub spans: Seq<RunView>,
    /// How many strong and emphasis elements are open.
    pub bold: u32,
    pub italic: u32,
    /// The open lists, outermost first.
    pub lists: Seq<ListLevel>,
    pub in_quote: bool,
    pub pending: Pending,
    pub in_code: bool,
    /// The text of the code block being read.
    pub code: Seq<char>,
    pub in_table: bool,
    /// The text of the table row being read.
    pub row: Seq<char>,
    /// Whether the current row already has a cell.
    pub cell_started: bool,
}

/// The state before the first event.
pub open spec fn fold_start() -> MdFold {
    MdFold {
        blocks: Seq::empty(),
        spans: Seq::empty(),
        bold: 0,
        italic: 0,
        lists: Seq::empty(),
        in_quote: false,
        pending: Pending::Nothing,
        in_code: false,
        code: Seq::empty(),
        in_table: false,
        row: Seq::empty(),
        cell_started: false,
    }
}

/// `x + 1`, wrapping to 0 past the largest `u32`.
pub open spec fn bump32(x: u32) -> u32 {
    if x == u32::MAX {
        0
    } else {
        (x + 1) as u32
    }
}

/// `x - 1`, stopping at 0.
pub open spec fn drop32(x: u32) -> u32 {
    if x == 0 {
        0
    } else {
        (x - 1) as u32
    }
}

/// `x + 1`, wrapping to 0 past the largest `u64`.
pub open spec fn bump64(x: u64) -> u64 {
    if x == u64::MAX {
        0
    } else {
        (x + 1) as u64
    }
}

/// The bullet of an unordered list item.
pub open spec fn bullet() -> Seq<char> {
    seq!['\u{2022}']
}

/// The nesting depth of an item with `open` lists around it, as a byte.
pub open spec fn item_depth(open: nat) -> u8 {
    if open == 0 {
        0
    } else {
        ((open - 1) % 256) as u8
    }
}

/// The level a closing heading gets from what its opening left pending.
pub open spec fn pending_level(p: Pending) -> u8 {
    match p {
        Pending::Heading(n) => n,
        _ => 1,
    }
}

/// The depth and marker a closing item gets from what its opening left pending.
pub open spec fn pending_item(p: Pending) -> (u8, Seq<char>) {
    match p {
        Pending::Item(d, m) => (d, m),
        _ => (0, bullet()),
    }
}

/// The face text is set in while `st`'s emphasis elements are open.
pub open spec fn text_style(st: MdFold) -> Style {
    emphasis_style(st.bold > 0, st.italic > 0)
}

/// `s` without its trailing line breaks.
pub open spec fn strip_newlines(s: Seq<char>) -> Seq<char>
    decreases s.len(),
{
    if s.len() > 0 && s.last() == '\n' {
        strip_newlines(s.drop_last())
    } else {
        s
    }
}

/// The pieces of `s` between line breaks; one empty piece for the empty text.
pub open spec fn lines_of(s: Seq<char>) -> Seq<Seq<char>>
    decreases s.len(),
{
    if s.len() == 0 {
        seq![Seq::empty()]
    } else if s.last() == '\n' {
        lines_of(s.drop_last()).push(Seq::empty())
    } else {
        let p = lines_of(s.drop_last());
        p.update(p.len() - 1, p.last().push(s.last()))
    }
}

/// The lines of a code block: its text without trailing line breaks, split at
/// line breaks, each line sanitized for the monospace face.
pub open spec fn code_lines(mono: Set<char>, code: Seq<char>) -> Seq<Seq<char>> {
    lines_of(strip_newlines(code)).map_values(|l: Seq<char>| sanitized(mono, l))
}

/// `st` with `b` appended to the finished blocks.
pub open spec fn with_block(st: MdFold, b: BlockView) -> MdFold {
    MdFold { blocks: st.blocks.push(b), ..st }
}

/// `st` with `r` appended to the inline content.
pub open spec fn with_span(st: MdFold, r: RunView) -> MdFold {
    MdFold { spans: st.spans.push(r), ..st }
}

/// The state after an element opens.
pub open spec fn step_start(cov: GlyphCoverage, st: MdFold, tag: MdTag) -> MdFold {
    match tag {
        MdTag::Heading(rank) => MdFold {
            spans: Seq::empty(),
            pending: Pending::Heading(rank_number(rank)),
            ..st
        },
        MdTag::Item => {
            let depth = item_depth(st.lists.len());
            if st.lists.len() > 0 && st.lists.last().ordered {
                let top = st.lists.last();
                MdFold {
                    spans: Seq::empty(),
                    pending: Pending::Item(depth, decimal(top.next as nat).push('.')),
                    lists: st.lists.update(
                        st.lists.len() - 1,
                        ListLevel { ordered: true, next: bump64(top.next) },
                    ),
                    ..st
                }
            } else {
                MdFold { spans: Seq::empty(), pending: Pending::Item(depth, bullet()), ..st }
            }
        },
        MdTag::BlockQuote => MdFold { in_quote: true, ..st },
        MdTag::CodeBlock => MdFold { in_code: true, code: Seq::empty(), ..st },
        MdTag::Emphasis => MdFold { italic: bump32(st.italic), ..st },
        MdTag::Strong => MdFold { bold: bump32(st.bold), ..st },
        MdTag::Table => MdFold { in_table: true, ..st },
        MdTag::TableRow | MdTag::TableHead => MdFold {
            row: Seq::empty(),
            cell_started: false,
            ..st
        },
        MdTag::TableCell => MdFold {
            row: if st.cell_started {
                st.row + seq![' ', '|', ' ']
            } else {
                st.row
            },
            cell_started: true,
            ..st
        },
        _ => st,
    }
}

/// The state after an element closes.
pub open spec fn step_end(cov: GlyphCoverage, st: MdFold, tag: MdTag) -> MdFold {
    match tag {
        MdTag::Paragraph => if st.spans.len() > 0 {
            MdFold {
                blocks: st.blocks.push(
                    if st.in_quote {
                        BlockView::Quote(st.spans)
                    } else {
                        BlockView::Paragraph(st.spans)
                    },
                ),
                spans: Seq::empty(),
                ..st
            }
        } else {
            st
        },
        MdTag::Heading(_) => MdFold {
            blocks: st.blocks.push(
                BlockView::Heading { level: pending_level(st.pending), spans: st.spans },
            ),
            spans: Seq::empty(),
            pending: Pending::Nothing,
            ..st
        },
        MdTag::List => MdFold {
            lists: if st.lists.len() > 0 {
                st.lists.drop_last()
            } else {
                st.lists
            },
            ..st
        },
        MdTag::Item => {
            let (depth, marker) = pending_item(st.pending);
            MdFold {
                blocks: st.blocks.push(
                    BlockView::ListItem { depth, marker, spans: st.spans },
                ),
                spans: Seq::empty(),
                pending: Pending::Nothing,
                ..st
            }
        },
        MdTag::BlockQuote => MdFold { in_quote: false, ..st },
        MdTag::CodeBlock => MdFold {
            in_code: false,
            blocks: st.blocks.push(BlockView::Code(code_lines(cov.face(Style::Mono), st.code))),
            ..st
        },
        MdTag::Emphasis => MdFold { italic: drop32(st.italic), ..st },
        MdTag::Strong => MdFold { bold: drop32(st.bold), ..st },
        MdTag::Table => MdFold { in_table: false, ..st },
        MdTag::TableRow | MdTag::TableHead => if st.row.len() > 0 {
            MdFold { blocks: st.blocks.push(BlockView::Code(seq![st.row])), row: Seq::empty(), ..st }
        } else {
            st
        },
        _ => st,
    }
}

/// The state after one event.
pub open spec fn md_step(cov: GlyphCoverage, st: MdFold, ev: MdEventView) -> MdFold {
    match ev {
        MdEventView::Start(tag) => step_start(cov, st, tag),
        MdEventView::StartList(start) => MdFold {
            lists: st.lists.push(
                ListLevel {
                    ordered: start is Some,
                    next: match start {
                        Some(n) => n,
                        None => 1,
                    },
                },
            ),
            ..st
        },
        MdEventView::End(tag) => step_end(cov, st, tag),
        MdEventView::Text(t) => if st.in_code {
            MdFold { code: st.code + t, ..st }
        } else if st.in_table {
            MdFold { row: st.row + sanitized(cov.face(Style::Mono), t), ..st }
        } else {
            with_span(
                st,
                RunView { style: text_style(st), text: sanitized(cov.face(text_style(st)), t) },
            )
        },
        MdEventView::Code(t) => if st.in_table {
            MdFold { row: st.row + sanitized(cov.face(Style::Mono), t), ..st }
        } else {
            with_span(
                st,
                RunView { style: Style::Mono, text: sanitized(cov.face(Style::Mono), t) },
            )
        },
        MdEventView::SoftBreak | MdEventView::HardBreak => if st.in_code {
            MdFold { code: st.code.push('\n'), ..st }
        } else if st.in_table {
            MdFold { row: st.row.push(' '), ..st }
        } else {
            with_span(st, RunView { style: Style::Regular, text: seq![' '] })
        },
        MdEventView::Rule => with_block(st, BlockView::Rule),
        MdEventView::TaskListMarker(done) => with_span(
            st,
            RunView {
                style: Style::Regular,
                text: if done {
                    seq!['[', 'x', ']', ' ']
                } else {
                    seq!['[', ' ', ']', ' ']
                },
            },
        ),
        MdEventView::Other => st,
    }
}

/// The state after the events `evs`.
pub open spec fn md_fold(cov: GlyphCoverage, evs: Seq<MdEventView>) -> MdFold
    decreases evs.len(),
{
    if evs.len() == 0 {
        fold_start()
    } else {
        md_step(cov, md_fold(cov, evs.drop_last()), evs.last())
    }
}

/// The blocks of the events `evs`: those finished along the way, and a
/// trailing paragraph of whatever inline content was left open.
pub open spec fn blocks_of(cov: GlyphCoverage, evs: Seq<MdEventView>) -> Seq<BlockView> {
    let st = md_fold(cov, evs);
    if st.spans.len() > 0 {
        st.blocks.push(BlockView::Paragraph(st.spans))
    } else {
        st.blocks
    }
}

/// Whether every character of `s` can be shown by a face that draws `face`:
/// a line break, a space, `?`, or a character the face has a glyph for.
pub open spec fn drawable_in(face: Set<char>, s: Seq<char>) -> bool {
    forall|i: int|
        0 <= i < s.len() ==> {
            let c = #[trigger] s[i];
            c == '\n' || c == '\r' || c == ' ' || c == '?' || face.contains(c)
        }
}

/// Whether every run can be shown in its own face.
pub open spec fn runs_drawable(cov: GlyphCoverage, runs: Seq<RunView>) -> bool {
    forall|i: int| 0 <= i < runs.len() ==> drawable_in(cov.face((#[trigger] runs[i]).style), runs[i].text)
}

/// Whether every line can be shown in the monospace face.
pub open spec fn lines_drawable(cov: GlyphCoverage, lines: Seq<Seq<char>>) -> bool {
    forall|i: int| 0 <= i < lines.len() ==> drawable_in(cov.face(Style::Mono), #[trigger] lines[i])
}

/// Whether everything a block holds can be shown.
pub open spec fn block_drawable(cov: GlyphCoverage, b: BlockView) -> bool {
    match b {
        BlockView::Heading { spans, .. } => runs_drawable(cov, spans),
        BlockView::Paragraph(spans) => runs_drawable(cov, spans),
        BlockView::ListItem { spans, .. } => runs_drawable(cov, spans),
        BlockView::Quote(spans) => runs_drawable(cov, spans),
        BlockView::Code(lines) => lines_drawable(cov, lines),
        BlockView::Rule => true,
    }
}

/// Whether every block can be shown.
pub open spec fn blocks_drawable(cov: GlyphCoverage, blocks: Seq<BlockView>) -> bool {
    forall|i: int| 0 <= i < blocks.len() ==> block_drawable(cov, #[trigger] blocks[i])
}

/// Whether the faces draw the marks the layout pass writes itself: the
/// task-list box `[x]` in the regular face and the cell separator `|` in the
/// monospace face.
pub open spec fn draws_own_marks(cov: GlyphCoverage) -> bool {
    &&& cov.face(Style::Regular).contains('[')
    &&& cov.face(Style::Regular).contains('x')
    &&& cov.face(Style::Regular).contains(']')
    &&& cov.face(Style::Mono).contains('|')
}

spec fn fold_drawable(cov: GlyphCoverage, st: MdFold) -> bool {
    &&& blocks_drawable(cov, st.blocks)
    &&& runs_drawable(cov, st.spans)
    &&& drawable_in(cov.face(Style::Mono), st.row)
}

proof fn lemma_sanitized_drawable(face: Set<char>, t: Seq<char>)
    ensures
        drawable_in(face, sanitized(face, t)),
{
    crate::export::coverage::lemma_sanitized_is_drawable(face, t);
}

proof fn lemma_drawable_concat(face: Set<char>, a: Seq<char>, b: Seq<char>)
    requires
        drawable_in(face, a),
        drawable_in(face, b),
    ensures
        drawable_in(face, a + b),
{
    assert forall|i: int| 0 <= i < (a + b).len() implies {
        let c = #[trigger] (a + b)[i];
        c == '\n' || c == '\r' || c == ' ' || c == '?' || face.contains(c)
    } by {
        if i < a.len() {
            assert((a + b)[i] == a[i]);
        } else {
            assert((a + b)[i] == b[i - a.len()]);
        }
    }
}

proof fn lemma_push_run(cov: GlyphCoverage, runs: Seq<RunView>, r: RunView)
    requires
        runs_drawable(cov, runs),
        drawable_in(cov.face(r.style), r.text),
    ensures
        runs_drawable(cov, runs.push(r)),
{
    assert forall|i: int| 0 <= i < runs.push(r).len() implies drawable_in(
        cov.face((#[trigger] runs.push(r)[i]).style),
        runs.push(r)[i].text,
    ) by {
        if i < runs.len() {
            assert(runs.push(r)[i] == runs[i]);
        }
    }
}

proof fn lemma_push_block(cov: GlyphCoverage, blocks: Seq<BlockView>, b: BlockView)
    requires
        blocks_drawable(cov, blocks),
        block_drawable(cov, b),
    ensures
        blocks_drawable(cov, blocks.push(b)),
{
    assert forall|i: int| 0 <= i < blocks.push(b).len() implies block_drawable(
        cov,
        #[trigger] blocks.push(b)[i],
    ) by {
        if i < blocks.len() {
            assert(blocks.push(b)[i] == blocks[i]);
        }
    }
}

proof fn lemma_code_lines_drawable(cov: GlyphCoverage, code: Seq<char>)
    ensures
        lines_drawable(cov, code_lines(cov.face(Style::Mono), code)),
{
    let raw = lines_of(strip_newlines(code));
    let mono = cov.face(Style::Mono);
    assert forall|i: int| 0 <= i < code_lines(mono, code).len() implies drawable_in(
        mono,
        #[trigger] code_lines(mono, code)[i],
    ) by {
        lemma_sanitized_drawable(mono, raw[i]);
    }
}

proof fn lemma_step_start_drawable(cov: GlyphCoverage, st: MdFold, tag: MdTag)
    requires
        draws_own_marks(cov),
        fold_drawable(cov, st),
    ensures
        fold_drawable(cov, step_start(cov, st, tag)),
{
    let mono = cov.face(Style::Mono);
    match tag {
        MdTag::TableCell => {
            if st.cell_started {
                assert(drawable_in(mono, seq![' ', '|', ' ']));
                lemma_drawable_concat(mono, st.row, seq![' ', '|', ' ']);
            }
        },
        MdTag::TableRow | MdTag::TableHead => {
            assert(drawable_in(mono, Seq::<char>::empty()));
        },
        _ => {},
    }
}

proof fn lemma_step_end_drawable(cov: GlyphCoverage, st: MdFold, tag: MdTag)
    requires
        fold_drawable(cov, st),
    ensures
        fold_drawable(cov, step_end(cov, st, tag)),
{
    match tag {
        MdTag::Paragraph => {
            if st.spans.len() > 0 {
                let b = if st.in_quote {
                    BlockView::Quote(st.spans)
                } else {
                    BlockView::Paragraph(st.spans)
                };
                lemma_push_block(cov, st.blocks, b);
            }
        },
        MdTag::Heading(_) => {
            lemma_push_block(
                cov,
                st.blocks,
                BlockView::Heading { level: pending_level(st.pending), spans: st.spans },
            );
        },
        MdTag::Item => {
            let (depth, marker) = pending_item(st.pending);
            lemma_push_block(cov, st.blocks, BlockView::ListItem { depth, marker, spans: st.spans });
        },
        MdTag::CodeBlock => {
            lemma_code_lines_drawable(cov, st.code);
            lemma_push_block(
                cov,
                st.blocks,
                BlockView::Code(code_lines(cov.face(Style::Mono), st.code)),
            );
        },
        MdTag::TableRow | MdTag::TableHead => {
            if st.row.len() > 0 {
                assert(lines_drawable(cov, seq![st.row])) by {
                    assert forall|i: int| 0 <= i < seq![st.row].len() implies drawable_in(
                        cov.face(Style::Mono),
                        #[trigger] seq![st.row][i],
                    ) by {
                        assert(seq![st.row][i] == st.row);
                    }
                }
                lemma_push_block(cov, st.blocks, BlockView::Code(seq![st.row]));
                assert(drawable_in(cov.face(Style::Mono), Seq::<char>::empty()));
            }
        },
        _ => {},
    }
}

proof fn lemma_step_drawable(cov: GlyphCoverage, st: MdFold, ev: MdEventView)
    requires
        draws_own_marks(cov),
        fold_drawable(cov, st),
    ensures
        fold_drawable(cov, md_step(cov, st, ev)),
{
    let mono = cov.face(Style::Mono);
    match ev {
        MdEventView::Start(tag) => lemma_step_start_drawable(cov, st, tag),
        MdEventView::End(tag) => lemma_step_end_drawable(cov, st, tag),
        MdEventView::Text(t) => {
            if st.in_code {
            } else if st.in_table {
                lemma_sanitized_drawable(mono, t);
                lemma_drawable_concat(mono, st.row, sanitized(mono, t));
            } else {
                let style = text_style(st);
                lemma_sanitized_drawable(cov.face(style), t);
                lemma_push_run(cov, st.spans, RunView { style, text: sanitized(cov.face(style), t) });
            }
        },
        MdEventView::Code(t) => {
            lemma_sanitized_drawable(mono, t);
            if st.in_table {
                lemma_drawable_concat(mono, st.row, sanitized(mono, t));
            } else {
                lemma_push_run(cov, st.spans, RunView { style: Style::Mono, text: sanitized(mono, t) });
            }
        },
        MdEventView::SoftBreak | MdEventView::HardBreak => {
            if st.in_code {
            } else if st.in_table {
                assert(drawable_in(mono, seq![' ']));
                lemma_drawable_concat(mono, st.row, seq![' ']);
                assert(st.row.push(' ') =~= st.row + seq![' ']);
            } else {
                assert(drawable_in(cov.face(Style::Regular), seq![' ']));
                lemma_push_run(cov, st.spans, RunView { style: Style::Regular, text: seq![' '] });
            }
        },
        MdEventView::Rule => {
            lemma_push_block(cov, st.blocks, BlockView::Rule);
        },
        MdEventView::TaskListMarker(done) => {
            let mark = if done {
                seq!['[', 'x', ']', ' ']
            } else {
                seq!['[', ' ', ']', ' ']
            };
            assert(drawable_in(cov.face(Style::Regular), mark));
            lemma_push_run(cov, st.spans, RunView { style: Style::Regular, text: mark });
        },
        _ => {},
    }
}

proof fn lemma_fold_drawable(cov: GlyphCoverage, evs: Seq<MdEventView>)
    requires
        draws_own_marks(cov),
    ensures
        fold_drawable(cov, md_fold(cov, evs)),
    decreases evs.len(),
{
    if evs.len() == 0 {
        assert(drawable_in(cov.face(Style::Mono), Seq::<char>::empty()));
    } else {
        lemma_fold_drawable(cov, evs.drop_last());
        lemma_step_drawable(cov, md_fold(cov, evs.drop_last()), evs.last());
    }
}

/// Everything the layout pass puts into a block can be drawn in the face it
/// is set in: every character of every run and code line is a line break, a
/// space, `?`, or one the face has a glyph for. The text of the document is
/// sanitized on the way in; the pass's own marks (`[x]`, `|`) need faces
/// that draw them.
pub proof fn lemma_blocks_are_drawable(cov: GlyphCoverage, evs: Seq<MdEventView>)
    requires
        draws_own_marks(cov),
    ensures
        blocks_drawable(cov, blocks_of(cov, evs)),
{
    lemma_fold_drawable(cov, evs);
    let st = md_fold(cov, evs);
    if st.spans.len() > 0 {
        lemma_push_block(cov, st.blocks, BlockView::Paragraph(st.spans));
    }
}

/// The lines of a code block as [`code_lines`] describes them.
pub fn code_block_lines(cov: &GlyphCoverage, code: &str) -> (r: Vec<String>)
    ensures
        strings_view(r@) == code_lines(cov.face(Style::Mono), code@),
{
    let n = code.unicode_len();
    let mut end: usize = n;
    assert(code@.take(n as int) =~= code@);
    while end > 0 && code.get_char(end - 1) == '\n'
        invariant
            n == code@.len(),
            end <= n,
            strip_newlines(code@) == strip_newlines(code@.take(end as int)),
        decreases end,
    {
        assert(code@.take(end as int).drop_last() =~= code@.take(end as int - 1));
        end = end - 1;
    }
    assert(strip_newlines(code@.take(end as int)) == code@.take(end as int));
    let mut raw: Vec<String> = Vec::new();
    let mut cur = String::new();
    let mut i: usize = 0;
    assert(strings_view(raw@).push(cur@) =~= lines_of(code@.take(0)));
    while i < end
        invariant
            n == code@.len(),
            end <= n,
            i <= end,
            strings_view(raw@).push(cur@) == lines_of(code@.take(i as int)),
        decreases end - i,
    {
        let c = code.get_char(i);
        let ghost prefix = code@.take(i as int + 1);
        assert(prefix.drop_last() =~= code@.take(i as int));
        assert(prefix.last() == c);
        let ghost old_raw = strings_view(raw@);
        let ghost old_cur = cur@;
        if c == '\n' {
            let mut done = String::new();
            core::mem::swap(&mut done, &mut cur);
            raw.push(done);
            assert(strings_view(raw@) =~= old_raw.push(old_cur));
            assert(strings_view(raw@).push(cur@) =~= lines_of(prefix));
        } else {
            cur.push(c);
            assert(strings_view(raw@) =~= old_raw);
            assert(strings_view(raw@).push(cur@) =~= old_raw.push(old_cur).update(
                old_raw.len() as int,
                old_cur.push(c),
            ));
        }
        i = i + 1;
    }
    let ghost before = strings_view(raw@);
    raw.push(cur);
    assert(strings_view(raw@) =~= before.push(cur@));
    let ghost whole = strings_view(raw@);
    assert(whole == lines_of(strip_newlines(code@)));
    let mut out: Vec<String> = Vec::new();
    let mut j: usize = 0;
    while j < raw.len()
        invariant
            j <= raw.len(),
            whole == strings_view(raw@),
            strings_view(out@) == whole.take(j as int).map_values(
                |l: Seq<char>| sanitized(cov.face(Style::Mono), l),
            ),
        decreases raw.len() - j,
    {
        let line = sanitize(cov, Style::Mono, raw[j].as_str());
        let ghost before_out = strings_view(out@);
        out.push(line);
        assert(strings_view(out@) =~= before_out.push(line@));
        assert(whole.take(j as int + 1).map_values(
            |l: Seq<char>| sanitized(cov.face(Style::Mono), l),
        ) =~= whole.take(j as int).map_values(
            |l: Seq<char>| sanitized(cov.face(Style::Mono), l),
        ).push(sanitized(cov.face(Style::Mono), whole[j as int])));
        j = j + 1;
    }
    assert(whole.take(raw.len() as int) =~= whole);
    out
}

/// What a pending element needs, as the layout pass keeps it.
enum PendingMarker {
    Nothing,
    Heading(u8),
    Item(u8, String),
}

impl PendingMarker {
    spec fn value(&self) -> Pending {
        match self {
            PendingMarker::Nothing => Pending::Nothing,
            PendingMarker::Heading(n) => Pending::Heading(*n),
            PendingMarker::Item(d, m) => Pending::Item(*d, m@),
        }
    }
}

/// The layout pass in progress.
struct Folder {
    blocks: Vec<Block>,
    spans: Vec<Run>,
    bold: u32,
    italic: u32,
    lists: Vec<ListLevel>,
    in_quote: bool,
    pending: PendingMarker,
    in_code: bool,
    code: String,
    in_table: bool,
    row: String,
    cell_started: bool,
}

impl Folder {
    spec fn state(&self) -> MdFold {
        MdFold {
            blocks: blocks_view(self.blocks@),
            spans: runs_view(self.spans@),
            bold: self.bold,
            italic: self.italic,
            lists: self.lists@,
            in_quote: self.in_quote,
            pending: self.pending.value(),
            in_code: self.in_code,
            code: self.code@,
            in_table: self.in_table,
            row: self.row@,
            cell_started: self.cell_started,
        }
    }

    fn new() -> (f: Folder)
        ensures
            f.state() == fold_start(),
    {
        let f = Folder {
            blocks: Vec::new(),
            spans: Vec::new(),
            bold: 0,
            italic: 0,
            lists: Vec::new(),
            in_quote: false,
            pending: PendingMarker::Nothing,
            in_code: false,
            code: String::new(),
            in_table: false,
            row: String::new(),
            cell_started: false,
        };
        assert(blocks_view(f.blocks@) =~= Seq::<BlockView>::empty());
        assert(runs_view(f.spans@) =~= Seq::<RunView>::empty());
        f
    }

    fn take_spans(&mut self) -> (r: Vec<Run>)
        ensures
            runs_view(r@) == old(self).state().spans,
            final(self).state() == (MdFold { spans: Seq::empty(), ..old(self).state() }),
    {
        let mut r: Vec<Run> = Vec::new();
        core::mem::swap(&mut r, &mut self.spans);
        assert(runs_view(self.spans@) =~= Seq::<RunView>::empty());
        r
    }

    fn push_block(&mut self, b: Block)
        ensures
            final(self).state() == with_block(old(self).state(), b@),
    {
        let ghost before = self.blocks@;
        self.blocks.push(b);
        assert(blocks_view(self.blocks@) =~= blocks_view(before).push(b@));
    }

    fn push_span(&mut self, r: Run)
        ensures
            final(self).state() == with_span(old(self).state(), r@),
    {
        let ghost before = self.spans@;
        self.spans.push(r);
        assert(runs_view(self.spans@) =~= runs_view(before).push(r@));
    }

    fn start_item(&mut self, cov: &GlyphCoverage)
        ensures
            final(self).state() == step_start(*cov, old(self).state(), MdTag::Item),
    {
        let n = self.lists.len();
        let depth: u8 = if n == 0 {
            0
        } else {
            ((n - 1) % 256) as u8
        };
        self.take_spans();
        if n > 0 && self.lists[n - 1].ordered {
            let next = self.lists[n - 1].next;
            let mut marker = String::new();
            push_decimal(&mut marker, next);
            marker.push('.');
            let bumped = if next == u64::MAX {
                0
            } else {
                next + 1
            };
            self.lists.set(n - 1, ListLevel { ordered: true, next: bumped });
            self.pending = PendingMarker::Item(depth, marker);
        } else {
            let mut marker = String::new();
            marker.push('\u{2022}');
            self.pending = PendingMarker::Item(depth, marker);
        }
    }

    fn start(&mut self, cov: &GlyphCoverage, tag: MdTag)
        ensures
            final(self).state() == step_start(*cov, old(self).state(), tag),
    {
        match tag {
            MdTag::Heading(rank) => {
                self.take_spans();
                self.pending = PendingMarker::Heading(heading_num(rank));
            },
            MdTag::Item => {
                self.start_item(cov);
            },
            MdTag::BlockQuote => {
                self.in_quote = true;
            },
            MdTag::CodeBlock => {
                self.in_code = true;
                self.code = String::new();
            },
            MdTag::Emphasis => {
                self.italic = if self.italic == u32::MAX {
                    0
                } else {
                    self.italic + 1
                };
            },
            MdTag::Strong => {
                self.bold = if self.bold == u32::MAX {
                    0
                } else {
                    self.bold + 1
                };
            },
            MdTag::Table => {
                self.in_table = true;
            },
            MdTag::TableRow | MdTag::TableHead => {
                self.row = String::new();
                self.cell_started = false;
            },
            MdTag::TableCell => {
                if self.cell_started {
                    let ghost before = self.row@;
                    self.row.push(' ');
                    self.row.push('|');
                    self.row.push(' ');
                    assert(self.row@ =~= before + seq![' ', '|', ' ']);
                }
                self.cell_started = true;
            },
            _ => {},
        }
    }

    fn end(&mut self, cov: &GlyphCoverage, tag: MdTag)
        ensures
            final(self).state() == step_end(*cov, old(self).state(), tag),
    {
        match tag {
            MdTag::Paragraph => {
                if self.spans.len() > 0 {
                    let spans = self.take_spans();
                    if self.in_quote {
                        self.push_block(Block::Quote(spans));
                    } else {
                        self.push_block(Block::Paragraph(spans));
                    }
                }
            },
            MdTag::Heading(_) => {
                let level = match self.pending {
                    PendingMarker::Heading(n) => n,
                    _ => 1,
                };
                let spans = self.take_spans();
                self.push_block(Block::Heading { level, spans });
                self.pending = PendingMarker::Nothing;
            },
            MdTag::List => {
                self.lists.pop();
            },
            MdTag::Item => {
                let mut pending = PendingMarker::Nothing;
                core::mem::swap(&mut pending, &mut self.pending);
                let (depth, marker) = match pending {
                    PendingMarker::Item(d, m) => (d, m),
                    _ => {
                        let mut m = String::new();
                        m.push('\u{2022}');
                        (0u8, m)
                    },
                };
                let spans = self.take_spans();
                self.push_block(Block::ListItem { depth, marker, spans });
            },
            MdTag::BlockQuote => {
                self.in_quote = false;
            },
            MdTag::CodeBlock => {
                self.in_code = false;
                let lines = code_block_lines(cov, self.code.as_str());
                self.push_block(Block::Code(lines));
            },
            MdTag::Emphasis => {
                self.italic = if self.italic == 0 {
                    0
                } else {
                    self.italic - 1
                };
            },
            MdTag::Strong => {
                self.bold = if self.bold == 0 {
                    0
                } else {
                    self.bold - 1
                };
            },
            MdTag::Table => {
                self.in_table = false;
            },
            MdTag::TableRow | MdTag::TableHead => {
                if !self.row.as_str().is_empty() {
                    let mut row = String::new();
                    core::mem::swap(&mut row, &mut self.row);
                    let ghost text = row@;
                    let lines = vec![row];
                    assert(strings_view(lines@) =~= seq![text]);
                    self.push_block(Block::Code(lines));
                }
            },
            _ => {},
        }
    }

    fn apply(&mut self, cov: &GlyphCoverage, ev: &MdEvent)
        ensures
            final(self).state() == md_step(*cov, old(self).state(), ev@),
    {
        match ev {
            MdEvent::Start(tag) => self.start(cov, *tag),
            MdEvent::StartList(start) => {
                let level = match start {
                    Some(n) => ListLevel { ordered: true, next: *n },
                    None => ListLevel { ordered: false, next: 1 },
                };
                self.lists.push(level);
            },
            MdEvent::End(tag) => self.end(cov, *tag),
            MdEvent::Text(text) => {
                if self.in_code {
                    self.code.append(text.as_str());
                } else if self.in_table {
                    let clean = sanitize(cov, Style::Mono, text.as_str());
                    self.row.append(clean.as_str());
                } else {
                    let style = Style::from_emphasis(self.bold > 0, self.italic > 0);
                    let clean = sanitize(cov, style, text.as_str());
                    self.push_span(Run { style, text: clean });
                }
            },
            MdEvent::Code(text) => {
                let clean = sanitize(cov, Style::Mono, text.as_str());
                if self.in_table {
                    self.row.append(clean.as_str());
                } else {
                    self.push_span(Run { style: Style::Mono, text: clean });
                }
            },
            MdEvent::SoftBreak | MdEvent::HardBreak => {
                if self.in_code {
                    self.code.push('\n');
                } else if self.in_table {
                    self.row.push(' ');
                } else {
                    let mut space = String::new();
                    space.push(' ');
                    self.push_span(Run { style: Style::Regular, text: space });
                }
            },
            MdEvent::Rule => self.push_block(Block::Rule),
            MdEvent::TaskListMarker(done) => {
                let mut mark = String::new();
                mark.push('[');
                mark.push(if *done { 'x' } else { ' ' });
                mark.push(']');
                mark.push(' ');
                assert(mark@ =~= if *done {
                    seq!['[', 'x', ']', ' ']
                } else {
                    seq!['[', ' ', ']', ' ']
                });
                self.push_span(Run { style: Style::Regular, text: mark });
            },
            MdEvent::Other => {},
        }
    }
}

/// Lay out a markdown event stream as blocks.
pub fn blocks_from_events(cov: &GlyphCoverage, events: &[MdEvent]) -> (r: Vec<Block>)
    ensures
        blocks_view(r@) == blocks_of(*cov, events_view(events@)),
{
    let mut f = Folder::new();
    let mut i: usize = 0;
    while i < events.len()
        invariant
            i <= events.len(),
            f.state() == md_fold(*cov, events_view(events@.take(i as int))),
        decreases events.len() - i,
    {
        let ghost prefix = events_view(events@.take(i as int + 1));
        assert(prefix.drop_last() =~= events_view(events@.take(i as int)));
        assert(prefix.last() == events@[i as int]@);
        f.apply(cov, &events[i]);
        i = i + 1;
    }
    assert(events@.take(events.len() as int) =~= events@);
    if f.spans.len() > 0 {
        let spans = f.take_spans();
        f.push_block(Block::Paragraph(spans));
    }
    f.blocks
}

/// Parse `markdown` into a sequence of layout blocks.
pub fn to_blocks(cov: &GlyphCoverage, markdown: &str) -> (r: Vec<Block>)
    ensures
        blocks_view(r@) == blocks_of(*cov, markdown_events(markdown@)),
{
    let events = parse_markdown(markdown);
    blocks_from_events(cov, events.as_slice())
}

/// A heading's level is the number of its rank — `#` is 1 and `######` is 6 —
/// whatever was read before it opened: closing it appends one heading block of
/// that level, holding what was read inside it, to the blocks before it.
pub proof fn lemma_heading_level_is_its_rank(
    cov: GlyphCoverage,
    st: MdFold,
    rank: HeadingRank,
    t: Seq<char>,
)
    ensures
        ({
            let level: u8 = match rank {
                HeadingRank::H1 => 1,
                HeadingRank::H2 => 2,
                HeadingRank::H3 => 3,
                HeadingRank::H4 => 4,
                HeadingRank::H5 => 5,
                HeadingRank::H6 => 6,
            };
            let opened = md_step(cov, st, MdEventView::Start(MdTag::Heading(rank)));
            let read = md_step(cov, opened, MdEventView::Text(t));
            let closed = md_step(cov, read, MdEventView::End(MdTag::Heading(rank)));
            &&& closed.blocks == st.blocks.push(BlockView::Heading { level, spans: read.spans })
            &&& closed.spans.len() == 0
        }),
{
}

/// A body that is one heading of rank `rank` with the text `t` lays out as
/// exactly one heading block, of the rank's number (1 to 6), holding `t` as it
/// is drawn in the regular face. Headings of different ranks get different
/// levels.
pub proof fn lemma_lone_heading(cov: GlyphCoverage, rank: HeadingRank, other: HeadingRank, t: Seq<char>)
    ensures
        ({
            let level: u8 = match rank {
                HeadingRank::H1 => 1,
                HeadingRank::H2 => 2,
                HeadingRank::H3 => 3,
                HeadingRank::H4 => 4,
                HeadingRank::H5 => 5,
                HeadingRank::H6 => 6,
            };
            let evs = seq![
                MdEventView::Start(MdTag::Heading(rank)),
                MdEventView::Text(t),
                MdEventView::End(MdTag::Heading(rank)),
            ];
            blocks_of(cov, evs) == seq![
                BlockView::Heading {
                    level,
                    spans: seq![
                        RunView { style: Style::Regular, text: sanitized(cov.face(Style::Regular), t) },
                    ],
                },
            ]
        }),
        rank != other ==> ({
            let a = blocks_of(
                cov,
                seq![
                    MdEventView::Start(MdTag::Heading(rank)),
                    MdEventView::Text(t),
                    MdEventView::End(MdTag::Heading(rank)),
                ],
            );
            let b = blocks_of(
                cov,
                seq![
                    MdEventView::Start(MdTag::Heading(other)),
                    MdEventView::Text(t),
                    MdEventView::End(MdTag::Heading(other)),
                ],
            );
            a[0] != b[0]
        }),
{
    lone_heading_blocks(cov, rank, t);
    lone_heading_blocks(cov, other, t);
}

proof fn lone_heading_blocks(cov: GlyphCoverage, rank: HeadingRank, t: Seq<char>)
    ensures
        blocks_of(
            cov,
            seq![
                MdEventView::Start(MdTag::Heading(rank)),
                MdEventView::Text(t),
                MdEventView::End(MdTag::Heading(rank)),
            ],
        ) == seq![
            BlockView::Heading {
                level: rank_number(rank),
                spans: seq![
                    RunView { style: Style::Regular, text: sanitized(cov.face(Style::Regular), t) },
                ],
            },
        ],
{
    let e0 = MdEventView::Start(MdTag::Heading(rank));
    let e1 = MdEventView::Text(t);
    let e2 = MdEventView::End(MdTag::Heading(rank));
    let evs = seq![e0, e1, e2];
    assert(evs.drop_last() =~= seq![e0, e1]);
    assert(seq![e0, e1].drop_last() =~= seq![e0]);
    assert(seq![e0].drop_last() =~= Seq::<MdEventView>::empty());
    let s0 = md_fold(cov, Seq::<MdEventView>::empty());
    assert(s0 == fold_start());
    let s1 = md_fold(cov, seq![e0]);
    assert(s1 == md_step(cov, s0, e0));
    let s2 = md_fold(cov, seq![e0, e1]);
    assert(s2 == md_step(cov, s1, e1));
    let s3 = md_fold(cov, evs);
    assert(s3 == md_step(cov, s2, e2));
    assert(s2.spans =~= seq![
        RunView { style: Style::Regular, text: sanitized(cov.face(Style::Regular), t) },
    ]);
    assert(s3.blocks =~= seq![BlockView::Heading { level: rank_number(rank), spans: s2.spans }]);
}

} // verus!
