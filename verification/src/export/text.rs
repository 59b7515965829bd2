//! Styled text runs and the word split the line wrapper works on.

use vstd::prelude::*;

use crate::export::style::Style;
use crate::textual::{ascii_white_space, is_ascii_white_space};

verus! {

/// A run of text set in one face. A laid-out line is a sequence of runs.
#[derive(Debug)]
pub struct Run {
    pub style: Style,
    pub text: String,
}

/// A run as a value: its face and its characters.
pub struct RunView {
    pub style: Style,
    pub text: Seq<char>,
}

impl View for Run {
    type V = RunView;

    open spec fn view(&self) -> RunView {
        RunView { style: self.style, text: self.text@ }
    }
}

/// The values of a list of runs.
pub open spec fn runs_view(runs: Seq<Run>) -> Seq<RunView> {
    runs.map_values(|r: Run| r@)
}

impl Run {
    /// A run of `text` in `style`.
    pub fn new(style: Style, text: &str) -> (r: Run)
        ensures
            r.style == style,
            r.text@ == text@,
    {
        Run { style, text: text.to_owned() }
    }
}

impl Clone for Run {
    fn clone(&self) -> (r: Run)
        ensures
            r@ == self@,
    {
        Run { style: self.style, text: self.text.clone() }
    }
}

/// The word split in progress: the finished words, the word being built, and
/// the characters of its current run with that run's face.
pub struct WordSplit {
    pub words: Seq<Seq<RunView>>,
    pub word: Seq<RunView>,
    pub buf: Seq<char>,
    pub buf_style: Style,
}

/// The split before any character was seen.
pub open spec fn split_start() -> WordSplit {
    WordSplit { words: Seq::empty(), word: Seq::empty(), buf: Seq::empty(), buf_style: Style::Regular }
}

/// Close the current run into the current word, if it holds any character.
pub open spec fn flush_run(st: WordSplit) -> WordSplit {
    if st.buf.len() > 0 {
        WordSplit {
            word: st.word.push(RunView { style: st.buf_style, text: st.buf }),
            buf: Seq::empty(),
            ..st
        }
    } else {
        st
    }
}

/// Close the current word into the list of words, if it holds any run.
pub open spec fn flush_word(st: WordSplit) -> WordSplit {
    if st.word.len() > 0 {
        WordSplit { words: st.words.push(st.word), word: Seq::empty(), ..st }
    } else {
        st
    }
}

/// One character of a run in `style`: ASCII whitespace ends the current word; any
/// other character extends the current run, starting a new run first when the
/// face changes.
pub open spec fn split_char(st: WordSplit, style: Style, c: char) -> WordSplit {
    if is_ascii_white_space(c) {
        flush_word(flush_run(st))
    } else {
        let st1 = if st.buf.len() > 0 && style != st.buf_style {
            flush_run(st)
        } else {
            st
        };
        WordSplit { buf: st1.buf.push(c), buf_style: style, ..st1 }
    }
}

/// The split after the characters `text` of a run in `style`.
pub open spec fn split_chars(st: WordSplit, style: Style, text: Seq<char>) -> WordSplit
    decreases text.len(),
{
    if text.len() == 0 {
        st
    } else {
        split_char(split_chars(st, style, text.drop_last()), style, text.last())
    }
}

/// The split after the runs `runs`.
pub open spec fn split_runs(runs: Seq<RunView>) -> WordSplit
    decreases runs.len(),
{
    if runs.len() == 0 {
        split_start()
    } else {
        split_chars(split_runs(runs.drop_last()), runs.last().style, runs.last().text)
    }
}

/// The ASCII-whitespace-separated words of `runs`, each a list of runs.
pub open spec fn words_of(runs: Seq<RunView>) -> Seq<Seq<RunView>> {
    flush_word(flush_run(split_runs(runs))).words
}

/// The words of a list of runs, as values.
pub open spec fn words_view(words: Seq<Vec<Run>>) -> Seq<Seq<RunView>> {
    words.map_values(|w: Vec<Run>| runs_view(w@))
}

/// The exec state of a word split.
struct Splitter {
    words: Vec<Vec<Run>>,
    word: Vec<Run>,
    buf: String,
    buf_style: Style,
}

impl Splitter {
    spec fn state(&self) -> WordSplit {
        WordSplit {
            words: words_view(self.words@),
            word: runs_view(self.word@),
            buf: self.buf@,
            buf_style: self.buf_style,
        }
    }

    fn flush_run(&mut self)
        ensures
            final(self).state() == flush_run(old(self).state()),
    {
        if !self.buf.as_str().is_empty() {
            let mut text = String::new();
            core::mem::swap(&mut text, &mut self.buf);
            let ghost before = self.word@;
            self.word.push(Run { style: self.buf_style, text });
            assert(runs_view(self.word@) =~= runs_view(before).push(
                RunView { style: self.buf_style, text: text@ },
            ));
        }
    }

    fn flush_word(&mut self)
        ensures
            final(self).state() == flush_word(old(self).state()),
    {
        if self.word.len() > 0 {
            let mut word: Vec<Run> = Vec::new();
            core::mem::swap(&mut word, &mut self.word);
            let ghost before = self.words@;
            self.words.push(word);
            assert(words_view(self.words@) =~= words_view(before).push(runs_view(word@)));
            assert(runs_view(self.word@) =~= Seq::<RunView>::empty());
        }
    }

    fn take_char(&mut self, style: Style, c: char)
        ensures
            final(self).state() == split_char(old(self).state(), style, c),
    {
        if ascii_white_space(c) {
            self.flush_run();
            self.flush_word();
        } else {
            if !self.buf.as_str().is_empty() && style != self.buf_style {
                self.flush_run();
            }
            self.buf_style = style;
            self.buf.push(c);
        }
    }

    fn take_run(&mut self, run: &Run)
        ensures
            final(self).state() == split_chars(old(self).state(), run.style, run.text@),
    {
        let text = run.text.as_str();
        let n = text.unicode_len();
        let mut i: usize = 0;
        while i < n
            invariant
                n == text@.len(),
                text@ == run.text@,
                i <= n,
                self.state() == split_chars(old(self).state(), run.style, text@.take(i as int)),
            decreases n - i,
        {
            assert(text@.take(i as int + 1).drop_last() =~= text@.take(i as int));
            self.take_char(run.style, text.get_char(i));
            i = i + 1;
        }
        assert(text@.take(n as int) =~= text@);
    }
}

/// Break styled spans into words separated by ASCII whitespace, each a list of runs.
///
/// A word may carry several runs when the face changes inside it; runs of
/// the same face inside one word merge into one run.
pub fn split_words(spans: &[Run]) -> (r: Vec<Vec<Run>>)
    ensures
        words_view(r@) == words_of(runs_view(spans@)),
{
    let mut sp = Splitter {
        words: Vec::new(),
        word: Vec::new(),
        buf: String::new(),
        buf_style: Style::Regular,
    };
    assert(sp.state() == split_start()) by {
        assert(words_view(sp.words@) =~= Seq::<Seq<RunView>>::empty());
        assert(runs_view(sp.word@) =~= Seq::<RunView>::empty());
    }
    let mut i: usize = 0;
    while i < spans.len()
        invariant
            i <= spans.len(),
            sp.state() == split_runs(runs_view(spans@.take(i as int))),
        decreases spans.len() - i,
    {
        let ghost prefix = runs_view(spans@.take(i as int + 1));
        assert(prefix.drop_last() =~= runs_view(spans@.take(i as int)));
        assert(prefix.last() == spans@[i as int]@);
        sp.take_run(&spans[i]);
        i = i + 1;
    }
    assert(spans@.take(spans.len() as int) =~= spans@);
    sp.flush_run();
    sp.flush_word();
    sp.words
}

/// The characters of a list of runs, in order.
pub open spec fn run_chars(runs: Seq<RunView>) -> Seq<char>
    decreases runs.len(),
{
    if runs.len() == 0 {
        Seq::empty()
    } else {
        run_chars(runs.drop_last()) + runs.last().text
    }
}

/// The characters of a list of words, in order.
pub open spec fn word_chars(words: Seq<Seq<RunView>>) -> Seq<char>
    decreases words.len(),
{
    if words.len() == 0 {
        Seq::empty()
    } else {
        word_chars(words.drop_last()) + run_chars(words.last())
    }
}

/// The characters of `s` that are not ASCII whitespace, in order.
pub open spec fn without_white(s: Seq<char>) -> Seq<char>
    decreases s.len(),
{
    if s.len() == 0 {
        Seq::empty()
    } else if is_ascii_white_space(s.last()) {
        without_white(s.drop_last())
    } else {
        without_white(s.drop_last()).push(s.last())
    }
}

/// Whether a run is a non-empty piece of a word.
pub open spec fn is_word_piece(r: RunView) -> bool {
    r.text.len() > 0 && forall|i: int| 0 <= i < r.text.len() ==> !is_ascii_white_space(#[trigger] r.text[i])
}

/// Whether every run of `word` is a non-empty piece of a word.
pub open spec fn pieces_ok(word: Seq<RunView>) -> bool {
    forall|i: int| 0 <= i < word.len() ==> is_word_piece(#[trigger] word[i])
}

/// Whether every word is non-empty and made of word pieces.
pub open spec fn words_ok(words: Seq<Seq<RunView>>) -> bool {
    forall|i: int| 0 <= i < words.len() ==> (#[trigger] words[i]).len() > 0 && pieces_ok(words[i])
}

/// Everything a split has kept so far, in order.
spec fn kept(st: WordSplit) -> Seq<char> {
    word_chars(st.words) + run_chars(st.word) + st.buf
}

spec fn split_ok(st: WordSplit) -> bool {
    &&& words_ok(st.words)
    &&& pieces_ok(st.word)
    &&& forall|i: int| 0 <= i < st.buf.len() ==> !is_ascii_white_space(#[trigger] st.buf[i])
}

proof fn lemma_without_white_append(a: Seq<char>, b: Seq<char>)
    ensures
        without_white(a + b) == without_white(a) + without_white(b),
    decreases b.len(),
{
    if b.len() == 0 {
        assert(a + b =~= a);
        assert(without_white(a) + without_white(b) =~= without_white(a));
    } else {
        lemma_without_white_append(a, b.drop_last());
        assert((a + b).drop_last() =~= a + b.drop_last());
        if is_ascii_white_space(b.last()) {
        } else {
            assert(without_white(a) + without_white(b.drop_last()).push(b.last()) =~= (
            without_white(a) + without_white(b.drop_last())).push(b.last()));
        }
    }
}

proof fn lemma_flushes_keep(st: WordSplit)
    requires
        split_ok(st),
    ensures
        kept(flush_run(st)) == kept(st),
        split_ok(flush_run(st)),
        flush_run(st).buf.len() == 0,
        kept(flush_word(flush_run(st))) == kept(st),
        split_ok(flush_word(flush_run(st))),
        flush_word(flush_run(st)).buf.len() == 0,
        flush_word(flush_run(st)).word.len() == 0,
{
    let st1 = flush_run(st);
    if st.buf.len() > 0 {
        let piece = RunView { style: st.buf_style, text: st.buf };
        assert(st1.word.drop_last() =~= st.word);
        assert(kept(st1) =~= kept(st));
        assert(pieces_ok(st1.word)) by {
            assert forall|i: int| 0 <= i < st1.word.len() implies is_word_piece(
                #[trigger] st1.word[i],
            ) by {
                if i < st.word.len() {
                    assert(st1.word[i] == st.word[i]);
                }
            }
        }
    }
    let st2 = flush_word(st1);
    if st1.word.len() > 0 {
        assert(st2.words.drop_last() =~= st1.words);
        assert(kept(st2) =~= kept(st1));
        assert(words_ok(st2.words)) by {
            assert forall|i: int| 0 <= i < st2.words.len() implies (#[trigger] st2.words[i]).len()
                > 0 && pieces_ok(st2.words[i]) by {
                if i < st1.words.len() {
                    assert(st2.words[i] == st1.words[i]);
                }
            }
        }
    }
}

proof fn lemma_split_char_keeps(st: WordSplit, style: Style, c: char)
    requires
        split_ok(st),
    ensures
        split_ok(split_char(st, style, c)),
        kept(split_char(st, style, c)) == kept(st) + without_white(seq![c]),
{
    assert(seq![c].drop_last() =~= Seq::<char>::empty());
    assert(without_white(Seq::<char>::empty()) == Seq::<char>::empty());
    assert(seq![c].last() == c);
    lemma_flushes_keep(st);
    if is_ascii_white_space(c) {
        assert(kept(st) + without_white(seq![c]) =~= kept(st));
    } else {
        let st1 = if st.buf.len() > 0 && style != st.buf_style {
            flush_run(st)
        } else {
            st
        };
        let st2 = split_char(st, style, c);
        assert(st2.buf == st1.buf.push(c));
        assert(kept(st2) =~= kept(st1).push(c));
        assert(without_white(seq![c]) =~= seq![c]);
    }
}

proof fn lemma_split_chars_keeps(st: WordSplit, style: Style, text: Seq<char>)
    requires
        split_ok(st),
    ensures
        split_ok(split_chars(st, style, text)),
        kept(split_chars(st, style, text)) == kept(st) + without_white(text),
    decreases text.len(),
{
    if text.len() == 0 {
        assert(kept(st) + without_white(text) =~= kept(st));
    } else {
        lemma_split_chars_keeps(st, style, text.drop_last());
        let mid = split_chars(st, style, text.drop_last());
        lemma_split_char_keeps(mid, style, text.last());
        lemma_without_white_append(text.drop_last(), seq![text.last()]);
        assert(text.drop_last() + seq![text.last()] =~= text);
        assert(kept(st) + without_white(text.drop_last()) + without_white(seq![text.last()])
            =~= kept(st) + without_white(text));
    }
}

proof fn lemma_split_runs_keeps(runs: Seq<RunView>)
    ensures
        split_ok(split_runs(runs)),
        kept(split_runs(runs)) == without_white(run_chars(runs)),
    decreases runs.len(),
{
    if runs.len() == 0 {
        assert(kept(split_start()) =~= Seq::<char>::empty());
    } else {
        lemma_split_runs_keeps(runs.drop_last());
        lemma_split_chars_keeps(split_runs(runs.drop_last()), runs.last().style, runs.last().text);
        lemma_without_white_append(run_chars(runs.drop_last()), runs.last().text);
    }
}

/// Splitting into words drops exactly the ASCII whitespace: the words' characters,
/// in order, are the non-ASCII-whitespace characters of the spans. Every word is
/// non-empty and every run in it is a non-empty run without ASCII whitespace.
pub proof fn lemma_words_keep_every_glyph(runs: Seq<RunView>)
    ensures
        word_chars(words_of(runs)) == without_white(run_chars(runs)),
        words_ok(words_of(runs)),
{
    lemma_split_runs_keeps(runs);
    let st = split_runs(runs);
    lemma_flushes_keep(st);
    let fin = flush_word(flush_run(st));
    assert(kept(fin) =~= word_chars(fin.words));
}

/// Re-set every run in a bold face (bold-italic where it was italic), for
/// headings.
pub open spec fn bolded(style: Style) -> Style {
    match style {
        Style::Italic | Style::BoldItalic => Style::BoldItalic,
        _ => Style::Bold,
    }
}

/// Re-set every prose run in an italic face (bold-italic where it was bold);
/// monospace is left alone. For block quotes.
pub open spec fn italicized(style: Style) -> Style {
    match style {
        Style::Bold | Style::BoldItalic => Style::BoldItalic,
        Style::Mono => Style::Mono,
        _ => Style::Italic,
    }
}

/// The runs of `spans` re-set in a bold face, for headings.
pub fn force_bold(spans: &[Run]) -> (r: Vec<Run>)
    ensures
        r@.len() == spans@.len(),
        forall|i: int|
            0 <= i < spans@.len() ==> (#[trigger] r@[i]).style == bolded(spans@[i].style)
                && r@[i].text@ == spans@[i].text@,
{
    let mut r: Vec<Run> = Vec::new();
    let mut i: usize = 0;
    while i < spans.len()
        invariant
            i <= spans.len(),
            r@.len() == i,
            forall|j: int|
                0 <= j < i ==> (#[trigger] r@[j]).style == bolded(spans@[j].style)
                    && r@[j].text@ == spans@[j].text@,
        decreases spans.len() - i,
    {
        let style = match spans[i].style {
            Style::Italic | Style::BoldItalic => Style::BoldItalic,
            _ => Style::Bold,
        };
        r.push(Run { style, text: spans[i].text.clone() });
        i = i + 1;
    }
    r
}

/// The runs of `spans` re-set in an italic face, for block quotes.
pub fn force_italic(spans: &[Run]) -> (r: Vec<Run>)
    ensures
        r@.len() == spans@.len(),
        forall|i: int|
            0 <= i < spans@.len() ==> (#[trigger] r@[i]).style == italicized(spans@[i].style)
                && r@[i].text@ == spans@[i].text@,
{
    let mut r: Vec<Run> = Vec::new();
    let mut i: usize = 0;
    while i < spans.len()
        invariant
            i <= spans.len(),
            r@.len() == i,
            forall|j: int|
                0 <= j < i ==> (#[trigger] r@[j]).style == italicized(spans@[j].style)
                    && r@[j].text@ == spans@[j].text@,
        decreases spans.len() - i,
    {
        let style = match spans[i].style {
            Style::Bold | Style::BoldItalic => Style::BoldItalic,
            Style::Mono => Style::Mono,
            _ => Style::Italic,
        };
        r.push(Run { style, text: spans[i].text.clone() });
        i = i + 1;
    }
    r
}

} // verus!
