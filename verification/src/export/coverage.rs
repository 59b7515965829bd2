//! Which characters each face can draw, and the sanitizer that keeps report
//! text within them.
//!
//! The faces cover Latin with German, common typographic punctuation, arrows
//! and the usual math operators, so umlauts, dashes, arrows and `≤`/`≥` render
//! as they are. [`sanitize`] only guards against the rare character a face has
//! no glyph for (emoji, CJK, …) by mapping it to `?`, so a report body never
//! silently loses a glyph.

use std::collections::HashSet;

use vstd::prelude::*;

use crate::export::style::Style;
use crate::textual::{control_char, is_control_char};

verus! {

/// The code points listed by the Unicode `cmap` subtables of the font program
/// `font`; empty when it does not parse as a font or has no `cmap` table.
pub uninterp spec fn font_unicode_codepoints(font: Seq<u8>) -> Seq<u32>;

/// The code points a font program maps to glyphs.
///
/// Calls `ttf_parser::Face::parse(font, 0)`, takes the face's `cmap` table and
/// hands every subtable that `Subtable::is_unicode` accepts to
/// `Subtable::codepoints`, collecting what it reports, in order. The contract
/// only names that list; which code points a font lists is the font's business.
#[verifier::external_body]
fn unicode_codepoints(font: &[u8]) -> (cps: Vec<u32>)
    ensures
        cps@ == font_unicode_codepoints(font@),
{
    let mut cps: Vec<u32> = Vec::new();
    if let Ok(face) = ttf_parser::Face::parse(font, 0) {
        if let Some(cmap) = face.tables().cmap {
            for subtable in cmap.subtables {
                if subtable.is_unicode() {
                    subtable.codepoints(|cp| cps.push(cp));
                }
            }
        }
    }
    cps
}

/// Whether `cp` is a Unicode scalar value, i.e. a valid `char`.
pub open spec fn is_scalar_value(cp: u32) -> bool {
    cp <= 0x10FFFF && !(0xD800 <= cp && cp <= 0xDFFF)
}

/// `char::from_u32` yields the character for a Unicode scalar value and `None`
/// for anything else (a surrogate or a value above `U+10FFFF`).
pub assume_specification[ core::char::from_u32 ](i: u32) -> (r: Option<char>)
    ensures
        r == (if is_scalar_value(i) {
            Some(i as char)
        } else {
            None
        }),
;

/// The scalar values among `cps`: the code points that name a character.
pub open spec fn scalar_values(cps: Seq<u32>) -> Set<u32> {
    Set::new(|cp: u32| cps.contains(cp) && is_scalar_value(cp))
}

/// The characters whose code points are in `cps`.
pub open spec fn char_set(cps: Set<u32>) -> Set<char> {
    Set::new(|c: char| cps.contains(c as u32))
}

/// The set of scalar values among the code points `cps`, each character held
/// by its code point.
pub fn scalar_codepoints(cps: &Vec<u32>) -> (r: HashSet<u32>)
    ensures
        r@ == scalar_values(cps@),
{
    broadcast use vstd::std_specs::hash::group_hash_axioms;

    let mut r: HashSet<u32> = HashSet::new();
    let mut i: usize = 0;
    while i < cps.len()
        invariant
            i <= cps.len(),
            r@ == scalar_values(cps@.take(i as int)),
        decreases cps.len() - i,
    {
        let ghost before = r@;
        let cp = cps[i];
        let is_char = match core::char::from_u32(cp) {
            Some(_) => true,
            None => false,
        };
        if is_char {
            r.insert(cp);
        }
        let ghost next = cps@.take(i as int + 1);
        assert(next =~= cps@.take(i as int).push(cp));
        assert forall|x: u32| next.contains(x) <==> (cps@.take(i as int).contains(x) || x == cp) by {
            if next.contains(x) {
                let k = choose|k: int| 0 <= k < next.len() && next[k] == x;
                if k < i {
                    assert(cps@.take(i as int)[k] == x);
                }
            }
            if cps@.take(i as int).contains(x) {
                let k = choose|k: int| 0 <= k < i && cps@.take(i as int)[k] == x;
                assert(next[k] == x);
            }
            if x == cp {
                assert(next[i as int] == x);
            }
        }
        assert(r@ =~= scalar_values(next));
        i = i + 1;
    }
    assert(cps@.take(cps.len() as int) =~= cps@);
    r
}

/// The characters a font program has glyphs for, each held by its code point.
pub fn face_charset(font: &[u8]) -> (r: HashSet<u32>)
    ensures
        r@ == scalar_values(font_unicode_codepoints(font@)),
{
    let cps = unicode_codepoints(font);
    scalar_codepoints(&cps)
}

/// Per-face glyph coverage: the characters each of the five faces can draw,
/// each held by its code point.
pub struct GlyphCoverage {
    pub regular: HashSet<u32>,
    pub bold: HashSet<u32>,
    pub italic: HashSet<u32>,
    pub bold_italic: HashSet<u32>,
    pub mono: HashSet<u32>,
}

impl GlyphCoverage {
    /// The characters the face for `style` can draw.
    pub open spec fn face(&self, style: Style) -> Set<char> {
        char_set(self.face_codepoints(style))
    }

    /// The code points of the characters the face for `style` can draw.
    pub open spec fn face_codepoints(&self, style: Style) -> Set<u32> {
        match style {
            Style::Regular => self.regular@,
            Style::Bold => self.bold@,
            Style::Italic => self.italic@,
            Style::BoldItalic => self.bold_italic@,
            Style::Mono => self.mono@,
        }
    }

    /// The coverage of five font programs, one per face.
    pub fn from_fonts(
        regular: &[u8],
        bold: &[u8],
        italic: &[u8],
        bold_italic: &[u8],
        mono: &[u8],
    ) -> (r: GlyphCoverage)
        ensures
            r.regular@ == scalar_values(font_unicode_codepoints(regular@)),
            r.bold@ == scalar_values(font_unicode_codepoints(bold@)),
            r.italic@ == scalar_values(font_unicode_codepoints(italic@)),
            r.bold_italic@ == scalar_values(font_unicode_codepoints(bold_italic@)),
            r.mono@ == scalar_values(font_unicode_codepoints(mono@)),
    {
        GlyphCoverage {
            regular: face_charset(regular),
            bold: face_charset(bold),
            italic: face_charset(italic),
            bold_italic: face_charset(bold_italic),
            mono: face_charset(mono),
        }
    }

    fn codepoints(&self, style: Style) -> (r: &HashSet<u32>)
        ensures
            r@ == self.face_codepoints(style),
    {
        match style {
            Style::Regular => &self.regular,
            Style::Bold => &self.bold,
            Style::Italic => &self.italic,
            Style::BoldItalic => &self.bold_italic,
            Style::Mono => &self.mono,
        }
    }
}

/// Whether the face for `style` can draw `ch`.
pub fn is_covered(coverage: &GlyphCoverage, style: Style, ch: char) -> (r: bool)
    ensures
        r == coverage.face(style).contains(ch),
{
    broadcast use vstd::std_specs::hash::group_hash_axioms;

    let cp = ch as u32;
    coverage.codepoints(style).contains(&cp)
}

/// What one character of report text becomes in a face that draws `face`:
/// line breaks stay, a tab becomes four spaces, any other control character a
/// space, a drawable character itself and anything else `?`.
pub open spec fn sanitized_char(face: Set<char>, c: char) -> Seq<char> {
    if c == '\n' || c == '\r' {
        seq![c]
    } else if c == '\t' {
        seq![' ', ' ', ' ', ' ']
    } else if is_control_char(c) {
        seq![' ']
    } else if face.contains(c) {
        seq![c]
    } else {
        seq!['?']
    }
}

/// `s` with every character replaced by [`sanitized_char`].
pub open spec fn sanitized(face: Set<char>, s: Seq<char>) -> Seq<char>
    decreases s.len(),
{
    if s.len() == 0 {
        Seq::empty()
    } else {
        sanitized(face, s.drop_last()) + sanitized_char(face, s.last())
    }
}

/// Map `input` to what the face for `style` can draw: newlines are left as
/// they are, tabs expand to four spaces, other control characters become
/// spaces, and a character the face has no glyph for becomes `?`.
pub fn sanitize(coverage: &GlyphCoverage, style: Style, input: &str) -> (r: String)
    ensures
        r@ == sanitized(coverage.face(style), input@),
{
    let n = input.unicode_len();
    let mut out = String::new();
    let mut i: usize = 0;
    while i < n
        invariant
            n == input@.len(),
            i <= n,
            out@ == sanitized(coverage.face(style), input@.take(i as int)),
        decreases n - i,
    {
        let ch = input.get_char(i);
        let ghost before = out@;
        assert(input@.take(i as int + 1).drop_last() =~= input@.take(i as int));
        if ch == '\n' || ch == '\r' {
            out.push(ch);
        } else if ch == '\t' {
            out.push(' ');
            out.push(' ');
            out.push(' ');
            out.push(' ');
        } else if control_char(ch) {
            out.push(' ');
        } else if is_covered(coverage, style, ch) {
            out.push(ch);
        } else {
            out.push('?');
        }
        assert(out@ =~= before + sanitized_char(coverage.face(style), ch));
        i = i + 1;
    }
    assert(input@.take(n as int) =~= input@);
    out
}

/// Sanitizing never drops a character, and everything it emits can be drawn:
/// a line break, a space, `?`, or a character the face has a glyph for.
pub proof fn lemma_sanitized_is_drawable(face: Set<char>, s: Seq<char>)
    ensures
        sanitized(face, s).len() >= s.len(),
        forall|i: int|
            0 <= i < sanitized(face, s).len() ==> {
                let c = #[trigger] sanitized(face, s)[i];
                c == '\n' || c == '\r' || c == ' ' || c == '?' || face.contains(c)
            },
    decreases s.len(),
{
    if s.len() > 0 {
        lemma_sanitized_is_drawable(face, s.drop_last());
        let head = sanitized(face, s.drop_last());
        let tail = sanitized_char(face, s.last());
        assert forall|i: int| 0 <= i < sanitized(face, s).len() implies {
            let c = #[trigger] sanitized(face, s)[i];
            c == '\n' || c == '\r' || c == ' ' || c == '?' || face.contains(c)
        } by {
            if i < head.len() {
                assert(sanitized(face, s)[i] == head[i]);
            } else {
                assert(sanitized(face, s)[i] == tail[i - head.len()]);
            }
        }
    }
}

/// Text that already consists of drawable characters, other than control
/// characters, passes through unchanged.
pub proof fn lemma_sanitized_keeps_drawable_text(face: Set<char>, s: Seq<char>)
    requires
        forall|i: int|
            0 <= i < s.len() ==> face.contains(#[trigger] s[i]) && !is_control_char(s[i]),
    ensures
        sanitized(face, s) == s,
    decreases s.len(),
{
    if s.len() > 0 {
        lemma_sanitized_keeps_drawable_text(face, s.drop_last());
        assert(s.drop_last().push(s.last()) =~= s);
        assert(sanitized_char(face, s.last()) =~= seq![s.last()]);
        assert(s.drop_last() + seq![s.last()] =~= s);
    }
}

} // verus!
