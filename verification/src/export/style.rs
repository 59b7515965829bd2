//! The faces a report is set in.

use vstd::prelude::*;

verus! {

/// The faces the renderer switches between; markdown emphasis maps onto these.
#[derive(Clone, Copy, PartialEq, Eq, Debug, Structural)]
pub enum Style {
    Regular,
    Bold,
    Italic,
    BoldItalic,
    Mono,
}

/// The face for the given emphasis flags.
pub open spec fn emphasis_style(bold: bool, italic: bool) -> Style {
    if bold && italic {
        Style::BoldItalic
    } else if bold {
        Style::Bold
    } else if italic {
        Style::Italic
    } else {
        Style::Regular
    }
}

/// The position of a face in the fixed order regular, bold, italic,
/// bold-italic, mono.
pub open spec fn style_index(style: Style) -> nat {
    match style {
        Style::Regular => 0,
        Style::Bold => 1,
        Style::Italic => 2,
        Style::BoldItalic => 3,
        Style::Mono => 4,
    }
}

/// The name of the font program a face is set in.
pub open spec fn style_font_name(style: Style) -> Seq<char> {
    match style {
        Style::Regular => "DejaVuSans"@,
        Style::Bold => "DejaVuSans-Bold"@,
        Style::Italic => "DejaVuSans-Oblique"@,
        Style::BoldItalic => "DejaVuSans-BoldOblique"@,
        Style::Mono => "DejaVuSansMono"@,
    }
}

impl Style {
    /// The name of the font program this face is set in.
    pub fn font_name(self) -> (r: &'static str)
        ensures
            r@ == style_font_name(self),
    {
        match self {
            Style::Regular => "DejaVuSans",
            Style::Bold => "DejaVuSans-Bold",
            Style::Italic => "DejaVuSans-Oblique",
            Style::BoldItalic => "DejaVuSans-BoldOblique",
            Style::Mono => "DejaVuSansMono",
        }
    }

    /// Where this face sits among the five loaded faces.
    pub fn index(self) -> (r: usize)
        ensures
            r == style_index(self),
            r < 5,
    {
        match self {
            Style::Regular => 0,
            Style::Bold => 1,
            Style::Italic => 2,
            Style::BoldItalic => 3,
            Style::Mono => 4,
        }
    }

    /// Combine bold and italic flags into a face.
    pub fn from_emphasis(bold: bool, italic: bool) -> (r: Style)
        ensures
            r == emphasis_style(bold, italic),
    {
        match (bold, italic) {
            (true, true) => Style::BoldItalic,
            (true, false) => Style::Bold,
            (false, true) => Style::Italic,
            (false, false) => Style::Regular,
        }
    }
}

} // verus!
