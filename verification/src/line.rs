//! The data one row of the diagram is made of: colored text blocks, an
//! indent level, and a row kind, together with a builder for rows.

use vstd::prelude::*;
use crate::color;

verus! {

/// How a row is framed: `Boxed` rows get box-drawing frames and a
/// trailing connector tail, `Free` rows only indentation glyphs.
#[derive(Clone, Copy, PartialEq, Eq, Structural, Debug)]
pub enum PromptLineType {
    Boxed,
    Free,
}

/// The smallest component of a prompt line: a colored piece of text.
pub struct PromptBox {
    pub color: u16,
    pub text: String,
    pub is_bold: bool,
}

/// The mathematical value of a [`PromptBox`].
pub struct BoxView {
    pub color: u16,
    pub text: Seq<char>,
    pub is_bold: bool,
}

impl View for PromptBox {
    type V = BoxView;

    open spec fn view(&self) -> BoxView {
        BoxView { color: self.color, text: self.text@, is_bold: self.is_bold }
    }
}

/// The characters a block renders to: the enable-color escape (bold
/// variant if the block is bold), the text, and the reset escape.
pub open spec fn box_chars(b: BoxView) -> Seq<char> {
    (if b.is_bold {
        color::bcol_spec(b.color)
    } else {
        color::col_spec(b.color)
    }) + b.text + color::reset_spec()
}

/// One row of the diagram: a nesting level, a row kind, and an ordered
/// sequence of colored text blocks.
pub struct PromptLine {
    pub level: u8,
    pub line_type: PromptLineType,
    pub parts: Vec<PromptBox>,
}

/// The mathematical value of a [`PromptLine`].
pub struct LineView {
    pub level: nat,
    pub line_type: PromptLineType,
    pub parts: Seq<BoxView>,
}

impl View for PromptLine {
    type V = LineView;

    open spec fn view(&self) -> LineView {
        LineView {
            level: self.level as nat,
            line_type: self.line_type,
            parts: self.parts@.map_values(|b: PromptBox| b@),
        }
    }
}

/// The views of a sequence of lines.
pub open spec fn views_of(lines: Seq<PromptLine>) -> Seq<LineView> {
    lines.map_values(|l: PromptLine| l@)
}

impl PromptLine {
    fn new() -> (r: PromptLine)
        ensures
            r@ == (LineView { level: 0, line_type: PromptLineType::Boxed, parts: Seq::empty() }),
    {
        let r = PromptLine { level: 0, line_type: PromptLineType::Boxed, parts: Vec::new() };
        proof {
            assert(r@.parts =~= Seq::<BoxView>::empty());
        }
        r
    }

    fn new_free() -> (r: PromptLine)
        ensures
            r@ == (LineView { level: 0, line_type: PromptLineType::Free, parts: Seq::empty() }),
    {
        let mut r = PromptLine::new();
        r.line_type = PromptLineType::Free;
        r
    }
}

/// Builds [`PromptLine`]s one block at a time.
pub struct PromptLineBuilder {
    pub line: PromptLine,
}

impl PromptLineBuilder {
    /// A builder for a boxed line at level 0 with no blocks yet.
    pub fn new() -> (r: PromptLineBuilder)
        ensures
            r.line@ == (LineView {
                level: 0,
                line_type: PromptLineType::Boxed,
                parts: Seq::empty(),
            }),
    {
        PromptLineBuilder { line: PromptLine::new() }
    }

    /// A builder for a free line at level 0 with no blocks yet.
    pub fn new_free() -> (r: PromptLineBuilder)
        ensures
            r.line@ == (LineView {
                level: 0,
                line_type: PromptLineType::Free,
                parts: Seq::empty(),
            }),
    {
        PromptLineBuilder { line: PromptLine::new_free() }
    }

    /// Deepens the line's nesting level by `amt`.
    pub fn indent_by(self, amt: u8) -> (r: PromptLineBuilder)
        requires
            self.line.level + amt <= u8::MAX,
        ensures
            r.line@ == (LineView {
                level: self.line@.level + amt as nat,
                line_type: self.line@.line_type,
                parts: self.line@.parts,
            }),
    {
        let mut s = self;
        s.line.level = s.line.level + amt;
        s
    }

    /// Deepens the line's nesting level by one.
    pub fn indent(self) -> (r: PromptLineBuilder)
        requires
            self.line.level + 1 <= u8::MAX,
        ensures
            r.line@ == (LineView {
                level: self.line@.level + 1,
                line_type: self.line@.line_type,
                parts: self.line@.parts,
            }),
    {
        self.indent_by(1)
    }

    fn add_block(self, s: &str, c: u16, bold: bool) -> (r: PromptLineBuilder)
        ensures
            r.line@ == (LineView {
                level: self.line@.level,
                line_type: self.line@.line_type,
                parts: self.line@.parts.push(BoxView { color: c, text: s@, is_bold: bold }),
            }),
    {
        let mut b = self;
        b.line.parts.push(PromptBox { color: c, text: s.to_owned(), is_bold: bold });
        proof {
            assert(b.line@.parts =~= self.line@.parts.push(
                BoxView { color: c, text: s@, is_bold: bold },
            ));
        }
        b
    }

    /// Appends a block in the default color.
    pub fn block(self, s: &str) -> (r: PromptLineBuilder)
        ensures
            r.line@ == (LineView {
                level: self.line@.level,
                line_type: self.line@.line_type,
                parts: self.line@.parts.push(
                    BoxView { color: color::MAGENTA, text: s@, is_bold: false },
                ),
            }),
    {
        self.add_block(s, color::MAGENTA, false)
    }

    /// Appends a block in color `c`.
    pub fn colored_block(self, s: &str, c: u16) -> (r: PromptLineBuilder)
        ensures
            r.line@ == (LineView {
                level: self.line@.level,
                line_type: self.line@.line_type,
                parts: self.line@.parts.push(BoxView { color: c, text: s@, is_bold: false }),
            }),
    {
        self.add_block(s, c, false)
    }

    /// Appends a bold block in color `c`.
    pub fn bold_colored_block(self, s: &str, c: u16) -> (r: PromptLineBuilder)
        ensures
            r.line@ == (LineView {
                level: self.line@.level,
                line_type: self.line@.line_type,
                parts: self.line@.parts.push(BoxView { color: c, text: s@, is_bold: true }),
            }),
    {
        self.add_block(s, c, true)
    }

    /// Hands the finished line out.
    pub fn build(self) -> (r: PromptLine)
        ensures
            r@ == self.line@,
    {
        self.line
    }
}

} // verus!
