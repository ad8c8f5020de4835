//! The diagram layout algorithm: an ordered sequence of lines becomes a
//! string of rows joined by box-drawing glyphs, terminated by the prompt
//! marker row.
//!
//! For each line the algorithm looks at the line's own level and the next
//! line's level (0 after the last line), and draws one glyph per depth
//! between the two, chosen by a four-bit flag lookup; depths below both
//! levels become plain left padding.

use vstd::prelude::*;
use crate::color;
use crate::line::{box_chars, BoxView, LineView, PromptBox, PromptLine, PromptLineType, views_of};

verus! {

/// Flag bit: the glyph connects upward.
pub const TOP: u8 = 8;

/// Flag bit: the glyph connects downward.
pub const BOTTOM: u8 = 4;

/// Flag bit: the glyph connects to the left.
pub const LEFT: u8 = 2;

/// Flag bit: the glyph connects to the right.
pub const RIGHT: u8 = 1;

/// The fixed glyph table: a four-bit TOP/BOTTOM/LEFT/RIGHT combination
/// selects a box-drawing character; every other combination is a blank.
pub open spec fn glyph(flags: int) -> char {
    if flags == 15 {
        '┼'
    } else if flags == 14 {
        '┤'
    } else if flags == 13 {
        '├'
    } else if flags == 12 {
        '│'
    } else if flags == 11 {
        '┴'
    } else if flags == 10 {
        '┘'
    } else if flags == 9 {
        '└'
    } else if flags == 6 {
        '┐'
    } else if flags == 5 {
        '┌'
    } else if flags == 7 {
        '┬'
    } else if flags == 3 {
        '─'
    } else {
        ' '
    }
}

/// The flag combination drawn at depth `d` of a line: TOP iff `d` is the
/// line's own level and the line is not the first, BOTTOM iff `d` is the
/// next line's level, LEFT iff `d` is above the lower of the two levels,
/// and RIGHT unless the line is free and `d` is its own level.
pub open spec fn line_flags(line: LineView, after: int, start: int, is_first: bool, d: int) -> int {
    (if d == line.level && !is_first {
        8int
    } else {
        0int
    }) + (if d == after {
        4int
    } else {
        0int
    }) + (if d > start {
        2int
    } else {
        0int
    }) + (if line.line_type is Boxed || d != line.level {
        1int
    } else {
        0int
    })
}

/// The indentation of a line: one space per depth below `start`, then one
/// glyph per depth from `start` to `end`.
pub open spec fn indent_chars(
    line: LineView,
    after: int,
    start: int,
    end: int,
    is_first: bool,
) -> Seq<char> {
    Seq::new(start as nat, |j: int| ' ') + Seq::new(
        (end + 1 - start) as nat,
        |j: int| glyph(line_flags(line, after, start, is_first, start + j)),
    )
}

/// The blocks of a boxed line: each block framed by the corner glyphs
/// `─┌` before and `┐─` after.
pub open spec fn boxed_parts_chars(parts: Seq<BoxView>) -> Seq<char>
    decreases parts.len(),
{
    if parts.len() == 0 {
        Seq::empty()
    } else {
        boxed_parts_chars(parts.drop_last()) + seq![glyph(3), glyph(5)] + box_chars(parts.last())
            + seq![glyph(6), glyph(3)]
    }
}

/// The blocks of a free line: each block after a single space.
pub open spec fn free_parts_chars(parts: Seq<BoxView>) -> Seq<char>
    decreases parts.len(),
{
    if parts.len() == 0 {
        Seq::empty()
    } else {
        free_parts_chars(parts.drop_last()) + seq![' '] + box_chars(parts.last())
    }
}

/// The connector tail of a boxed line: ten `─` glyphs.
pub open spec fn trail_spec() -> Seq<char> {
    Seq::new(10, |j: int| glyph(3))
}

/// One laid-out row: indentation, blocks, the tail if the line is boxed,
/// and the closing newline.
pub open spec fn line_chars(
    line: LineView,
    after: int,
    start: int,
    end: int,
    is_first: bool,
) -> Seq<char> {
    indent_chars(line, after, start, end, is_first) + (if line.line_type is Boxed {
        boxed_parts_chars(line.parts) + trail_spec()
    } else {
        free_parts_chars(line.parts)
    }) + seq!['\n']
}

/// The level of the line after line `ix`, or 0 when `ix` is the last.
pub open spec fn after_level(lines: Seq<LineView>, ix: int) -> int {
    if ix + 1 < lines.len() {
        lines[ix + 1].level as int
    } else {
        0
    }
}

/// The lowest depth drawn with a glyph on line `ix`.
pub open spec fn start_depth(lines: Seq<LineView>, ix: int) -> int {
    if ix + 1 < lines.len() {
        if lines[ix].level <= lines[ix + 1].level {
            lines[ix].level as int
        } else {
            lines[ix + 1].level as int
        }
    } else {
        0
    }
}

/// The highest depth drawn with a glyph on line `ix`.
pub open spec fn end_depth(lines: Seq<LineView>, ix: int) -> int {
    if ix + 1 < lines.len() {
        if lines[ix].level >= lines[ix + 1].level {
            lines[ix].level as int
        } else {
            lines[ix + 1].level as int
        }
    } else {
        lines[ix].level as int
    }
}

/// The rows of lines `ix` and following, laid out in order.
pub open spec fn rows_from(lines: Seq<LineView>, ix: int) -> Seq<char>
    decreases lines.len() - ix,
{
    if ix < 0 || ix >= lines.len() {
        Seq::empty()
    } else {
        line_chars(
            lines[ix],
            after_level(lines, ix),
            start_depth(lines, ix),
            end_depth(lines, ix),
            ix == 0,
        ) + rows_from(lines, ix + 1)
    }
}

/// The fixed final row: a `└`, a `─`, the bold red prompt marker block,
/// and one trailing space, with no newline.
pub open spec fn marker_chars() -> Seq<char> {
    seq![glyph(9), glyph(3)] + box_chars(
        BoxView { color: color::RED, text: seq!['\\', '$'], is_bold: true },
    ) + seq![' ']
}

/// What the whole diagram renders to: every line's row, then the marker
/// row.
pub open spec fn layout_spec(lines: Seq<LineView>) -> Seq<char> {
    rows_from(lines, 0) + marker_chars()
}

/// The fixed header line drawn before any contributed line: the working
/// directory and the host, in the default color.
pub open spec fn header_view() -> LineView {
    LineView {
        level: 0,
        line_type: PromptLineType::Boxed,
        parts: seq![
            BoxView { color: color::MAGENTA, text: seq!['\\', 'w'], is_bold: false },
            BoxView { color: color::MAGENTA, text: seq!['\\', 'H'], is_bold: false },
        ],
    }
}

/// What a full render yields: the header line followed by the contributed
/// lines, laid out.
pub open spec fn render_spec(contributed: Seq<LineView>) -> Seq<char> {
    layout_spec(seq![header_view()] + contributed)
}

/// A rendered diagram is never empty: the marker row alone has characters.
pub proof fn lemma_layout_nonempty(lines: Seq<LineView>)
    ensures
        layout_spec(lines).len() > 0,
{
    assert(marker_chars().len() > 0);
}

/// The header line laid out on its own: it is first and last, so only
/// depth zero is drawn and no TOP connector appears.
pub open spec fn header_row_chars() -> Seq<char> {
    line_chars(header_view(), 0, 0, 0, true)
}

/// An empty line sequence renders to exactly the header row followed by
/// the marker row, with no row between them.
pub proof fn lemma_render_empty()
    ensures
        render_spec(Seq::empty()) == header_row_chars() + marker_chars(),
{
    let ls = seq![header_view()] + Seq::<LineView>::empty();
    assert(ls =~= seq![header_view()]);
    assert(rows_from(ls, 1) =~= Seq::<char>::empty());
    assert(rows_from(ls, 0) =~= header_row_chars());
    assert(layout_spec(ls) =~= header_row_chars() + marker_chars());
}

/// Rendering is pure: two renders of one and the same line sequence are
/// identical, byte for byte.
pub proof fn lemma_render_idempotent(lines: Seq<LineView>, r1: Seq<char>, r2: Seq<char>)
    requires
        r1 == render_spec(lines),
        r2 == render_spec(lines),
    ensures
        r1 == r2,
{
}

/// The glyph for a flag combination, as a one-character string.
pub fn get_line(flags: u8) -> (r: &'static str)
    ensures
        r@ == seq![glyph(flags as int)],
{
    match flags {
        15 => {
            proof {
                reveal_strlit("┼");
                assert("┼"@ =~= seq![glyph(15)]);
            }
            "┼"
        },
        14 => {
            proof {
                reveal_strlit("┤");
                assert("┤"@ =~= seq![glyph(14)]);
            }
            "┤"
        },
        13 => {
            proof {
                reveal_strlit("├");
                assert("├"@ =~= seq![glyph(13)]);
            }
            "├"
        },
        12 => {
            proof {
                reveal_strlit("│");
                assert("│"@ =~= seq![glyph(12)]);
            }
            "│"
        },
        11 => {
            proof {
                reveal_strlit("┴");
                assert("┴"@ =~= seq![glyph(11)]);
            }
            "┴"
        },
        10 => {
            proof {
                reveal_strlit("┘");
                assert("┘"@ =~= seq![glyph(10)]);
            }
            "┘"
        },
        9 => {
            proof {
                reveal_strlit("└");
                assert("└"@ =~= seq![glyph(9)]);
            }
            "└"
        },
        6 => {
            proof {
                reveal_strlit("┐");
                assert("┐"@ =~= seq![glyph(6)]);
            }
            "┐"
        },
        5 => {
            proof {
                reveal_strlit("┌");
                assert("┌"@ =~= seq![glyph(5)]);
            }
            "┌"
        },
        7 => {
            proof {
                reveal_strlit("┬");
                assert("┬"@ =~= seq![glyph(7)]);
            }
            "┬"
        },
        3 => {
            proof {
                reveal_strlit("─");
                assert("─"@ =~= seq![glyph(3)]);
            }
            "─"
        },
        _ => {
            proof {
                reveal_strlit(" ");
                assert(" "@ =~= seq![glyph(flags as int)]);
            }
            " "
        },
    }
}

/// Renders one block: enable-color escape, text, reset escape.
fn render_box(b: &PromptBox) -> (r: String)
    ensures
        r@ == box_chars(b@),
{
    let mut s = if b.is_bold {
        color::bcol(b.color)
    } else {
        color::col(b.color)
    };
    s.append(b.text.as_str());
    let r = color::reset();
    s.append(r.as_str());
    proof {
        assert(s@ =~= box_chars(b@));
    }
    s
}

/// The ten-glyph connector tail appended to every boxed line.
pub fn trail_off() -> (r: String)
    ensures
        r@ == trail_spec(),
{
    let mut retval = String::new();
    let mut i: usize = 0;
    while i < 10
        invariant
            i <= 10,
            retval@ == Seq::new(i as nat, |j: int| glyph(3)),
        decreases 10 - i,
    {
        retval.append(get_line(LEFT + RIGHT));
        i = i + 1;
        proof {
            assert(retval@ =~= Seq::new(i as nat, |j: int| glyph(3)));
        }
    }
    proof {
        assert(retval@ =~= trail_spec());
    }
    retval
}

/// Lays one line out as a row, given the next line's level and the depth
/// range to draw glyphs over.
fn render_line(line: &PromptLine, after: u8, start: u8, end: u8, is_first: bool) -> (r: String)
    requires
        start <= end,
    ensures
        r@ == line_chars(line@, after as int, start as int, end as int, is_first),
{
    let ghost lv = line@;
    let mut line_text = String::new();

    proof {
        reveal_strlit(" ");
    }
    let mut i: u8 = 0;
    while i < start
        invariant
            i <= start,
            line_text@ == Seq::new(i as nat, |j: int| ' '),
            " "@ == seq![' '],
        decreases start - i,
    {
        line_text.append(" ");
        i = i + 1;
        proof {
            assert(line_text@ =~= Seq::new(i as nat, |j: int| ' '));
        }
    }
    let ghost padding = Seq::new(start as nat, |j: int| ' ');

    let mut d: u16 = start as u16;
    while d <= end as u16
        invariant
            start as u16 <= d <= end as u16 + 1,
            lv == line@,
            line_text@ == padding + Seq::new(
                (d - start) as nat,
                |j: int| glyph(line_flags(lv, after as int, start as int, is_first, start + j)),
            ),
        decreases end as int + 1 - d,
    {
        let current = line.level as u16;
        let top: u8 = if d == current && !is_first {
            TOP
        } else {
            0
        };
        let bottom: u8 = if d == after as u16 {
            BOTTOM
        } else {
            0
        };
        let left: u8 = if d > start as u16 {
            LEFT
        } else {
            0
        };
        let right: u8 = match line.line_type {
            PromptLineType::Boxed => RIGHT,
            PromptLineType::Free => if d == current {
                0
            } else {
                RIGHT
            },
        };
        let flags: u8 = top + bottom + left + right;
        proof {
            assert(flags as int == line_flags(lv, after as int, start as int, is_first, d as int));
        }
        line_text.append(get_line(flags));
        d = d + 1;
        proof {
            assert(line_text@ =~= padding + Seq::new(
                (d - start) as nat,
                |j: int| glyph(line_flags(lv, after as int, start as int, is_first, start + j)),
            ));
        }
    }
    proof {
        assert(line_text@ =~= indent_chars(lv, after as int, start as int, end as int, is_first));
    }
    let ghost indent = line_text@;

    let mut p: usize = 0;
    while p < line.parts.len()
        invariant
            p <= line.parts@.len(),
            lv == line@,
            lv.parts.len() == line.parts@.len(),
            line_text@ == indent + (if lv.line_type is Boxed {
                boxed_parts_chars(lv.parts.take(p as int))
            } else {
                free_parts_chars(lv.parts.take(p as int))
            }),
            " "@ == seq![' '],
        decreases line.parts@.len() - p,
    {
        let ghost before = lv.parts.take(p as int);
        let ghost after_parts = lv.parts.take(p as int + 1);
        proof {
            assert(after_parts.drop_last() =~= before);
            assert(after_parts.last() == lv.parts[p as int]);
            assert(lv.parts[p as int] == line.parts@[p as int]@);
        }
        match line.line_type {
            PromptLineType::Boxed => {
                line_text.append(get_line(LEFT + RIGHT));
                line_text.append(get_line(BOTTOM + RIGHT));
                let rb = render_box(&line.parts[p]);
                line_text.append(rb.as_str());
                line_text.append(get_line(BOTTOM + LEFT));
                line_text.append(get_line(LEFT + RIGHT));
                proof {
                    assert(line_text@ =~= indent + boxed_parts_chars(after_parts));
                }
            },
            PromptLineType::Free => {
                line_text.append(" ");
                let rb = render_box(&line.parts[p]);
                line_text.append(rb.as_str());
                proof {
                    assert(line_text@ =~= indent + free_parts_chars(after_parts));
                }
            },
        }
        p = p + 1;
    }
    proof {
        assert(lv.parts.take(lv.parts.len() as int) =~= lv.parts);
    }

    match line.line_type {
        PromptLineType::Boxed => {
            let t = trail_off();
            line_text.append(t.as_str());
        },
        PromptLineType::Free => {},
    }
    proof {
        reveal_strlit("\n");
    }
    line_text.append("\n");
    proof {
        assert(line_text@ =~= line_chars(lv, after as int, start as int, end as int, is_first));
    }
    line_text
}

/// Lays the whole sequence of lines out and appends the marker row.
pub fn layout(lines: &Vec<PromptLine>) -> (r: String)
    ensures
        r@ == layout_spec(views_of(lines@)),
{
    let ghost lvs = views_of(lines@);
    let mut retval = String::new();

    let mut ix: usize = 0;
    while ix < lines.len()
        invariant
            ix <= lines@.len(),
            lvs == views_of(lines@),
            lvs.len() == lines@.len(),
            retval@ + rows_from(lvs, ix as int) == rows_from(lvs, 0),
        decreases lines@.len() - ix,
    {
        proof {
            assert(lvs[ix as int] == lines@[ix as int]@);
            if ix + 1 < lines@.len() {
                assert(lvs[ix as int + 1] == lines@[ix as int + 1]@);
            }
        }
        let line = &lines[ix];
        let current = line.level;
        let (after, start, end): (u8, u8, u8) = if ix + 1 < lines.len() {
            let a = lines[ix + 1].level;
            (a, if current <= a {
                current
            } else {
                a
            }, if current >= a {
                current
            } else {
                a
            })
        } else {
            (0, 0, current)
        };
        proof {
            assert(after as int == after_level(lvs, ix as int));
            assert(start as int == start_depth(lvs, ix as int));
            assert(end as int == end_depth(lvs, ix as int));
        }
        let row = render_line(line, after, start, end, ix == 0);
        retval.append(row.as_str());
        proof {
            assert(retval@ + rows_from(lvs, ix as int + 1) =~= rows_from(lvs, 0));
        }
        ix = ix + 1;
    }

    retval.append(get_line(TOP + RIGHT));
    retval.append(get_line(LEFT + RIGHT));
    let marker = PromptBox { text: "\\$".to_owned(), color: color::RED, is_bold: true };
    let mb = render_box(&marker);
    retval.append(mb.as_str());
    proof {
        reveal_strlit(" ");
        reveal_strlit("\\$");
        assert(marker@.text =~= seq!['\\', '$']);
        assert(rows_from(lvs, lvs.len() as int) =~= Seq::<char>::empty());
    }
    retval.append(" ");
    proof {
        assert(retval@ =~= layout_spec(lvs));
    }
    retval
}

} // verus!
