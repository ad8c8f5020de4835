//! The version-control status lines: pure layout of data a repository
//! inspection has already produced. Reading the repository itself is
//! outside work; this module turns its plain results — status flag words,
//! path texts, branch names, commit summaries — into prompt lines.

use vstd::prelude::*;
use vstd::string::StringExecFns;
use crate::color;
use crate::line::{views_of, BoxView, LineView, PromptLine, PromptLineBuilder, PromptLineType};

verus! {

/// Status flag bit: the file is new in the index.
pub const INDEX_NEW: u32 = 1;

/// Status flag bit: the file is modified in the index.
pub const INDEX_MODIFIED: u32 = 2;

/// Status flag bit: the file is deleted in the index.
pub const INDEX_DELETED: u32 = 4;

/// Status flag bit: the file is renamed in the index.
pub const INDEX_RENAMED: u32 = 8;

/// Status flag bit: the file changed type in the index.
pub const INDEX_TYPECHANGE: u32 = 16;

/// Status flag bit: the file is new in the working tree.
pub const WT_NEW: u32 = 128;

/// Status flag bit: the file is modified in the working tree.
pub const WT_MODIFIED: u32 = 256;

/// Status flag bit: the file is deleted in the working tree.
pub const WT_DELETED: u32 = 512;

/// Status flag bit: the file changed type in the working tree.
pub const WT_TYPECHANGE: u32 = 1024;

/// Status flag bit: the file is renamed in the working tree.
pub const WT_RENAMED: u32 = 2048;

/// What one side (index or working tree) of a file's status is.
#[derive(Clone, Copy, PartialEq, Eq, Structural, Debug)]
pub enum StatusTypes {
    New,
    Modified,
    Deleted,
    Renamed,
    TypeChange,
    Untracked,
    Clean,
}

/// The index side of a status flag word: the first matching flag wins, a
/// file new only in the working tree counts as untracked, anything else is
/// clean.
pub open spec fn index_status(f: u32) -> StatusTypes {
    if f & INDEX_NEW != 0 {
        StatusTypes::New
    } else if f & INDEX_MODIFIED != 0 {
        StatusTypes::Modified
    } else if f & INDEX_DELETED != 0 {
        StatusTypes::Deleted
    } else if f & INDEX_RENAMED != 0 {
        StatusTypes::Renamed
    } else if f & INDEX_TYPECHANGE != 0 {
        StatusTypes::TypeChange
    } else if f & WT_NEW != 0 {
        StatusTypes::Untracked
    } else {
        StatusTypes::Clean
    }
}

/// The working-tree side of a status flag word.
pub open spec fn workdir_status(f: u32) -> StatusTypes {
    if f & WT_NEW != 0 {
        StatusTypes::Untracked
    } else if f & WT_MODIFIED != 0 {
        StatusTypes::Modified
    } else if f & WT_DELETED != 0 {
        StatusTypes::Deleted
    } else if f & WT_RENAMED != 0 {
        StatusTypes::Renamed
    } else if f & WT_TYPECHANGE != 0 {
        StatusTypes::TypeChange
    } else {
        StatusTypes::Clean
    }
}

/// Both sides of a file's status.
pub struct GitStatus {
    pub index: StatusTypes,
    pub workdir: StatusTypes,
}

impl GitStatus {
    /// Reads both sides out of a status flag word.
    pub fn new(f: u32) -> (r: GitStatus)
        ensures
            r.index == index_status(f),
            r.workdir == workdir_status(f),
    {
        let index = if f & INDEX_NEW != 0 {
            StatusTypes::New
        } else if f & INDEX_MODIFIED != 0 {
            StatusTypes::Modified
        } else if f & INDEX_DELETED != 0 {
            StatusTypes::Deleted
        } else if f & INDEX_RENAMED != 0 {
            StatusTypes::Renamed
        } else if f & INDEX_TYPECHANGE != 0 {
            StatusTypes::TypeChange
        } else if f & WT_NEW != 0 {
            StatusTypes::Untracked
        } else {
            StatusTypes::Clean
        };
        let workdir = if f & WT_NEW != 0 {
            StatusTypes::Untracked
        } else if f & WT_MODIFIED != 0 {
            StatusTypes::Modified
        } else if f & WT_DELETED != 0 {
            StatusTypes::Deleted
        } else if f & WT_RENAMED != 0 {
            StatusTypes::Renamed
        } else if f & WT_TYPECHANGE != 0 {
            StatusTypes::TypeChange
        } else {
            StatusTypes::Clean
        };
        GitStatus { index, workdir }
    }
}

/// The one-character mark a status side is shown as.
pub open spec fn status_char(s: StatusTypes) -> char {
    match s {
        StatusTypes::New => 'A',
        StatusTypes::Modified => 'M',
        StatusTypes::Deleted => 'D',
        StatusTypes::Renamed => 'R',
        StatusTypes::TypeChange => 'T',
        StatusTypes::Untracked => '?',
        StatusTypes::Clean => ' ',
    }
}

/// The one-character mark a status side is shown as.
pub fn status_str(s: StatusTypes) -> (r: &'static str)
    ensures
        r@ == seq![status_char(s)],
{
    match s {
        StatusTypes::New => {
            proof {
                reveal_strlit("A");
                assert("A"@ =~= seq![status_char(StatusTypes::New)]);
            }
            "A"
        },
        StatusTypes::Modified => {
            proof {
                reveal_strlit("M");
                assert("M"@ =~= seq![status_char(StatusTypes::Modified)]);
            }
            "M"
        },
        StatusTypes::Deleted => {
            proof {
                reveal_strlit("D");
                assert("D"@ =~= seq![status_char(StatusTypes::Deleted)]);
            }
            "D"
        },
        StatusTypes::Renamed => {
            proof {
                reveal_strlit("R");
                assert("R"@ =~= seq![status_char(StatusTypes::Renamed)]);
            }
            "R"
        },
        StatusTypes::TypeChange => {
            proof {
                reveal_strlit("T");
                assert("T"@ =~= seq![status_char(StatusTypes::TypeChange)]);
            }
            "T"
        },
        StatusTypes::Untracked => {
            proof {
                reveal_strlit("?");
                assert("?"@ =~= seq![status_char(StatusTypes::Untracked)]);
            }
            "?"
        },
        StatusTypes::Clean => {
            proof {
                reveal_strlit(" ");
                assert(" "@ =~= seq![status_char(StatusTypes::Clean)]);
            }
            " "
        },
    }
}

/// The color a file's state is shown in.
pub open spec fn file_color(state: StatusTypes) -> u16 {
    match state {
        StatusTypes::Clean => color::WHITE,
        StatusTypes::Untracked => color::WHITE,
        StatusTypes::Deleted => color::RED,
        StatusTypes::Modified => color::BLUE,
        StatusTypes::New => color::GREEN,
        StatusTypes::Renamed => color::CYAN,
        StatusTypes::TypeChange => color::YELLOW,
    }
}

/// The color a file's state is shown in.
pub fn file_state_color(state: StatusTypes) -> (r: u16)
    ensures
        r == file_color(state),
{
    match state {
        StatusTypes::Clean => color::WHITE,
        StatusTypes::Untracked => color::WHITE,
        StatusTypes::Deleted => color::RED,
        StatusTypes::Modified => color::BLUE,
        StatusTypes::New => color::GREEN,
        StatusTypes::Renamed => color::CYAN,
        StatusTypes::TypeChange => color::YELLOW,
    }
}

/// How a status entry's file is named: by the two sides of a change, or by
/// a plain path when no change pair is known.
pub enum EntryPaths {
    /// The old and new path of a recorded change.
    Delta { old: String, new: String },
    /// The entry's own path.
    Plain { path: String },
}

/// One file's worth of repository status, as plain values.
pub struct StatusEntry {
    pub flags: u32,
    pub paths: EntryPaths,
}

/// The path part of an entry's text: `old -> new` when a change renamed
/// the file, otherwise the single path.
pub open spec fn path_text(p: EntryPaths) -> Seq<char> {
    match p {
        EntryPaths::Delta { old, new } => if old@ == new@ {
            old@
        } else {
            old@ + " -> "@ + new@
        },
        EntryPaths::Plain { path } => path@,
    }
}

/// An entry's full text: both status marks, a space, and the path part.
pub open spec fn entry_text(e: StatusEntry) -> Seq<char> {
    seq![status_char(index_status(e.flags)), status_char(workdir_status(e.flags))] + " "@
        + path_text(e.paths)
}

/// The color of an entry's line: a file clean in the index is colored by
/// its working-tree state; one staged and otherwise clean or untracked by
/// its index state; one both staged and dirty is red.
pub open spec fn entry_color(e: StatusEntry) -> u16 {
    if index_status(e.flags) is Clean {
        file_color(workdir_status(e.flags))
    } else if workdir_status(e.flags) is Clean || workdir_status(e.flags) is Untracked {
        file_color(index_status(e.flags))
    } else {
        color::RED
    }
}

/// An entry's line is bold exactly when something is staged.
pub open spec fn entry_bold(e: StatusEntry) -> bool {
    !(index_status(e.flags) is Clean)
}

/// The line one status entry becomes: free, one level in, one block.
pub open spec fn entry_line(e: StatusEntry) -> LineView {
    LineView {
        level: 1,
        line_type: PromptLineType::Free,
        parts: seq![BoxView { color: entry_color(e), text: entry_text(e), is_bold: entry_bold(e) }],
    }
}

/// The heading of the status section.
pub open spec fn status_header() -> LineView {
    LineView {
        level: 0,
        line_type: PromptLineType::Boxed,
        parts: seq![BoxView { color: color::CYAN, text: "Git Status"@, is_bold: false }],
    }
}

fn entry_val(e: &StatusEntry) -> (r: String)
    ensures
        r@ == entry_text(*e),
{
    let status = GitStatus::new(e.flags);
    let mut val = status_str(status.index).to_owned();
    val.append(status_str(status.workdir));
    val.append(" ");
    match &e.paths {
        EntryPaths::Delta { old, new } => {
            if *old == *new {
                val.append(old.as_str());
            } else {
                val.append(old.as_str());
                val.append(" -> ");
                val.append(new.as_str());
            }
        },
        EntryPaths::Plain { path } => {
            val.append(path.as_str());
        },
    }
    proof {
        reveal_strlit(" ");
        reveal_strlit(" -> ");
        assert(val@ =~= entry_text(*e));
    }
    val
}

/// Appends the status section: nothing for no entries, otherwise the
/// heading and one line per entry, in order. Returns whether anything was
/// appended.
pub fn status_lines(lines: &mut Vec<PromptLine>, entries: &Vec<StatusEntry>) -> (has: bool)
    ensures
        has == (entries@.len() > 0),
        entries@.len() == 0 ==> final(lines)@ == old(lines)@,
        entries@.len() > 0 ==> views_of(final(lines)@) == views_of(old(lines)@).push(
            status_header(),
        ) + entries@.map_values(|e: StatusEntry| entry_line(e)),
    {
    if entries.len() == 0 {
        return false;
    }

    let header = PromptLineBuilder::new().colored_block("Git Status", color::CYAN).build();
    proof {
        assert(header@.parts =~= status_header().parts);
    }
    lines.push(header);
    let ghost base = views_of(lines@);
    proof {
        assert(base =~= views_of(old(lines)@).push(status_header()));
    }

    let mut i: usize = 0;
    while i < entries.len()
        invariant
            i <= entries@.len(),
            base == views_of(old(lines)@).push(status_header()),
            views_of(lines@) == base + entries@.take(i as int).map_values(
                |e: StatusEntry| entry_line(e),
            ),
        decreases entries@.len() - i,
    {
        let val = entry_val(&entries[i]);
        let status = GitStatus::new(entries[i].flags);
        let b = PromptLineBuilder::new_free();
        let b = match status.index {
            StatusTypes::Clean => b.colored_block(val.as_str(), file_state_color(status.workdir)),
            _ => match status.workdir {
                StatusTypes::Clean => b.bold_colored_block(
                    val.as_str(),
                    file_state_color(status.index),
                ),
                StatusTypes::Untracked => b.bold_colored_block(
                    val.as_str(),
                    file_state_color(status.index),
                ),
                _ => b.bold_colored_block(val.as_str(), color::RED),
            },
        };
        let line = b.indent().build();
        proof {
            assert(line@.parts =~= entry_line(entries@[i as int]).parts);
            assert(line@ == entry_line(entries@[i as int]));
        }
        let ghost prev = views_of(lines@);
        lines.push(line);
        proof {
            assert(views_of(lines@) =~= prev.push(line@));
            assert(entries@.take(i as int + 1).map_values(|e: StatusEntry| entry_line(e))
                =~= entries@.take(i as int).map_values(|e: StatusEntry| entry_line(e)).push(
                entry_line(entries@[i as int]),
            ));
            assert(prev.push(line@) =~= base + entries@.take(i as int + 1).map_values(
                |e: StatusEntry| entry_line(e),
            ));
        }
        i = i + 1;
    }
    proof {
        assert(entries@.take(entries@.len() as int) =~= entries@);
        assert(views_of(lines@) =~= views_of(old(lines)@).push(status_header()) + entries@
            .map_values(|e: StatusEntry| entry_line(e)));
    }
    true
}

/// One outgoing commit, as plain values: its short id and its summary.
pub struct CommitLine {
    pub id: String,
    pub summary: String,
}

/// The heading of the outgoing section; it sits one level in when a status
/// section stands above it.
pub open spec fn outgoing_header(has_status: bool) -> LineView {
    LineView {
        level: if has_status {
            1nat
        } else {
            0nat
        },
        line_type: PromptLineType::Boxed,
        parts: seq![BoxView { color: color::CYAN, text: "Git Outgoing"@, is_bold: false }],
    }
}

/// The line one outgoing commit becomes: free, one level in, the short id
/// and the summary in white.
pub open spec fn commit_line(c: CommitLine) -> LineView {
    LineView {
        level: 1,
        line_type: PromptLineType::Free,
        parts: seq![
            BoxView { color: color::WHITE, text: c.id@ + " "@ + c.summary@, is_bold: false },
        ],
    }
}

/// Appends the outgoing section: nothing for no commits, otherwise the
/// heading and one line per commit, in order. Returns whether anything was
/// appended.
pub fn outgoing_lines(lines: &mut Vec<PromptLine>, commits: &Vec<CommitLine>, has_status: bool) -> (
    has: bool)
    ensures
        has == (commits@.len() > 0),
        commits@.len() == 0 ==> final(lines)@ == old(lines)@,
        commits@.len() > 0 ==> views_of(final(lines)@) == views_of(old(lines)@).push(
            outgoing_header(has_status),
        ) + commits@.map_values(|c: CommitLine| commit_line(c)),
{
    if commits.len() == 0 {
        return false;
    }

    let header = PromptLineBuilder::new().colored_block("Git Outgoing", color::CYAN).indent_by(
        if has_status {
            1
        } else {
            0
        },
    ).build();
    proof {
        assert(header@.parts =~= outgoing_header(has_status).parts);
        assert(header@ == outgoing_header(has_status));
    }
    lines.push(header);
    let ghost base = views_of(lines@);
    proof {
        assert(base =~= views_of(old(lines)@).push(outgoing_header(has_status)));
    }

    let mut i: usize = 0;
    while i < commits.len()
        invariant
            i <= commits@.len(),
            base == views_of(old(lines)@).push(outgoing_header(has_status)),
            views_of(lines@) == base + commits@.take(i as int).map_values(
                |c: CommitLine| commit_line(c),
            ),
        decreases commits@.len() - i,
    {
        let c = &commits[i];
        let mut text = c.id.clone();
        text.append(" ");
        text.append(c.summary.as_str());
        let line = PromptLineBuilder::new_free().indent().colored_block(
            text.as_str(),
            color::WHITE,
        ).build();
        proof {
            assert(text@ =~= commits@[i as int].id@ + " "@ + commits@[i as int].summary@);
            assert(line@.parts =~= commit_line(commits@[i as int]).parts);
            assert(line@ == commit_line(commits@[i as int]));
        }
        let ghost prev = views_of(lines@);
        lines.push(line);
        proof {
            assert(views_of(lines@) =~= prev.push(line@));
            assert(commits@.take(i as int + 1).map_values(|c: CommitLine| commit_line(c))
                =~= commits@.take(i as int).map_values(|c: CommitLine| commit_line(c)).push(
                commit_line(commits@[i as int]),
            ));
            assert(prev.push(line@) =~= base + commits@.take(i as int + 1).map_values(
                |c: CommitLine| commit_line(c),
            ));
        }
        i = i + 1;
    }
    proof {
        assert(commits@.take(commits@.len() as int) =~= commits@);
        assert(views_of(lines@) =~= views_of(old(lines)@).push(outgoing_header(has_status))
            + commits@.map_values(|c: CommitLine| commit_line(c)));
    }
    true
}

/// The text of the branch line: what is known of the branch and its
/// upstream.
pub open spec fn branch_text(name: Option<String>, upstream: Option<String>) -> Seq<char> {
    match name {
        Option::None => match upstream {
            Option::None => "New Repository"@,
            Option::Some(_) => "Unknown branch state"@,
        },
        Option::Some(n) => match upstream {
            Option::None => n@,
            Option::Some(u) => n@ + color::reset_spec() + " -> "@ + color::col_spec(color::MAGENTA)
                + u@,
        },
    }
}

/// The branch line itself: boxed, cyan, one level in when a section stands
/// above it.
pub open spec fn branch_line(
    name: Option<String>,
    upstream: Option<String>,
    indented: bool,
) -> LineView {
    LineView {
        level: if indented {
            1nat
        } else {
            0nat
        },
        line_type: PromptLineType::Boxed,
        parts: seq![BoxView { color: color::CYAN, text: branch_text(name, upstream), is_bold: false }],
    }
}

/// Appends the branch line for what is known of the branch and its
/// upstream.
pub fn end(lines: &mut Vec<PromptLine>, name: Option<String>, upstream: Option<String>, indented: bool)
    ensures
        views_of(final(lines)@) == views_of(old(lines)@).push(branch_line(name, upstream, indented)),
{
    let text: String = match (&name, &upstream) {
        (Option::None, Option::None) => "New Repository".to_owned(),
        (Option::None, Option::Some(_)) => "Unknown branch state".to_owned(),
        (Option::Some(n), Option::None) => n.clone(),
        (Option::Some(n), Option::Some(u)) => {
            let mut t = n.clone();
            t.append(color::reset().as_str());
            t.append(" -> ");
            t.append(color::col(color::MAGENTA).as_str());
            t.append(u.as_str());
            t
        },
    };
    proof {
        assert(text@ =~= branch_text(name, upstream));
    }
    let line = PromptLineBuilder::new().colored_block(text.as_str(), color::CYAN).indent_by(
        if indented {
            1
        } else {
            0
        },
    ).build();
    proof {
        assert(line@.parts =~= branch_line(name, upstream, indented).parts);
        assert(line@ == branch_line(name, upstream, indented));
    }
    lines.push(line);
    proof {
        assert(views_of(lines@) =~= views_of(old(lines)@).push(branch_line(name, upstream, indented)));
    }
}

} // verus!
