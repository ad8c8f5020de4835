use prompt_buffer::color::{col, reset, BLUE, CYAN, GREEN, MAGENTA, RED, WHITE};
use prompt_buffer::git::{
    end, file_state_color, outgoing_lines, status_lines, status_str, CommitLine, EntryPaths,
    GitStatus, StatusEntry, StatusTypes, INDEX_DELETED, INDEX_MODIFIED, INDEX_NEW, WT_MODIFIED,
    WT_NEW,
};
use prompt_buffer::line::{PromptLine, PromptLineType};

#[test]
fn status_flags_read_both_sides() {
    let s = GitStatus::new(INDEX_NEW | WT_MODIFIED);
    assert_eq!(s.index, StatusTypes::New);
    assert_eq!(s.workdir, StatusTypes::Modified);

    let s = GitStatus::new(WT_NEW);
    assert_eq!(s.index, StatusTypes::Untracked);
    assert_eq!(s.workdir, StatusTypes::Untracked);

    let s = GitStatus::new(0);
    assert_eq!(s.index, StatusTypes::Clean);
    assert_eq!(s.workdir, StatusTypes::Clean);

    let s = GitStatus::new(INDEX_DELETED);
    assert_eq!(s.index, StatusTypes::Deleted);
    assert_eq!(s.workdir, StatusTypes::Clean);
}

#[test]
fn status_marks_exact() {
    assert_eq!(status_str(StatusTypes::New), "A");
    assert_eq!(status_str(StatusTypes::Modified), "M");
    assert_eq!(status_str(StatusTypes::Deleted), "D");
    assert_eq!(status_str(StatusTypes::Renamed), "R");
    assert_eq!(status_str(StatusTypes::TypeChange), "T");
    assert_eq!(status_str(StatusTypes::Untracked), "?");
    assert_eq!(status_str(StatusTypes::Clean), " ");
}

#[test]
fn file_state_colors_exact() {
    assert_eq!(file_state_color(StatusTypes::Clean), WHITE);
    assert_eq!(file_state_color(StatusTypes::Untracked), WHITE);
    assert_eq!(file_state_color(StatusTypes::Deleted), RED);
    assert_eq!(file_state_color(StatusTypes::Modified), BLUE);
    assert_eq!(file_state_color(StatusTypes::New), GREEN);
    assert_eq!(file_state_color(StatusTypes::TypeChange), 3);
}

#[test]
fn no_entries_no_status_section() {
    let mut lines: Vec<PromptLine> = Vec::new();
    let entries: Vec<StatusEntry> = Vec::new();
    assert!(!status_lines(&mut lines, &entries));
    assert_eq!(lines.len(), 0);
}

#[test]
fn status_section_lists_each_entry() {
    let mut lines: Vec<PromptLine> = Vec::new();
    let entries = vec![
        StatusEntry {
            flags: INDEX_NEW,
            paths: EntryPaths::Plain { path: String::from("added.txt") },
        },
        StatusEntry {
            flags: WT_MODIFIED,
            paths: EntryPaths::Delta {
                old: String::from("same.txt"),
                new: String::from("same.txt"),
            },
        },
        StatusEntry {
            flags: INDEX_MODIFIED | WT_MODIFIED,
            paths: EntryPaths::Delta {
                old: String::from("before.txt"),
                new: String::from("after.txt"),
            },
        },
    ];
    assert!(status_lines(&mut lines, &entries));
    assert_eq!(lines.len(), 4);

    assert_eq!(lines[0].level, 0);
    assert_eq!(lines[0].line_type, PromptLineType::Boxed);
    assert_eq!(lines[0].parts[0].text, "Git Status");
    assert_eq!(lines[0].parts[0].color, CYAN);

    // staged addition: bold, colored by the index state
    assert_eq!(lines[1].level, 1);
    assert_eq!(lines[1].line_type, PromptLineType::Free);
    assert_eq!(lines[1].parts[0].text, "A  added.txt");
    assert_eq!(lines[1].parts[0].color, GREEN);
    assert!(lines[1].parts[0].is_bold);

    // clean index: plain, colored by the working-tree state
    assert_eq!(lines[2].parts[0].text, " M same.txt");
    assert_eq!(lines[2].parts[0].color, BLUE);
    assert!(!lines[2].parts[0].is_bold);

    // staged and dirty: bold red, with the rename spelled out
    assert_eq!(lines[3].parts[0].text, "MM before.txt -> after.txt");
    assert_eq!(lines[3].parts[0].color, RED);
    assert!(lines[3].parts[0].is_bold);
}

#[test]
fn no_commits_no_outgoing_section() {
    let mut lines: Vec<PromptLine> = Vec::new();
    let commits: Vec<CommitLine> = Vec::new();
    assert!(!outgoing_lines(&mut lines, &commits, true));
    assert_eq!(lines.len(), 0);
}

#[test]
fn outgoing_section_lists_each_commit() {
    let mut lines: Vec<PromptLine> = Vec::new();
    let commits = vec![
        CommitLine { id: String::from("ab12cd3"), summary: String::from("first change") },
        CommitLine { id: String::from("ef45ab6"), summary: String::from("second change") },
    ];
    assert!(outgoing_lines(&mut lines, &commits, true));
    assert_eq!(lines.len(), 3);

    assert_eq!(lines[0].level, 1);
    assert_eq!(lines[0].line_type, PromptLineType::Boxed);
    assert_eq!(lines[0].parts[0].text, "Git Outgoing");

    assert_eq!(lines[1].level, 1);
    assert_eq!(lines[1].line_type, PromptLineType::Free);
    assert_eq!(lines[1].parts[0].text, "ab12cd3 first change");
    assert_eq!(lines[1].parts[0].color, WHITE);
    assert_eq!(lines[2].parts[0].text, "ef45ab6 second change");
}

#[test]
fn outgoing_header_level_follows_status() {
    let mut lines: Vec<PromptLine> = Vec::new();
    let commits = vec![CommitLine { id: String::from("ab12cd3"), summary: String::from("x") }];
    assert!(outgoing_lines(&mut lines, &commits, false));
    assert_eq!(lines[0].level, 0);
}

#[test]
fn branch_line_texts() {
    let mut lines: Vec<PromptLine> = Vec::new();
    end(&mut lines, None, None, false);
    assert_eq!(lines[0].parts[0].text, "New Repository");
    assert_eq!(lines[0].parts[0].color, CYAN);
    assert_eq!(lines[0].level, 0);

    let mut lines: Vec<PromptLine> = Vec::new();
    end(&mut lines, Some(String::from("work")), None, true);
    assert_eq!(lines[0].parts[0].text, "work");
    assert_eq!(lines[0].level, 1);

    let mut lines: Vec<PromptLine> = Vec::new();
    end(
        &mut lines,
        Some(String::from("main")),
        Some(String::from("origin/main")),
        false,
    );
    let expected = format!("main{} -> {}origin/main", reset(), col(MAGENTA));
    assert_eq!(lines[0].parts[0].text, expected);
}
