use prompt_buffer::buffer::{PromptBuffer, PromptBufferPlugin};
use prompt_buffer::color::{bcol, col, col_cmd, dec_string, reset, CYAN, GREEN, MAGENTA, RED};
use prompt_buffer::line::{PromptLine, PromptLineBuilder};
use prompt_buffer::render::{get_line, layout, trail_off, BOTTOM, LEFT, RIGHT, TOP};

struct NoPlugin;

impl PromptBufferPlugin for NoPlugin {
    fn run(&mut self, _path: &String, _lines: &mut Vec<PromptLine>) {}
}

fn esc(body: &str) -> String {
    format!("\\[\u{1b}[{}\\]", body)
}

fn block(text: &str, color: u16) -> String {
    format!("{}{}{}", col(color), text, reset())
}

fn bold_block(text: &str, color: u16) -> String {
    format!("{}{}{}", bcol(color), text, reset())
}

fn marker_row() -> String {
    format!("└─{} ", bold_block("\\$", RED))
}

fn header_row() -> String {
    format!(
        "┌─┌{}┐──┌{}┐─{}\n",
        block("\\w", MAGENTA),
        block("\\H", MAGENTA),
        "──────────"
    )
}

#[test]
fn dec_string_exact() {
    assert_eq!(dec_string(0), "0");
    assert_eq!(dec_string(7), "7");
    assert_eq!(dec_string(36), "36");
    assert_eq!(dec_string(907), "907");
}

#[test]
fn color_escapes_exact() {
    assert_eq!(col_cmd("5m"), "\\[\u{1b}[5m\\]");
    assert_eq!(col(1), esc("31m"));
    assert_eq!(col(6), esc("36m"));
    assert_eq!(bcol(1), esc("1;31m"));
    assert_eq!(reset(), esc("0m"));
}

#[test]
fn glyph_table_exact() {
    assert_eq!(get_line(0b1111), "┼");
    assert_eq!(get_line(0b1110), "┤");
    assert_eq!(get_line(0b1101), "├");
    assert_eq!(get_line(0b1100), "│");
    assert_eq!(get_line(0b1011), "┴");
    assert_eq!(get_line(0b1010), "┘");
    assert_eq!(get_line(0b1001), "└");
    assert_eq!(get_line(0b0110), "┐");
    assert_eq!(get_line(0b0101), "┌");
    assert_eq!(get_line(0b0111), "┬");
    assert_eq!(get_line(0b0011), "─");
    assert_eq!(get_line(0b0001), " ");
    assert_eq!(get_line(0b0000), " ");
    assert_eq!(get_line(0b1000), " ");
    assert_eq!(get_line(TOP + BOTTOM + LEFT + RIGHT), "┼");
}

#[test]
fn trail_off_is_ten_dashes() {
    assert_eq!(trail_off(), "──────────");
}

#[test]
fn two_line_diagram() {
    // a boxed line at level 0 followed by a free line at level 1: the glyph
    // at depth 0 of the first line has flags 0001, which is not in the
    // table, so it is a blank
    let lines = vec![
        PromptLineBuilder::new().colored_block("A", CYAN).build(),
        PromptLineBuilder::new_free().indent().colored_block("B", GREEN).build(),
    ];
    let out = layout(&lines);
    let expected = format!(
        " ┬─┌{}┐─{}\n┌┘ {}\n{}",
        block("A", CYAN),
        "──────────",
        block("B", GREEN),
        marker_row()
    );
    assert_eq!(out, expected);
}

#[test]
fn empty_render_is_header_then_marker() {
    let mut buffer: PromptBuffer<NoPlugin> = PromptBuffer::new();
    let out = buffer.to_string();
    assert_eq!(out, format!("{}{}", header_row(), marker_row()));
}

#[test]
fn layout_of_nothing_is_marker_only() {
    let lines: Vec<PromptLine> = Vec::new();
    assert_eq!(layout(&lines), marker_row());
}

#[test]
fn render_twice_is_byte_identical() {
    let lines = vec![
        PromptLineBuilder::new().block("one").build(),
        PromptLineBuilder::new_free().indent_by(2).block("two").build(),
        PromptLineBuilder::new().block("three").build(),
    ];
    let first = layout(&lines);
    let second = layout(&lines);
    assert_eq!(first, second);

    let mut buffer: PromptBuffer<NoPlugin> = PromptBuffer::new();
    assert_eq!(buffer.to_string(), buffer.to_string());
}

struct TickPlugin;

impl PromptBufferPlugin for TickPlugin {
    fn run(&mut self, _path: &String, lines: &mut Vec<PromptLine>) {
        lines.push(PromptLineBuilder::new_free().block("tick").build());
    }
}

#[test]
fn full_pipeline_renders_header_plugin_lines_and_marker() {
    let mut buffer: PromptBuffer<TickPlugin> = PromptBuffer::new();
    buffer.add_plugin(TickPlugin);
    let out = buffer.to_string();
    // the free plugin line sits at level 0 under the header, so its one
    // glyph connects up and down: flags 1100
    let expected = format!(
        "{}│ {}\n{}",
        header_row(),
        block("tick", MAGENTA),
        marker_row()
    );
    assert_eq!(out, expected);
}

#[test]
fn start_pushes_the_header_line() {
    let buffer: PromptBuffer<NoPlugin> = PromptBuffer::new();
    let mut lines: Vec<PromptLine> = Vec::new();
    buffer.start(&mut lines);
    assert_eq!(lines.len(), 1);
    assert_eq!(lines[0].level, 0);
    assert_eq!(lines[0].parts.len(), 2);
    assert_eq!(lines[0].parts[0].text, "\\w");
    assert_eq!(lines[0].parts[1].text, "\\H");
    assert_eq!(lines[0].parts[0].color, MAGENTA);
    assert!(!lines[0].parts[0].is_bold);
}

#[test]
fn level_jumps_are_legal() {
    // arbitrary level jumps are not validated against a tree shape
    let lines = vec![
        PromptLineBuilder::new().indent_by(3).block("deep").build(),
        PromptLineBuilder::new().indent_by(3).block("deep again").build(),
    ];
    let first = layout(&lines);
    let second = layout(&lines);
    assert_eq!(first, second);
    assert!(first.starts_with("   "));
}
