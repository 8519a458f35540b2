use grbl_session::convert::{join_words, render_program};
use grbl_session::error::SessionError;

fn strings(words: &[&str]) -> Vec<String> {
    words.iter().map(|word| word.to_string()).collect()
}

/// Parses and compiles a document as a caller of the library does.
fn compile(contents: &str) -> Result<Vec<String>, SessionError> {
    let document =
        roxmltree::Document::parse(contents).map_err(|_| SessionError::DocumentParseFailed)?;
    let program = svg2gcode::svg2program(
        &document,
        &svg2gcode::ConversionConfig::default(),
        svg2gcode::ConversionOptions::default(),
        svg2gcode::Machine::default(),
    );
    Ok(program.iter().map(|token| token.to_string()).collect())
}

#[test]
fn empty_program_renders_as_empty_text() {
    assert_eq!(render_program(&Vec::new()), "");
    assert_eq!(join_words(&Vec::new()), Vec::<String>::new());
}

#[test]
fn every_instruction_gets_its_own_line() {
    assert_eq!(render_program(&strings(&["G21", "M3", "M2"])), "G21\nM3\nM2\n");
}

#[test]
fn absolute_positioning_is_followed_by_the_two_setup_lines() {
    assert_eq!(render_program(&strings(&["G21", "G90", "M2"])), "G21\nG90\nG17\nG94\nM2\n");
}

#[test]
fn every_absolute_positioning_instruction_is_followed_by_the_setup_lines() {
    assert_eq!(
        render_program(&strings(&["G90", "G91", "G90"])),
        "G90\nG17\nG94\nG91\nG90\nG17\nG94\n"
    );
}

#[test]
fn only_the_exact_marker_gets_the_setup_lines() {
    assert_eq!(render_program(&strings(&["G90.1", "g90", " G90", "G9"])), "G90.1\ng90\n G90\nG9\n");
}

#[test]
fn rendering_keeps_the_order_given() {
    assert_eq!(render_program(&strings(&["b", "a", "c", "a"])), "b\na\nc\na\n");
}

#[test]
fn a_move_and_its_coordinates_share_a_line() {
    let words = strings(&["G21", "G90", "G0", "X1", "Y2", "G1", "X3", "Y4", "F300", "M2"]);
    assert_eq!(join_words(&words), strings(&["G21", "G90", "G0X1Y2", "G1X3Y4", "F300", "M2"]));
    assert_eq!(
        render_program(&join_words(&words)),
        "G21\nG90\nG17\nG94\nG0X1Y2\nG1X3Y4\nF300\nM2\n"
    );
}

#[test]
fn words_left_open_at_the_end_still_make_a_line() {
    assert_eq!(join_words(&strings(&["M3", "G0"])), strings(&["M3", "G0"]));
    assert_eq!(join_words(&strings(&["G1", "X5"])), strings(&["G1X5"]));
}

#[test]
fn only_rapid_linear_and_x_words_leave_a_line_open() {
    assert_eq!(
        join_words(&strings(&["G2", "X1", "Y1", "G00", "Y2", "x3", "", ";X"])),
        strings(&["G2", "X1Y1", "G00", "Y2", "x3", "", ";X"])
    );
}

#[test]
fn malformed_document_is_a_parse_failure_for_the_caller() {
    assert_eq!(compile("<svg><path></svg>"), Err(SessionError::DocumentParseFailed));
    assert_eq!(compile(""), Err(SessionError::DocumentParseFailed));
}

#[test]
fn document_without_paths_compiles_to_the_program_frame() {
    let words = compile("<svg xmlns=\"http://www.w3.org/2000/svg\"/>").unwrap();
    assert_eq!(words, strings(&["G21", "G90", "M2"]));
    assert_eq!(render_program(&words), "G21\nG90\nG17\nG94\nM2\n");
}

#[test]
fn compiled_path_has_setup_lines_right_after_the_marker() {
    let words = compile(
        "<svg xmlns=\"http://www.w3.org/2000/svg\" width=\"10mm\" height=\"10mm\" \
         viewBox=\"0 0 10 10\"><path d=\"M 1 1 L 9 1 L 9 9\"/></svg>",
    )
    .unwrap();
    let text = render_program(&words);
    let lines: Vec<&str> = text.lines().collect();
    let at = lines.iter().position(|line| *line == "G90").unwrap();
    assert_eq!(at, words.iter().position(|word| word == "G90").unwrap());
    assert_eq!(lines[at + 1], "G17");
    assert_eq!(lines[at + 2], "G94");
    assert_eq!(lines[..at + 1], words[..at + 1]);
    assert_eq!(lines[at + 3..], words[at + 1..]);
    assert_eq!(lines.iter().filter(|line| **line == "G17").count(), 1);
    assert!(text.ends_with("M2\n"));

    let joined = join_words(&words);
    assert!(joined.iter().any(|line| line.starts_with("G0X") && line.contains('Y')));
    assert!(joined.iter().any(|line| line.starts_with("G1X") && line.contains('Y')));
}
