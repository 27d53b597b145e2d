use morel::error::MorelError;
use morel::render::RenderRequest;
use morel::text::{pad_to_width, parse_decimal, push_decimal};

fn chars(text: &str) -> Vec<char> {
    text.chars().collect()
}

fn decimal(n: u128) -> String {
    let mut out = String::new();
    push_decimal(&mut out, n);
    out
}

fn padded(text: &str, width: usize) -> String {
    let mut out = text.to_string();
    pad_to_width(&mut out, width);
    out
}

fn request<'a>(lines: &'a [String], filename: &'a str, status_message: Option<&'a str>) -> RenderRequest<'a> {
    RenderRequest {
        lines,
        width: 40,
        height: 23,
        top_line: 0,
        total_lines: 100,
        percentage: 0,
        filename,
        status_message,
    }
}

#[test]
fn parse_decimal_reads_digits() {
    assert_eq!(parse_decimal(&chars("0"), 100), Some(0));
    assert_eq!(parse_decimal(&chars("42"), 100), Some(42));
    assert_eq!(parse_decimal(&chars("100"), 100), Some(100));
    assert_eq!(parse_decimal(&chars("0042"), 100), Some(42));
    assert_eq!(parse_decimal(&chars("18446744073709551615"), usize::MAX), Some(usize::MAX));
}

#[test]
fn parse_decimal_refuses_what_is_too_large() {
    assert_eq!(parse_decimal(&chars("101"), 100), None);
    assert_eq!(parse_decimal(&chars("1000"), 100), None);
    assert_eq!(parse_decimal(&chars("1"), 0), None);
    assert_eq!(parse_decimal(&chars("340282366920938463463374607431768211456"), usize::MAX), None);
}

#[test]
fn parse_decimal_refuses_what_is_no_number() {
    assert_eq!(parse_decimal(&chars(""), 100), None);
    assert_eq!(parse_decimal(&chars("4x"), 100), None);
    assert_eq!(parse_decimal(&chars("x4"), 100), None);
    assert_eq!(parse_decimal(&chars("+4"), 100), None);
    assert_eq!(parse_decimal(&chars("-4"), 100), None);
    assert_eq!(parse_decimal(&chars(" 4"), 100), None);
    assert_eq!(parse_decimal(&chars("1000x"), 100), None);
}

#[test]
fn push_decimal_writes_numbers_without_leading_zeros() {
    assert_eq!(decimal(0), "0");
    assert_eq!(decimal(7), "7");
    assert_eq!(decimal(10), "10");
    assert_eq!(decimal(100), "100");
    assert_eq!(decimal(12345), "12345");
    assert_eq!(decimal(9_876_543_210), "9876543210");
    assert_eq!(decimal(u128::MAX), "340282366920938463463374607431768211455");
}

#[test]
fn push_decimal_appends_to_what_is_there() {
    let mut out = "line ".to_string();
    push_decimal(&mut out, 42);
    assert_eq!(out, "line 42");
    push_decimal(&mut out, 0);
    assert_eq!(out, "line 420");
}

#[test]
fn what_push_decimal_writes_parse_decimal_reads() {
    let numbers: [usize; 6] = [0, 9, 10, 255, 65_536, usize::MAX];
    for n in numbers {
        assert_eq!(parse_decimal(&chars(&decimal(n as u128)), usize::MAX), Some(n));
    }
}

#[test]
fn pad_to_width_fills_up_with_spaces() {
    assert_eq!(padded("abc", 6), "abc   ");
    assert_eq!(padded("", 3), "   ");
    assert_eq!(padded("abc", 4), "abc ");
}

#[test]
fn pad_to_width_leaves_a_text_that_fills_the_width() {
    assert_eq!(padded("abc", 3), "abc");
    assert_eq!(padded("abcdef", 3), "abcdef");
    assert_eq!(padded("", 0), "");
}

#[test]
fn pad_to_width_counts_characters() {
    assert_eq!(padded("\u{e9}t\u{e9}", 5), "\u{e9}t\u{e9}  ");
    assert_eq!(padded("\u{65e5}\u{672c}", 3), "\u{65e5}\u{672c} ");
}

#[test]
fn the_status_line_says_where_the_view_stands() {
    let lines: Vec<String> = Vec::new();
    let request = request(&lines, "app.log", None);
    assert_eq!(request.status_line(), "--More-- (0%) line 1/100  app.log       ");
    assert_eq!(request.status_line().chars().count(), 40);
}

#[test]
fn the_status_line_counts_lines_from_one_and_names_the_total() {
    let lines: Vec<String> = Vec::new();
    let mut request = request(&lines, "notes.txt", None);
    request.top_line = 41;
    request.percentage = 41;
    request.width = 0;
    assert_eq!(request.status_line(), "--More-- (41%) line 42/100  notes.txt");
    request.top_line = 77;
    request.percentage = 100;
    assert_eq!(request.status_line(), "--More-- (100%) line 78/100  notes.txt");
    request.total_lines = 5000;
    assert_eq!(request.status_line(), "--More-- (100%) line 78/5000  notes.txt");
}

#[test]
fn the_status_line_does_not_depend_on_the_rows() {
    let lines: Vec<String> = Vec::new();
    let mut request = request(&lines, "f", None);
    request.top_line = 9;
    request.width = 0;
    request.height = 0;
    assert_eq!(request.status_line(), "--More-- (0%) line 10/100  f");
    request.height = 500;
    assert_eq!(request.status_line(), "--More-- (0%) line 10/100  f");
}

#[test]
fn the_status_line_of_an_empty_document() {
    let lines: Vec<String> = Vec::new();
    let mut request = request(&lines, "empty.txt", None);
    request.total_lines = 0;
    request.percentage = 100;
    request.width = 0;
    assert_eq!(request.status_line(), "--More-- (100%) line 1/0  empty.txt");
}

#[test]
fn the_status_line_shows_a_message_in_place_of_the_position() {
    let lines: Vec<String> = Vec::new();
    let mut request = request(&lines, "app.log", Some("[File appended]"));
    request.width = 20;
    assert_eq!(request.status_line(), "[File appended]     ");
}

#[test]
fn a_status_line_longer_than_the_terminal_is_not_cut() {
    let lines: Vec<String> = Vec::new();
    let mut request = request(&lines, "app.log", Some("[File deleted - showing last content]"));
    request.width = 10;
    assert_eq!(request.status_line(), "[File deleted - showing last content]");
    request.status_message = None;
    assert_eq!(request.status_line(), "--More-- (0%) line 1/100  app.log");
}

#[test]
fn the_status_line_does_not_overflow_at_the_largest_top_line() {
    let lines: Vec<String> = Vec::new();
    let mut request = request(&lines, "f", None);
    request.top_line = usize::MAX;
    request.total_lines = usize::MAX;
    request.height = u16::MAX;
    request.width = 0;
    let top = usize::MAX as u128;
    assert_eq!(request.status_line(), format!("--More-- (0%) line {}/{}  f", top + 1, top));
}

#[test]
fn every_error_has_its_message() {
    assert_eq!(
        MorelError::FileRead("permission denied".to_string()).message(),
        "Failed to read file: permission denied"
    );
    assert_eq!(MorelError::Terminal("no tty".to_string()).message(), "Terminal error: no tty");
    assert_eq!(
        MorelError::FileNotFound("/tmp/x.log".to_string()).message(),
        "File not found: /tmp/x.log"
    );
    assert_eq!(
        MorelError::Watcher("too many watches".to_string()).message(),
        "File watcher error: too many watches"
    );
    assert_eq!(MorelError::FileDeleted.message(), "The file was deleted");
}

#[test]
fn an_error_with_an_empty_cause_keeps_its_heading() {
    assert_eq!(MorelError::Terminal(String::new()).message(), "Terminal error: ");
}

#[test]
fn a_row_shows_its_line_cut_to_the_width() {
    let lines = vec!["short".to_string(), "a line that is too long".to_string(), String::new()];
    let mut request = request(&lines, "app.log", None);
    request.width = 10;
    assert_eq!(request.row(0), Some("short"));
    assert_eq!(request.row(1), Some("a line tha"));
    assert_eq!(request.row(2), Some(""));
    assert_eq!(request.row(3), None);
    assert_eq!(request.row(usize::MAX), None);
}

#[test]
fn a_row_is_cut_by_characters() {
    let lines = vec!["\u{e9}t\u{e9} \u{65e5}\u{672c}\u{8a9e}".to_string()];
    let mut request = request(&lines, "app.log", None);
    request.width = 5;
    assert_eq!(request.row(0), Some("\u{e9}t\u{e9} \u{65e5}"));
    request.width = 0;
    assert_eq!(request.row(0), Some(""));
    request.width = 7;
    assert_eq!(request.row(0), Some("\u{e9}t\u{e9} \u{65e5}\u{672c}\u{8a9e}"));
}

#[test]
fn clip_line_keeps_what_fits() {
    assert_eq!(morel::render::clip_line("abcdef", 3), "abc");
    assert_eq!(morel::render::clip_line("abc", 3), "abc");
    assert_eq!(morel::render::clip_line("abc", 4), "abc");
    assert_eq!(morel::render::clip_line("", 4), "");
    assert_eq!(morel::render::clip_line("abc", 0), "");
}

#[test]
fn the_help_screen_is_centred() {
    assert_eq!(morel::render::help_layout(60, 26), (17, 26));
    assert_eq!(morel::render::help_layout(40, 26), (7, 26));
    assert_eq!(morel::render::help_layout(34, 26), (4, 26));
}

#[test]
fn a_help_screen_that_does_not_fit_starts_at_the_top_and_is_cut() {
    assert_eq!(morel::render::help_layout(24, 26), (0, 23));
    assert_eq!(morel::render::help_layout(26, 26), (0, 25));
    assert_eq!(morel::render::help_layout(28, 26), (1, 26));
    assert_eq!(morel::render::help_layout(27, 26), (0, 26));
    assert_eq!(morel::render::help_layout(2, 26), (0, 1));
}

#[test]
fn a_terminal_without_room_shows_no_help() {
    assert_eq!(morel::render::help_layout(1, 26), (0, 0));
    assert_eq!(morel::render::help_layout(0, 26), (0, 0));
    assert_eq!(morel::render::help_layout(24, 0), (12, 0));
}
