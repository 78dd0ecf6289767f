use wc_tool::{diagnostic, display_name, format_line, total_line, Columns, Counts};

fn counts(lines: u64, words: u64, bytes: u64) -> Counts {
    Counts { lines, words, bytes }
}

#[test]
fn no_flags_means_all_columns() {
    let cols = Columns::from_flags(false, false, false);
    assert_eq!(cols, Columns { lines: true, words: true, bytes: true });
}

#[test]
fn flags_select_columns() {
    let cols = Columns::from_flags(false, true, false);
    assert_eq!(cols, Columns { lines: false, words: true, bytes: false });
}

#[test]
fn hello_world_line_with_name() {
    let cols = Columns::from_flags(false, false, false);
    let line = format_line(&counts(1, 2, 12), &cols, Some("hello.txt"));
    assert_eq!(line, "       1       2      12 hello.txt");
}

#[test]
fn empty_input_line() {
    let cols = Columns::from_flags(false, false, false);
    let line = format_line(&counts(0, 0, 0), &cols, Some("empty"));
    assert_eq!(line, "       0       0       0 empty");
}

#[test]
fn two_files_print_a_total_line() {
    let cols = Columns::from_flags(false, false, false);
    assert_eq!(format_line(&counts(1, 1, 2), &cols, Some("a.txt")), "       1       1       2 a.txt");
    assert_eq!(format_line(&counts(1, 2, 4), &cols, Some("b.txt")), "       1       2       4 b.txt");
    assert_eq!(total_line(&counts(2, 3, 6), &cols), "       2       3       6 total");
}

#[test]
fn lines_and_words_only() {
    let cols = Columns::from_flags(true, true, false);
    assert_eq!(format_line(&counts(1, 2, 12), &cols, Some("f")), "       1       2 f");
    assert_eq!(total_line(&counts(2, 3, 6), &cols), "       2       3 total");
}

#[test]
fn bytes_only() {
    let cols = Columns::from_flags(false, false, true);
    assert_eq!(format_line(&counts(7, 8, 90), &cols, None), "      90");
}

#[test]
fn wide_numbers_overflow_the_field() {
    let cols = Columns::from_flags(false, false, true);
    assert_eq!(format_line(&counts(0, 0, 12345678), &cols, None), "12345678");
    assert_eq!(format_line(&counts(0, 0, 123456789), &cols, None), "123456789");
    assert_eq!(
        format_line(&counts(0, 0, u64::MAX), &cols, None),
        "18446744073709551615"
    );
}

#[test]
fn lone_stdin_has_no_name() {
    assert_eq!(display_name("-", 1), None);
    let cols = Columns::from_flags(false, false, false);
    let line = format_line(&counts(1, 2, 12), &cols, display_name("-", 1));
    assert_eq!(line, "       1       2      12");
}

#[test]
fn stdin_among_several_is_named() {
    assert_eq!(display_name("-", 2), Some("-"));
}

#[test]
fn named_file_keeps_its_name() {
    assert_eq!(display_name("notes.txt", 1), Some("notes.txt"));
    assert_eq!(display_name("--", 1), Some("--"));
}

#[test]
fn missing_file_diagnostic_names_the_path() {
    let msg = diagnostic("wc_tool", "missing.txt", "No such file or directory (os error 2)");
    assert_eq!(msg, "wc_tool: missing.txt: No such file or directory (os error 2)");
}
