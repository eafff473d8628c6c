use pathscan::screen::{
    copy_lines, write_errors_line, write_progress_line, write_results_line, write_selected_line,
};

#[test]
fn the_selected_line_names_the_folder() {
    assert_eq!(write_selected_line("/home/me/docs"), "Selected: /home/me/docs");
    assert_eq!(write_selected_line(""), "Selected: ");
}

#[test]
fn the_progress_line_counts_the_paths() {
    assert_eq!(write_progress_line(0), "Scanning... 0 paths checked");
    assert_eq!(write_progress_line(12345), "Scanning... 12345 paths checked");
}

#[test]
fn the_results_line_gives_count_and_limit() {
    assert_eq!(write_results_line(1, 240), "Found 1 paths over limit (240)");
    assert_eq!(write_results_line(3000, 0), "Found 3000 paths over limit (0)");
}

#[test]
fn the_errors_line_counts_the_errors() {
    assert_eq!(write_errors_line(1), "Errors (1)");
    assert_eq!(write_errors_line(42), "Errors (42)");
}

#[test]
fn a_copy_of_lines_holds_the_same_lines() {
    let lines = vec![String::from("one"), String::new(), String::from("three")];
    assert_eq!(copy_lines(&lines), lines);
    assert!(copy_lines(&Vec::new()).is_empty());
}
