use pathscan::classify::OverLimit;
use pathscan::csv::{append_escaped, append_line, render};

fn entry(path: &str, size: u64) -> OverLimit {
    OverLimit::new(String::from(path), size)
}

fn parse(text: &str) -> Vec<(String, String)> {
    let mut reader = csv::ReaderBuilder::new().has_headers(true).from_reader(text.as_bytes());
    let mut rows = Vec::new();
    for record in reader.records() {
        let record = record.unwrap();
        assert_eq!(record.len(), 2);
        rows.push((String::from(&record[0]), String::from(&record[1])));
    }
    rows
}

#[test]
fn no_entries_give_the_header_alone() {
    assert_eq!(render(&Vec::new()), "Path,Length\n");
}

#[test]
fn one_entry_gives_one_line() {
    assert_eq!(render(&vec![entry("/a/b", 4)]), "Path,Length\n\"/a/b\",4\n");
}

#[test]
fn quotes_in_a_path_are_doubled() {
    let entries = vec![entry("a/b", 3), entry("a/\"c\"", 5)];
    assert_eq!(render(&entries), "Path,Length\n\"a/b\",3\n\"a/\"\"c\"\"\",5\n");
}

#[test]
fn a_standard_reader_recovers_the_records() {
    let entries = vec![entry("a/b", 3), entry("a/\"c\"", 5)];
    let rows = parse(&render(&entries));
    assert_eq!(rows, vec![
        (String::from("a/b"), String::from("3")),
        (String::from("a/\"c\""), String::from("5")),
    ]);
}

#[test]
fn the_header_names_the_two_columns() {
    let text = render(&vec![entry("x", 1)]);
    let mut reader = csv::ReaderBuilder::new().has_headers(true).from_reader(text.as_bytes());
    let headers = reader.headers().unwrap();
    assert_eq!(headers.len(), 2);
    assert_eq!(&headers[0], "Path");
    assert_eq!(&headers[1], "Length");
}

#[test]
fn commas_and_line_breaks_in_a_path_stay_inside_the_quotes() {
    let entries = vec![entry("a,b", 3), entry("line\nbreak", 10), entry("", 0)];
    let text = render(&entries);
    assert_eq!(text, "Path,Length\n\"a,b\",3\n\"line\nbreak\",10\n\"\",0\n");
    let rows = parse(&text);
    assert_eq!(rows.len(), 3);
    assert_eq!(rows[0].0, "a,b");
    assert_eq!(rows[1].0, "line\nbreak");
    assert_eq!(rows[2], (String::new(), String::from("0")));
}

#[test]
fn a_path_of_quotes_alone_is_recovered() {
    let entries = vec![entry("\"", 1), entry("\"\"", 2), entry("\"a", 2), entry("a\"", 2)];
    let text = render(&entries);
    assert_eq!(text, "Path,Length\n\"\"\"\",1\n\"\"\"\"\"\",2\n\"\"\"a\",2\n\"a\"\"\",2\n");
    let rows = parse(&text);
    let paths: Vec<&str> = rows.iter().map(|row| row.0.as_str()).collect();
    assert_eq!(paths, vec!["\"", "\"\"", "\"a", "a\""]);
}

#[test]
fn characters_outside_ascii_are_kept() {
    let entries = vec![entry("/d\u{e9}p\u{f4}t/\u{20ac}", 12)];
    let text = render(&entries);
    assert_eq!(text, "Path,Length\n\"/d\u{e9}p\u{f4}t/\u{20ac}\",12\n");
    assert_eq!(parse(&text)[0].0, "/d\u{e9}p\u{f4}t/\u{20ac}");
}

#[test]
fn the_length_is_written_as_it_is_stored() {
    let entries = vec![entry("short", 300), entry("p", u64::MAX)];
    assert_eq!(render(&entries), "Path,Length\n\"short\",300\n\"p\",18446744073709551615\n");
}

#[test]
fn entries_keep_their_order() {
    let entries = vec![entry("c", 1), entry("a", 2), entry("b", 3), entry("a", 2)];
    let rows = parse(&render(&entries));
    let paths: Vec<&str> = rows.iter().map(|row| row.0.as_str()).collect();
    assert_eq!(paths, vec!["c", "a", "b", "a"]);
}

#[test]
fn escaping_appends_to_what_is_there() {
    let mut out = String::from(">");
    append_escaped(&mut out, "say \"hi\"");
    assert_eq!(out, ">say \"\"hi\"\"");
}

#[test]
fn escaping_leaves_text_without_quotes_alone() {
    let mut out = String::new();
    append_escaped(&mut out, "/plain/path");
    assert_eq!(out, "/plain/path");
}

#[test]
fn a_line_ends_with_a_line_feed() {
    let mut out = String::new();
    append_line(&mut out, &entry("/p", 2));
    assert_eq!(out, "\"/p\",2\n");
}

#[test]
fn escaping_agrees_with_the_standard_replace() {
    for path in ["", "\"", "a\"b\"c", "no quotes", "\"\"\"", "tail\""] {
        let mut out = String::new();
        append_escaped(&mut out, path);
        assert_eq!(out, path.replace("\"", "\"\""));
    }
}
