use docbrowse::metadata::{extract_metadata, parse_field};

#[test]
fn parse_field_takes_value_after_colon() {
    assert_eq!(parse_field("Author                          : Jane Doe\n", "Author"), "Jane Doe");
}

#[test]
fn parse_field_trims_value() {
    assert_eq!(parse_field("PageCount:   12  \r\n", "PageCount"), "12");
}

#[test]
fn parse_field_takes_first_match() {
    let raw = "Title : T\nAuthor : First\nAuthor : Second\n";
    assert_eq!(parse_field(raw, "Author"), "First");
}

#[test]
fn parse_field_matches_inside_a_line() {
    assert_eq!(parse_field("  Author :X", "Author"), "X");
}

#[test]
fn parse_field_without_match_is_unknown() {
    assert_eq!(parse_field("Title : Something\nPageCount : 3\n", "Author"), "Unknown");
    assert_eq!(parse_field("", "Author"), "Unknown");
}

#[test]
fn parse_field_needs_colon_after_name() {
    assert_eq!(parse_field("Author is Jane\n", "Author"), "Unknown");
    assert_eq!(parse_field("Author is Jane\nAuthor: Joe", "Author"), "Joe");
}

#[test]
fn parse_field_blank_value_is_unknown() {
    assert_eq!(parse_field("Author :   \nAuthor : Late\n", "Author"), "Unknown");
}

#[test]
fn parse_field_value_ends_at_line_break() {
    assert_eq!(parse_field("Author : A B\nPageCount : 7", "Author"), "A B");
    assert_eq!(parse_field("Author : A B\nPageCount : 7", "PageCount"), "7");
}

#[test]
fn parse_field_colon_may_not_follow_line_break() {
    assert_eq!(parse_field("Author\n: Jane", "Author"), "Unknown");
}

#[test]
fn extract_metadata_reads_both_fields() {
    let m = extract_metadata("Author                          : Ann\nPageCount                       : 42\n", true);
    assert_eq!(m.author, "Ann");
    assert_eq!(m.total_pages, "42");
}

#[test]
fn extract_metadata_without_author_line_is_unknown() {
    let m = extract_metadata("PageCount : 5\n", true);
    assert_eq!(m.author, "Unknown");
    assert_eq!(m.total_pages, "5");
}

#[test]
fn extract_metadata_after_tool_failure_is_unknown() {
    let m = extract_metadata("Author : Ann\nPageCount : 42\n", false);
    assert_eq!(m.author, "Unknown");
    assert_eq!(m.total_pages, "Unknown");
}
