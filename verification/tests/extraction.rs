use brew_last_updated::error::ApplicationError;
use brew_last_updated::extract::{
    extract_last_updated, extract_line, extract_timestamp, first_line, DATE_REGEX, LINE_REGEX,
};
use brew_last_updated::matching::{require_match, search, Search};

const CONFIG: &str = "HOMEBREW_VERSION: 4.2.0\nORIGIN: https://github.com/Homebrew/brew\nCore tap JSON: /some/path 12 Jan 03:04 UTC\nHOMEBREW_PREFIX: /opt/homebrew\n";

fn not_found(pattern: &str) -> ApplicationError {
    ApplicationError::PatternNotFound { pattern: String::from(pattern) }
}

#[test]
fn timestamp_is_extracted_from_the_label_line() {
    let text = "Core tap JSON: /some/path 12 Jan 03:04 UTC";
    assert_eq!(extract_last_updated(text), Ok(String::from("12 Jan 03:04 UTC")));
}

#[test]
fn timestamp_is_extracted_from_a_full_configuration() {
    assert_eq!(extract_last_updated(CONFIG), Ok(String::from("12 Jan 03:04 UTC")));
}

#[test]
fn extracted_timestamp_occurs_in_the_configuration() {
    let stamp = extract_last_updated(CONFIG).unwrap();
    assert!(CONFIG.contains(stamp.as_str()));
    let line = extract_line(CONFIG).unwrap();
    assert!(CONFIG.contains(line.as_str()));
    assert!(line.contains(stamp.as_str()));
}

#[test]
fn whole_label_line_is_returned() {
    assert_eq!(
        extract_line(CONFIG),
        Ok(String::from("Core tap JSON: /some/path 12 Jan 03:04 UTC"))
    );
}

#[test]
fn first_label_line_wins() {
    let text = "Core tap JSON: a 01 Feb 10:20 UTC\nCore tap JSON: b 02 Mar 11:21 UTC\n";
    assert_eq!(extract_line(text), Ok(String::from("Core tap JSON: a 01 Feb 10:20 UTC")));
    assert_eq!(extract_last_updated(text), Ok(String::from("01 Feb 10:20 UTC")));
}

#[test]
fn missing_label_line_is_pattern_not_found() {
    let text = "HOMEBREW_VERSION: 4.2.0\nCore tap HEAD: abcdef\n";
    assert_eq!(extract_last_updated(text), Err(not_found(LINE_REGEX)));
    assert_eq!(extract_line(text), Err(not_found(LINE_REGEX)));
}

#[test]
fn empty_text_has_no_label_line() {
    assert_eq!(extract_last_updated(""), Err(not_found(LINE_REGEX)));
}

#[test]
fn label_must_begin_its_line() {
    let text = "note: Core tap JSON: /some/path 12 Jan 03:04 UTC\n";
    assert_eq!(extract_last_updated(text), Err(not_found(LINE_REGEX)));
}

#[test]
fn label_with_nothing_after_it_is_not_matched() {
    assert_eq!(extract_line("Core tap JSON:"), Err(not_found(LINE_REGEX)));
    assert_eq!(extract_last_updated("Core tap JSON:"), Err(not_found(LINE_REGEX)));
    assert_eq!(extract_line("Core tap JSON:\n\n"), Err(not_found(LINE_REGEX)));
}

#[test]
fn label_followed_by_blanks_is_a_label_line() {
    assert_eq!(extract_line("Core tap JSON:  \n\n"), Ok(String::from("Core tap JSON:  ")));
    assert_eq!(extract_last_updated("Core tap JSON:  \n\n"), Err(not_found(DATE_REGEX)));
}

#[test]
fn label_line_is_cut_before_a_blank_line() {
    assert_eq!(
        extract_line("Core tap JSON: /some/path\n\nnext\n"),
        Ok(String::from("Core tap JSON: /some/path"))
    );
}

#[test]
fn a_value_on_the_line_after_the_label_is_not_on_the_label_line() {
    let text = "Core tap JSON:  \n/some/path 12 Jan 03:04 UTC\n";
    assert_eq!(extract_line(text), Ok(String::from("Core tap JSON:  ")));
    assert_eq!(extract_last_updated(text), Err(not_found(DATE_REGEX)));
}

#[test]
fn a_date_on_the_line_after_the_label_does_not_count() {
    let text = "Core tap JSON:\n12 Jan 03:04 UTC\n";
    assert_eq!(extract_line(text), Ok(String::from("Core tap JSON:")));
    assert_eq!(extract_last_updated(text), Err(not_found(DATE_REGEX)));
}

#[test]
fn a_date_split_over_two_lines_does_not_count() {
    let text = "Core tap JSON: /some/path 12 Jan\n03:04 UTC\n";
    assert_eq!(extract_line(text), Ok(String::from("Core tap JSON: /some/path 12 Jan")));
    assert_eq!(extract_last_updated(text), Err(not_found(DATE_REGEX)));
}

#[test]
fn only_the_first_label_line_is_searched() {
    let text = "Core tap JSON: /some/path\nCore tap JSON: /other 12 Jan 03:04 UTC\n";
    assert_eq!(extract_line(text), Ok(String::from("Core tap JSON: /some/path")));
    assert_eq!(extract_last_updated(text), Err(not_found(DATE_REGEX)));
}

#[test]
fn label_line_keeps_its_trailing_blanks() {
    assert_eq!(
        extract_line("x\nCore tap JSON: /some/path  \ny\n"),
        Ok(String::from("Core tap JSON: /some/path  "))
    );
}

#[test]
fn label_line_holds_no_line_feed() {
    let line = extract_line(CONFIG).unwrap();
    assert!(!line.contains('\n'));
}

#[test]
fn timestamp_is_found_before_a_carriage_return() {
    let text = "Core tap JSON: /some/path 12 Jan 03:04 UTC\r\nHOMEBREW_PREFIX: /opt\r\n";
    assert_eq!(extract_last_updated(text), Ok(String::from("12 Jan 03:04 UTC")));
}

#[test]
fn first_line_stops_at_the_first_line_feed() {
    assert_eq!(first_line("one\ntwo\nthree"), "one");
    assert_eq!(first_line("no line feed"), "no line feed");
    assert_eq!(first_line("ends here\n"), "ends here");
    assert_eq!(first_line("\nsecond"), "");
    assert_eq!(first_line(""), "");
    assert_eq!(first_line("\u{3b1}\u{3b2}\n\u{3b3}"), "\u{3b1}\u{3b2}");
}

#[test]
fn label_line_without_a_date_is_pattern_not_found() {
    let text = "Core tap JSON: /some/path\n";
    assert_eq!(extract_last_updated(text), Err(not_found(DATE_REGEX)));
}

#[test]
fn a_date_on_another_line_does_not_count() {
    let text = "Core tap last commit: 12 Jan 03:04 UTC\nCore tap JSON: /some/path\n";
    assert_eq!(extract_last_updated(text), Err(not_found(DATE_REGEX)));
}

#[test]
fn only_the_utc_marker_is_accepted() {
    let text = "Core tap JSON: /some/path 12 Jan 03:04 PST\n";
    assert_eq!(extract_last_updated(text), Err(not_found(DATE_REGEX)));
}

#[test]
fn day_needs_two_digits() {
    assert_eq!(extract_timestamp("on 1 Jan 03:04 UTC"), Err(not_found(DATE_REGEX)));
}

#[test]
fn first_timestamp_on_the_line_wins() {
    let line = "Core tap JSON: 05 May 06:07 UTC then 08 Aug 09:10 UTC";
    assert_eq!(extract_timestamp(line), Ok(String::from("05 May 06:07 UTC")));
}

#[test]
fn several_blanks_may_follow_the_day() {
    assert_eq!(extract_timestamp("x 05   May 06:07 UTC y"), Ok(String::from("05   May 06:07 UTC")));
}

#[test]
fn search_reports_the_match_and_not_the_haystack() {
    let hay = "before 12 Jan 03:04 UTC after";
    assert_eq!(search(DATE_REGEX, hay), Search::Found(String::from("12 Jan 03:04 UTC")));
}

#[test]
fn search_reports_absence() {
    assert_eq!(search("b+", "aaa"), Search::Absent);
}

#[test]
fn search_takes_the_leftmost_match() {
    assert_eq!(search("[0-9]+", "ab 123 cd 45"), Search::Found(String::from("123")));
}

#[test]
fn search_handles_text_beyond_ascii() {
    assert_eq!(search("β+", "ααββγ"), Search::Found(String::from("ββ")));
}

#[test]
fn search_reports_a_pattern_that_does_not_compile() {
    assert_eq!(search("foo(bar", "foo(bar"), Search::Invalid);
}

#[test]
fn invalid_pattern_becomes_an_error() {
    assert_eq!(
        require_match("foo(bar", search("foo(bar", "text")),
        Err(ApplicationError::InvalidPattern)
    );
    assert_eq!(require_match("x", Search::Invalid), Err(ApplicationError::InvalidPattern));
}

#[test]
fn absent_match_names_the_pattern() {
    assert_eq!(require_match("b+", Search::Absent), Err(not_found("b+")));
}

#[test]
fn found_match_is_handed_on() {
    assert_eq!(
        require_match("b+", Search::Found(String::from("bb"))),
        Ok(String::from("bb"))
    );
}

#[test]
fn both_patterns_compile() {
    assert!(search(LINE_REGEX, "") != Search::Invalid);
    assert!(search(DATE_REGEX, "") != Search::Invalid);
}
