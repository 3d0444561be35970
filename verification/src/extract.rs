//! Locating the label line in the configuration text, and the timestamp on it.

use vstd::prelude::*;
use vstd::string::{StrSliceExecFns, StringExecFns};
use crate::error::{result_model, ApplicationError, ErrorModel};
use crate::matching::{
    is_slice_of, require_match, required_model, search, search_model, SearchModel,
};

verus! {

/// Matches, in multi-line mode, from a label at the start of a line to the
/// end of a line, with a value after the label. Its blanks may take line
/// feeds, so a match is cut at its first line feed to give the label line.
pub const LINE_REGEX: &'static str = r"(?m)^Core tap JSON:\s*(.+)\s*$";

/// Matches a day, a month name, hours and minutes, and the UTC marker.
pub const DATE_REGEX: &'static str = r"\d{2}\s+\w+\s\d{2}:\d{2}\sUTC";

/// `end` is where the first line of `text` ends: no line feed stands before
/// it, and it is the place of a line feed or the end of the text.
pub open spec fn is_line_end(text: Seq<char>, end: int) -> bool {
    &&& 0 <= end <= text.len()
    &&& forall|i: int| 0 <= i < end ==> text[i] != '\n'
    &&& end < text.len() ==> text[end] == '\n'
}

/// Where the first line of `text` ends.
pub open spec fn line_end(text: Seq<char>) -> int {
    choose|end: int| is_line_end(text, end)
}

/// The first line of `text`, without the line feed that ends it.
pub open spec fn first_line_of(text: Seq<char>) -> Seq<char> {
    text.subrange(0, line_end(text))
}

/// `text` holds no line feed.
pub open spec fn is_one_line(text: Seq<char>) -> bool {
    forall|i: int| 0 <= i < text.len() ==> text[i] != '\n'
}

/// The label line of `config`, or why there is none: what the label pattern
/// matches, up to the first line feed.
pub open spec fn line_model(config: Seq<char>) -> Result<Seq<char>, ErrorModel> {
    match required_model(LINE_REGEX@, search_model(LINE_REGEX@, config)) {
        Ok(found) => Ok(first_line_of(found)),
        Err(e) => Err(e),
    }
}

/// The first timestamp on `line`, or why there is none.
pub open spec fn timestamp_model(line: Seq<char>) -> Result<Seq<char>, ErrorModel> {
    required_model(DATE_REGEX@, search_model(DATE_REGEX@, line))
}

/// The timestamp on the label line of `config`: the line is located first,
/// and only that line is searched for the timestamp.
pub open spec fn last_updated_model(config: Seq<char>) -> Result<Seq<char>, ErrorModel> {
    match line_model(config) {
        Ok(line) => timestamp_model(line),
        Err(e) => Err(e),
    }
}

/// A piece of a piece of a text is a piece of that text.
pub proof fn lemma_slice_of_slice(inner: Seq<char>, middle: Seq<char>, outer: Seq<char>)
    requires
        is_slice_of(inner, middle),
        is_slice_of(middle, outer),
    ensures
        is_slice_of(inner, outer),
{
    let (a, b) = choose|a: int, b: int|
        0 <= a <= b <= middle.len() && inner == #[trigger] middle.subrange(a, b);
    let (c, d) = choose|c: int, d: int|
        0 <= c <= d <= outer.len() && middle == #[trigger] outer.subrange(c, d);
    assert(inner =~= outer.subrange(c + a, c + b));
}

/// A text with no line feed before `from` has a place where its first line
/// ends.
proof fn lemma_line_end_exists(text: Seq<char>, from: int)
    requires
        0 <= from <= text.len(),
        forall|i: int| 0 <= i < from ==> text[i] != '\n',
    ensures
        exists|end: int| is_line_end(text, end),
    decreases text.len() - from,
{
    if from == text.len() || text[from] == '\n' {
        assert(is_line_end(text, from));
    } else {
        lemma_line_end_exists(text, from + 1);
    }
}

/// Every text has exactly one place where its first line ends.
pub proof fn lemma_line_end_is_unique(text: Seq<char>, end: int)
    ensures
        is_line_end(text, line_end(text)),
        is_line_end(text, end) ==> end == line_end(text),
{
    lemma_line_end_exists(text, 0);
    let chosen = line_end(text);
    if is_line_end(text, end) {
        if chosen < end {
            assert(text[chosen] == '\n');
        } else if end < chosen {
            assert(text[end] == '\n');
        }
    }
}

/// The first line of a text holds no line feed and is a piece of the text.
pub proof fn lemma_first_line_is_one_line(text: Seq<char>)
    ensures
        is_one_line(first_line_of(text)),
        is_slice_of(first_line_of(text), text),
{
    lemma_line_end_is_unique(text, 0);
    let end = line_end(text);
    assert(first_line_of(text) == text.subrange(0, end));
}

/// Cuts `text` at its first line feed.
pub fn first_line(text: &str) -> (line: String)
    ensures
        line@ == first_line_of(text@),
        is_one_line(line@),
        is_slice_of(line@, text@),
{
    let len: usize = text.unicode_len();
    let mut end: usize = 0;
    while end < len && text.get_char(end) != '\n'
        invariant
            end <= len,
            len == text@.len(),
            forall|i: int| 0 <= i < end ==> text@[i] != '\n',
        decreases len - end,
    {
        end += 1;
    }
    proof {
        lemma_line_end_is_unique(text@, end as int);
        lemma_first_line_is_one_line(text@);
    }
    String::from_str(text.substring_char(0, end))
}

/// Finds the first line of `config` that begins with the label, and returns
/// the whole line. The match is cut at its first line feed, so what is
/// returned is one line whatever the search reports.
pub fn extract_line(config: &str) -> (res: Result<String, ApplicationError>)
    ensures
        result_model(res) == line_model(config@),
        res matches Ok(line) ==> is_one_line(line@) && is_slice_of(line@, config@),
{
    let outcome = search(LINE_REGEX, config);
    match require_match(LINE_REGEX, outcome) {
        Ok(found) => {
            let line = first_line(found.as_str());
            proof {
                lemma_slice_of_slice(line@, found@, config@);
            }
            Ok(line)
        },
        Err(e) => Err(e),
    }
}

/// Finds the first timestamp on `line`.
pub fn extract_timestamp(line: &str) -> (res: Result<String, ApplicationError>)
    ensures
        result_model(res) == timestamp_model(line@),
        res matches Ok(stamp) ==> is_slice_of(stamp@, line@),
{
    require_match(DATE_REGEX, search(DATE_REGEX, line))
}

/// Extracts from the configuration text the timestamp on its label line.
pub fn extract_last_updated(config: &str) -> (res: Result<String, ApplicationError>)
    ensures
        result_model(res) == last_updated_model(config@),
        res matches Ok(stamp) ==> line_model(config@) matches Ok(line) && is_one_line(line)
            && is_slice_of(stamp@, line) && is_slice_of(line, config@),
        res matches Ok(stamp) ==> is_slice_of(stamp@, config@),
{
    match extract_line(config) {
        Ok(line) => {
            let res = extract_timestamp(line.as_str());
            proof {
                if let Ok(stamp) = &res {
                    lemma_slice_of_slice(stamp@, line@, config@);
                }
            }
            res
        },
        Err(e) => Err(e),
    }
}

/// Where the label pattern matches nowhere in the text, extraction fails with
/// "pattern not found" for the label pattern.
pub proof fn lemma_missing_line_is_reported(config: Seq<char>)
    requires
        search_model(LINE_REGEX@, config) == SearchModel::Absent,
    ensures
        last_updated_model(config) == Err::<Seq<char>, ErrorModel>(
            ErrorModel::PatternNotFound { pattern: LINE_REGEX@ },
        ),
{
}

/// Where the label pattern matches and the date pattern matches nowhere on
/// the first line of that match, extraction fails with "pattern not found" for
/// the date pattern, whatever follows that line.
pub proof fn lemma_missing_timestamp_is_reported(config: Seq<char>, found: Seq<char>)
    requires
        search_model(LINE_REGEX@, config) == SearchModel::Found(found),
        search_model(DATE_REGEX@, first_line_of(found)) == SearchModel::Absent,
    ensures
        last_updated_model(config) == Err::<Seq<char>, ErrorModel>(
            ErrorModel::PatternNotFound { pattern: DATE_REGEX@ },
        ),
{
}

/// Where the label pattern matches and the date pattern matches on the first
/// line of that match, the text of the date match is the result.
pub proof fn lemma_timestamp_on_line_is_returned(
    config: Seq<char>,
    found: Seq<char>,
    stamp: Seq<char>,
)
    requires
        search_model(LINE_REGEX@, config) == SearchModel::Found(found),
        search_model(DATE_REGEX@, first_line_of(found)) == SearchModel::Found(stamp),
    ensures
        last_updated_model(config) == Ok::<Seq<char>, ErrorModel>(stamp),
{
}

/// The label line is one line: it holds no line feed, and the timestamp is
/// sought in it alone.
pub proof fn lemma_label_line_is_one_line(config: Seq<char>)
    ensures
        line_model(config) matches Ok(line) ==> is_one_line(line) && last_updated_model(config)
            == timestamp_model(line),
{
    if let Ok(found) = required_model(LINE_REGEX@, search_model(LINE_REGEX@, config)) {
        lemma_first_line_is_one_line(found);
    }
}

} // verus!
