//! The extractor: from the text of a profile page to the text of the data
//! that the page embeds.
//!
//! The page is scanned, not parsed: the data stands on one line, after a
//! marker, between the first opening brace and the last closing brace of
//! that line. Braces are not matched up, so a page that puts more braces
//! behind the data on the same line yields text that is no JSON document;
//! the decoder will then refuse it.

use crate::error::{outcome, ScrapeError, ScrapeErrorView};
use crate::text::{
    characters, contains_text, first_line, first_within, last_within, line_end, occurs_at,
    stands_within,
};
use vstd::prelude::*;

verus! {

/// What marks the line of a page on which the embedded data is assigned.
pub open spec fn marker() -> Seq<char> {
    "window._sharedData ="@
}

/// The first line of `page` in which the marker stands, if there is one.
/// Lines end at a line feed; a carriage return before it counts as the last
/// character of the line.
pub open spec fn marked_line(page: Seq<char>) -> Option<Seq<char>>
    decreases page.len(),
{
    if contains_text(first_line(page), marker()) {
        Some(first_line(page))
    } else {
        match page.index_of_first('\n') {
            Some(end) => {
                proof {
                    page.index_of_first_ensures('\n');
                }
                marked_line(page.skip(end + 1))
            },
            None => None,
        }
    }
}

/// What `line` holds from its first opening brace to its last closing
/// brace, both included. There is no such text where either is missing, or
/// where the last closing brace stands before the first opening one.
pub open spec fn braced(line: Seq<char>) -> Option<Seq<char>> {
    match (line.index_of_first('{'), line.index_of_last('}')) {
        (Some(open), Some(close)) => if open <= close {
            Some(line.subrange(open, close + 1))
        } else {
            None
        },
        _ => None,
    }
}

/// The text of the data that `page` embeds.
pub open spec fn embedded_json(page: Seq<char>) -> Result<Seq<char>, ScrapeErrorView> {
    match marked_line(page) {
        None => Err(ScrapeErrorView::ProfileDataNotFound),
        Some(line) => match braced(line) {
            Some(text) => Ok(text),
            None => Err(ScrapeErrorView::ProfileDataDecodeFailed),
        },
    }
}

/// A page of which `line` is one line: after the lines of `before`, if
/// there are any, and before those of `after`, if there are any.
pub open spec fn page_around(
    before: Option<Seq<char>>,
    line: Seq<char>,
    after: Option<Seq<char>>,
) -> Seq<char> {
    let above = match before {
        Some(text) => text.push('\n'),
        None => Seq::empty(),
    };
    let below = match after {
        Some(text) => seq!['\n'] + text,
        None => Seq::empty(),
    };
    above + line + below
}

/// The marker holds no line feed.
proof fn lemma_marker_is_one_line()
    ensures
        !marker().contains('\n'),
        marker().len() == 20,
{
    reveal_strlit("window._sharedData =");
}

/// Text that stands in a part of `text` stands in `text`.
proof fn lemma_part_contains(text: Seq<char>, from: int, to: int, pattern: Seq<char>)
    requires
        0 <= from <= to <= text.len(),
        contains_text(text.subrange(from, to), pattern),
    ensures
        contains_text(text, pattern),
{
    let part = text.subrange(from, to);
    let at = choose|at: int| occurs_at(part, pattern, at);
    assert(text.subrange(from + at, from + at + pattern.len()) =~= part.subrange(
        at,
        at + pattern.len(),
    ));
    assert(occurs_at(text, pattern, from + at));
}

/// A page has a line that holds the marker exactly when the marker stands
/// somewhere in the page.
pub proof fn lemma_marked_line_exists(page: Seq<char>)
    ensures
        marked_line(page) is Some <==> contains_text(page, marker()),
    decreases page.len(),
{
    lemma_marker_is_one_line();
    page.index_of_first_ensures('\n');
    match page.index_of_first('\n') {
        Some(end) => {
            let rest = page.skip(end + 1);
            lemma_marked_line_exists(rest);
            if contains_text(first_line(page), marker()) {
                lemma_part_contains(page, 0, end, marker());
            } else if contains_text(rest, marker()) {
                lemma_part_contains(page, end + 1, page.len() as int, marker());
            } else if contains_text(page, marker()) {
                let at = choose|at: int| occurs_at(page, marker(), at);
                if at + marker().len() <= end {
                    assert(first_line(page).subrange(at, at + marker().len()) =~= page.subrange(
                        at,
                        at + marker().len(),
                    ));
                    assert(occurs_at(first_line(page), marker(), at));
                } else if at > end {
                    assert(rest.subrange(at - end - 1, at - end - 1 + marker().len())
                        =~= page.subrange(at, at + marker().len()));
                    assert(occurs_at(rest, marker(), at - end - 1));
                } else {
                    assert(page.subrange(at, at + marker().len())[end - at] == '\n');
                    assert(marker().contains('\n'));
                }
            }
        },
        None => {},
    }
}

/// What stands on the lines above the marked line does not matter: where
/// no line of `above` holds the marker, the marked line of `above`, a line
/// feed and `rest` is that of `rest`.
pub proof fn lemma_unmarked_lines_are_passed(above: Seq<char>, rest: Seq<char>)
    requires
        marked_line(above) is None,
    ensures
        marked_line(above.push('\n') + rest) == marked_line(rest),
    decreases above.len(),
{
    let page = above.push('\n') + rest;
    above.index_of_first_ensures('\n');
    page.index_of_first_ensures('\n');
    match above.index_of_first('\n') {
        Some(end) => {
            assert(page[end] == '\n');
            assert(forall|j: int| 0 <= j < end ==> page[j] == above[j]);
            assert(page.index_of_first('\n') == Some(end));
            assert(first_line(page) =~= first_line(above));
            lemma_unmarked_lines_are_passed(above.skip(end + 1), rest);
            assert(page.skip(end + 1) =~= above.skip(end + 1).push('\n') + rest);
        },
        None => {
            assert(page[above.len() as int] == '\n');
            assert(forall|j: int| 0 <= j < above.len() ==> page[j] == above[j]);
            assert(page.index_of_first('\n') == Some(above.len() as int));
            assert(first_line(page) =~= above);
            assert(page.skip(above.len() as int + 1) =~= rest);
        },
    }
}

/// Of a line that reads `head`, `{`, `inner`, `}`, `tail`, with no opening
/// brace in `head` and no closing brace in `tail`, the braced text is `{`,
/// `inner`, `}`, whatever braces `inner` holds.
pub proof fn lemma_braced_text(head: Seq<char>, inner: Seq<char>, tail: Seq<char>)
    requires
        !head.contains('{'),
        !tail.contains('}'),
    ensures
        braced(head.push('{') + inner.push('}') + tail) == Some(seq!['{'] + inner.push('}')),
{
    let line = head.push('{') + inner.push('}') + tail;
    let open = head.len() as int;
    let close = open + 1 + inner.len();
    line.index_of_first_ensures('{');
    line.index_of_last_ensures('}');
    assert(line[open] == '{');
    assert(line[close] == '}');
    assert forall|j: int| 0 <= j < open implies line[j] != '{' by {
        assert(line[j] == head[j]);
    }
    assert forall|j: int| close < j < line.len() implies line[j] != '}' by {
        assert(line[j] == tail[j - close - 1]);
    }
    assert(line.index_of_first('{') == Some(open));
    assert(line.index_of_last('}') == Some(close));
    assert(line.subrange(open, close + 1) =~= seq!['{'] + inner.push('}'));
}

/// The text between the braces of the marked line is what is extracted.
///
/// Take a page whose first line to hold the marker reads `head`, `{`,
/// `inner`, `}`, `tail`, with no opening brace in `head` and no closing
/// brace in `tail`. The text extracted from it is `{`, `inner`, `}`.
pub proof fn lemma_extracts_text_between_braces(
    before: Option<Seq<char>>,
    head: Seq<char>,
    inner: Seq<char>,
    tail: Seq<char>,
    after: Option<Seq<char>>,
)
    requires
        before matches Some(above) ==> marked_line(above) is None,
        !(head.push('{') + inner.push('}') + tail).contains('\n'),
        contains_text(head.push('{') + inner.push('}') + tail, marker()),
        !head.contains('{'),
        !tail.contains('}'),
    ensures
        embedded_json(page_around(before, head.push('{') + inner.push('}') + tail, after)) == Ok::<
            Seq<char>,
            ScrapeErrorView,
        >(seq!['{'] + inner.push('}')),
{
    let line = head.push('{') + inner.push('}') + tail;
    let below = match after {
        Some(text) => seq!['\n'] + text,
        None => Seq::empty(),
    };
    let rest = line + below;
    rest.index_of_first_ensures('\n');
    assert(forall|j: int| 0 <= j < line.len() ==> rest[j] == line[j]);
    assert(first_line(rest) =~= line) by {
        if after is Some {
            assert(rest[line.len() as int] == '\n');
            assert(rest.index_of_first('\n') == Some(line.len() as int));
        } else {
            assert(rest =~= line);
        }
    }
    assert(marked_line(rest) == Some(line));
    match before {
        Some(above) => {
            lemma_unmarked_lines_are_passed(above, rest);
            assert(page_around(before, line, after) =~= above.push('\n') + rest);
        },
        None => {
            assert(page_around(before, line, after) =~= rest);
        },
    }
    lemma_braced_text(head, inner, tail);
}

/// Where the marker stands nowhere in a page, no data is found in it, and
/// only there.
pub proof fn lemma_data_not_found(page: Seq<char>)
    ensures
        embedded_json(page) == Err::<Seq<char>, ScrapeErrorView>(
            ScrapeErrorView::ProfileDataNotFound,
        ) <==> !contains_text(page, marker()),
{
    lemma_marked_line_exists(page);
}

/// Where the marked line of a page lacks an opening brace or a closing
/// brace, the data cannot be taken from it.
pub proof fn lemma_data_without_brace(page: Seq<char>, line: Seq<char>)
    requires
        marked_line(page) == Some(line),
        !line.contains('{') || !line.contains('}'),
    ensures
        embedded_json(page) == Err::<Seq<char>, ScrapeErrorView>(
            ScrapeErrorView::ProfileDataDecodeFailed,
        ),
{
    line.index_of_first_ensures('{');
    line.index_of_last_ensures('}');
}

/// Finds the data that a profile page embeds, and returns its text.
///
/// The page is scanned line by line for the first line that holds the
/// marker. Of that line the text from the first `{` to the last `}` is
/// returned as it stands: braces inside it are not matched up.
pub fn extract_instagram_json_text(body: &str) -> (json_text: Result<String, ScrapeError>)
    ensures
        outcome(json_text) == embedded_json(body@),
{
    let chars = characters(body);
    let sought = characters("window._sharedData =");
    let mut start: usize = 0;
    assert(chars@.skip(0) =~= body@);
    loop
        invariant
            start <= chars.len(),
            chars@ == body@,
            sought@ == marker(),
            marked_line(body@) == marked_line(chars@.skip(start as int)),
        decreases chars.len() - start,
    {
        let ghost rest = chars@.skip(start as int);
        let end = line_end(&chars, start);
        if stands_within(&chars, start, end, &sought) {
            let ghost line = chars@.subrange(start as int, end as int);
            assert(marked_line(rest) == Some(line));
            let open = first_within(&chars, start, end, '{');
            let close = last_within(&chars, start, end, '}');
            return match (open, close) {
                (Some(open), Some(close)) => {
                    if open <= close {
                        proof {
                            line.index_of_first_ensures('{');
                            line.index_of_last_ensures('}');
                            assert(line.subrange(open - start, close + 1 - start)
                                =~= body@.subrange(open as int, close + 1));
                        }
                        Ok(body.substring_char(open, close + 1).to_owned())
                    } else {
                        Err(ScrapeError::ProfileDataDecodeFailed)
                    }
                },
                _ => Err(ScrapeError::ProfileDataDecodeFailed),
            };
        }
        if end >= chars.len() {
            return Err(ScrapeError::ProfileDataNotFound);
        }
        assert(rest.skip(end - start + 1) =~= chars@.skip(end + 1));
        start = end + 1;
    }
}

} // verus!
