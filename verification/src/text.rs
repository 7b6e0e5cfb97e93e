//! Searching in text, character by character.

use vstd::prelude::*;

verus! {

/// `pattern` stands in `text` at offset `at`.
pub open spec fn occurs_at(text: Seq<char>, pattern: Seq<char>, at: int) -> bool {
    &&& 0 <= at
    &&& at + pattern.len() <= text.len()
    &&& text.subrange(at, at + pattern.len()) == pattern
}

/// `pattern` stands somewhere in `text`.
pub open spec fn contains_text(text: Seq<char>, pattern: Seq<char>) -> bool {
    exists|at: int| occurs_at(text, pattern, at)
}

/// The first line of `text`: what stands before its first line feed, or all
/// of it where it has none.
pub open spec fn first_line(text: Seq<char>) -> Seq<char> {
    match text.index_of_first('\n') {
        Some(end) => text.take(end),
        None => text,
    }
}

/// The characters of `text`, in order.
pub(crate) fn characters(text: &str) -> (chars: Vec<char>)
    ensures
        chars@ == text@,
{
    let mut chars: Vec<char> = Vec::new();
    for c in it: text.chars()
        invariant
            it.seq() == text@,
            chars@ == text@.take(it.index() as int),
    {
        chars.push(c);
    }
    chars
}

/// Whether `pattern` stands in `chars` at offset `at`.
pub(crate) fn stands_at(chars: &Vec<char>, at: usize, pattern: &Vec<char>) -> (found: bool)
    requires
        at + pattern.len() <= chars.len(),
    ensures
        found == (chars@.subrange(at as int, at + pattern.len()) == pattern@),
{
    let mut i: usize = 0;
    while i < pattern.len()
        invariant
            i <= pattern.len(),
            at + pattern.len() <= chars.len(),
            forall|j: int| 0 <= j < i ==> chars@[at + j] == pattern@[j],
        decreases pattern.len() - i,
    {
        if chars[at + i] != pattern[i] {
            assert(chars@.subrange(at as int, at + pattern.len())[i as int] != pattern@[i as int]);
            return false;
        }
        i += 1;
    }
    assert(chars@.subrange(at as int, at + pattern.len()) =~= pattern@);
    true
}

/// Whether `pattern` stands somewhere in the part of `chars` from `from`
/// up to, and without, `to`.
pub(crate) fn stands_within(
    chars: &Vec<char>,
    from: usize,
    to: usize,
    pattern: &Vec<char>,
) -> (found: bool)
    requires
        from <= to <= chars.len(),
    ensures
        found == contains_text(chars@.subrange(from as int, to as int), pattern@),
{
    let ghost part = chars@.subrange(from as int, to as int);
    if pattern.len() == 0 {
        assert(part.subrange(0, 0) =~= pattern@);
        assert(occurs_at(part, pattern@, 0));
        return true;
    }
    if pattern.len() > to - from {
        assert(forall|at: int| !occurs_at(part, pattern@, at));
        return false;
    }
    let last: usize = to - pattern.len();
    let mut at: usize = from;
    while at <= last
        invariant
            from <= at <= last + 1,
            last + pattern.len() == to,
            pattern.len() > 0,
            to <= chars.len(),
            part == chars@.subrange(from as int, to as int),
            forall|k: int| 0 <= k < at - from ==> !occurs_at(part, pattern@, k),
        decreases last + 1 - at,
    {
        if stands_at(chars, at, pattern) {
            assert(part.subrange(at - from, at - from + pattern.len()) =~= chars@.subrange(
                at as int,
                at + pattern.len(),
            ));
            assert(occurs_at(part, pattern@, at - from));
            return true;
        }
        assert(!occurs_at(part, pattern@, at - from)) by {
            assert(part.subrange(at - from, at - from + pattern.len()) =~= chars@.subrange(
                at as int,
                at + pattern.len(),
            ));
        }
        at += 1;
    }
    assert(forall|k: int| !occurs_at(part, pattern@, k));
    false
}

/// Where the line that begins at `start` ends: at the next line feed, or
/// at the end of `chars`.
pub(crate) fn line_end(chars: &Vec<char>, start: usize) -> (end: usize)
    requires
        start <= chars.len(),
    ensures
        start <= end <= chars.len(),
        chars@.subrange(start as int, end as int) == first_line(chars@.skip(start as int)),
        chars@.skip(start as int).index_of_first('\n') == (if end < chars.len() {
            Some(end - start)
        } else {
            None
        }),
{
    let mut end: usize = start;
    while end < chars.len() && chars[end] != '\n'
        invariant
            start <= end <= chars.len(),
            forall|j: int| start <= j < end ==> chars@[j] != '\n',
        decreases chars.len() - end,
    {
        end += 1;
    }
    proof {
        let rest = chars@.skip(start as int);
        rest.index_of_first_ensures('\n');
        if end < chars.len() {
            assert(rest[end - start] == '\n');
            assert(rest.contains('\n'));
            assert(rest.take(end - start) =~= chars@.subrange(start as int, end as int));
        } else {
            assert(rest =~= chars@.subrange(start as int, end as int));
        }
    }
    end
}

/// The first place from `from` up to, and without, `to` at which `chars`
/// holds `wanted`.
pub(crate) fn first_within(chars: &Vec<char>, from: usize, to: usize, wanted: char) -> (place:
    Option<usize>)
    requires
        from <= to <= chars.len(),
    ensures
        match chars@.subrange(from as int, to as int).index_of_first(wanted) {
            Some(index) => place matches Some(at) && at == from + index,
            None => place is None,
        },
{
    let ghost part = chars@.subrange(from as int, to as int);
    let mut at: usize = from;
    while at < to
        invariant
            from <= at <= to <= chars.len(),
            part == chars@.subrange(from as int, to as int),
            forall|j: int| 0 <= j < at - from ==> part[j] != wanted,
        decreases to - at,
    {
        if chars[at] == wanted {
            proof {
                assert(part[at - from] == wanted);
                part.index_of_first_ensures(wanted);
            }
            return Some(at);
        }
        at += 1;
    }
    proof {
        part.index_of_first_ensures(wanted);
    }
    None
}

/// The last place from `from` up to, and without, `to` at which `chars`
/// holds `wanted`.
pub(crate) fn last_within(chars: &Vec<char>, from: usize, to: usize, wanted: char) -> (place:
    Option<usize>)
    requires
        from <= to <= chars.len(),
    ensures
        match chars@.subrange(from as int, to as int).index_of_last(wanted) {
            Some(index) => place matches Some(at) && at == from + index,
            None => place is None,
        },
{
    let ghost part = chars@.subrange(from as int, to as int);
    let mut at: usize = to;
    while at > from
        invariant
            from <= at <= to <= chars.len(),
            part == chars@.subrange(from as int, to as int),
            forall|j: int| at - from <= j < to - from ==> part[j] != wanted,
        decreases at,
    {
        at -= 1;
        if chars[at] == wanted {
            proof {
                assert(part[at - from] == wanted);
                part.index_of_last_ensures(wanted);
            }
            return Some(at);
        }
    }
    proof {
        part.index_of_last_ensures(wanted);
    }
    None
}

} // verus!
