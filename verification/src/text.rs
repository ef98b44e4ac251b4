//! Text building blocks shared by the log lines and replies of the crate.

use vstd::prelude::*;
use vstd::std_specs::iter::IteratorSpec;
use vstd::string::*;

verus! {

/// The character that stands for the decimal digit `d`.
pub open spec fn digit_char(d: nat) -> char {
    if d == 0 {
        '0'
    } else if d == 1 {
        '1'
    } else if d == 2 {
        '2'
    } else if d == 3 {
        '3'
    } else if d == 4 {
        '4'
    } else if d == 5 {
        '5'
    } else if d == 6 {
        '6'
    } else if d == 7 {
        '7'
    } else if d == 8 {
        '8'
    } else {
        '9'
    }
}

/// The decimal notation of `n`, without sign, padding or leading zeros.
pub open spec fn decimal(n: nat) -> Seq<char>
    decreases n,
{
    if n < 10 {
        seq![digit_char(n)]
    } else {
        decimal(n / 10).push(digit_char(n % 10))
    }
}

/// The one-character text of a single decimal digit.
fn digit_text(d: u64) -> (s: &'static str)
    requires
        d < 10,
    ensures
        s@ == seq![digit_char(d as nat)],
{
    proof {
        reveal_strlit("0");
        reveal_strlit("1");
        reveal_strlit("2");
        reveal_strlit("3");
        reveal_strlit("4");
        reveal_strlit("5");
        reveal_strlit("6");
        reveal_strlit("7");
        reveal_strlit("8");
        reveal_strlit("9");
    }
    let s: &'static str = if d == 0 {
        "0"
    } else if d == 1 {
        "1"
    } else if d == 2 {
        "2"
    } else if d == 3 {
        "3"
    } else if d == 4 {
        "4"
    } else if d == 5 {
        "5"
    } else if d == 6 {
        "6"
    } else if d == 7 {
        "7"
    } else if d == 8 {
        "8"
    } else {
        "9"
    };
    s
}

/// Writes `n` in decimal notation.
pub fn decimal_text(n: u64) -> (s: String)
    ensures
        s@ == decimal(n as nat),
    decreases n,
{
    if n < 10 {
        String::from_str(digit_text(n))
    } else {
        let mut s = decimal_text(n / 10);
        s.append(digit_text(n % 10));
        s
    }
}

/// Whether `c` is white space, as Unicode's property White_Space has it.
pub open spec fn is_white_space(c: char) -> bool {
    ||| c == ' '
    ||| '\u{9}' <= c <= '\u{d}'
    ||| c == '\u{85}'
    ||| c == '\u{a0}'
    ||| c == '\u{1680}'
    ||| '\u{2000}' <= c <= '\u{200a}'
    ||| c == '\u{2028}'
    ||| c == '\u{2029}'
    ||| c == '\u{202f}'
    ||| c == '\u{205f}'
    ||| c == '\u{3000}'
}

/// The number of characters of `text` that stand before its first `stop`, or
/// its length where it holds none.
pub open spec fn until(text: Seq<char>, stop: char) -> nat
    decreases text.len(),
{
    if text.len() == 0 || text[0] == stop {
        0
    } else {
        1 + until(text.skip(1), stop)
    }
}

/// `text` without the white space at its start.
pub open spec fn trimmed_start(text: Seq<char>) -> Seq<char>
    decreases text.len(),
{
    if text.len() > 0 && is_white_space(text[0]) {
        trimmed_start(text.skip(1))
    } else {
        text
    }
}

/// `text` without the white space at its end.
pub open spec fn trimmed_end(text: Seq<char>) -> Seq<char>
    decreases text.len(),
{
    if text.len() > 0 && is_white_space(text.last()) {
        trimmed_end(text.drop_last())
    } else {
        text
    }
}

/// `text` without the white space at both ends.
pub open spec fn trimmed(text: Seq<char>) -> Seq<char> {
    trimmed_end(trimmed_start(text))
}

/// The first line of `text`, without its line ending. A line ends at a line
/// feed; a carriage return right before that line feed belongs to the ending.
pub open spec fn first_line(text: Seq<char>) -> Seq<char> {
    let n = until(text, '\n') as int;
    if 0 < n < text.len() && text[n - 1] == '\r' {
        text.take(n - 1)
    } else {
        text.take(n)
    }
}

/// What follows the first line of `text` and its line ending.
pub open spec fn after_first_line(text: Seq<char>) -> Seq<char> {
    let n = until(text, '\n') as int;
    if n < text.len() {
        text.skip(n + 1)
    } else {
        Seq::empty()
    }
}

/// The first line of `text` that begins with `prefix`.
pub open spec fn first_line_with(text: Seq<char>, prefix: Seq<char>) -> Option<Seq<char>>
    decreases text.len(),
{
    if text.len() == 0 {
        None
    } else if prefix.is_prefix_of(first_line(text)) {
        Some(first_line(text))
    } else {
        proof {
            lemma_until_bounded(text, '\n');
        }
        first_line_with(after_first_line(text), prefix)
    }
}

/// The part of `line` between its first and its second `separator`, or from
/// the first to the end where there is no second; none where there is no
/// first.
pub open spec fn second_field(line: Seq<char>, separator: char) -> Option<Seq<char>> {
    let first = until(line, separator) as int;
    if first >= line.len() {
        None
    } else {
        let rest = line.skip(first + 1);
        Some(rest.take(until(rest, separator) as int))
    }
}

/// `text` with every occurrence of `pattern` taken out, found from left to
/// right without overlap.
pub open spec fn without(text: Seq<char>, pattern: Seq<char>) -> Seq<char>
    decreases text.len(),
{
    if text.len() == 0 {
        text
    } else if pattern.len() > 0 && pattern.is_prefix_of(text) {
        without(text.skip(pattern.len() as int), pattern)
    } else {
        seq![text[0]] + without(text.skip(1), pattern)
    }
}

/// `until` stays within the text, and the character it stops at is `stop`.
pub proof fn lemma_until_bounded(text: Seq<char>, stop: char)
    ensures
        until(text, stop) <= text.len(),
        until(text, stop) < text.len() ==> text[until(text, stop) as int] == stop,
        forall|i: int| 0 <= i < until(text, stop) ==> text[i] != stop,
    decreases text.len(),
{
    if text.len() > 0 && text[0] != stop {
        lemma_until_bounded(text.skip(1), stop);
        assert forall|i: int| 0 <= i < until(text, stop) implies text[i] != stop by {
            if i > 0 {
                assert(text.skip(1)[i - 1] == text[i]);
            }
        }
    }
}

/// Whether `c` is white space.
pub fn is_space(c: char) -> (space: bool)
    ensures
        space == is_white_space(c),
{
    c == ' ' || ('\u{9}' <= c && c <= '\u{d}') || c == '\u{85}' || c == '\u{a0}' || c
        == '\u{1680}' || ('\u{2000}' <= c && c <= '\u{200a}') || c == '\u{2028}' || c
        == '\u{2029}' || c == '\u{202f}' || c == '\u{205f}' || c == '\u{3000}'
}

/// The characters of `text`, one by one.
pub fn chars_of(text: &str) -> (chars: Vec<char>)
    ensures
        chars@ == text@,
{
    let mut chars: Vec<char> = Vec::new();
    let mut rest = text.chars();
    proof {
        broadcast use axiom_spec_iter;
    }
    loop
        invariant
            rest.obeys_prophetic_iter_laws(),
            chars@ + rest.remaining() == text@,
            rest.decrease() is Some,
        ensures
            chars@ == text@,
        decreases rest.decrease()->0,
    {
        proof {
            broadcast use next_postcondition;
        }
        match rest.next() {
            Some(c) => {
                chars.push(c);
            },
            None => {
                break;
            },
        }
    }
    chars
}

/// Finds the first `stop` in the part of `chars` from `from` up to `to`, or
/// `to` where there is none.
pub fn scan_until(chars: &Vec<char>, from: usize, to: usize, stop: char) -> (at: usize)
    requires
        from <= to <= chars@.len(),
    ensures
        from <= at <= to,
        at == from + until(chars@.subrange(from as int, to as int), stop),
{
    let mut at: usize = from;
    while at < to && chars[at] != stop
        invariant
            from <= at <= to <= chars@.len(),
            until(chars@.subrange(from as int, to as int), stop) == (at - from) + until(
                chars@.subrange(at as int, to as int),
                stop,
            ),
        decreases to - at,
    {
        assert(chars@.subrange(at as int, to as int).skip(1) =~= chars@.subrange(
            at + 1,
            to as int,
        ));
        at = at + 1;
    }
    at
}

/// Whether the part of `chars` from `from` up to `to` begins with `prefix`.
pub fn begins_with(chars: &Vec<char>, from: usize, to: usize, prefix: &Vec<char>) -> (begins: bool)
    requires
        from <= to <= chars@.len(),
    ensures
        begins == prefix@.is_prefix_of(chars@.subrange(from as int, to as int)),
{
    if prefix.len() > to - from {
        return false;
    }
    let mut i: usize = 0;
    while i < prefix.len()
        invariant
            from <= to <= chars@.len(),
            prefix@.len() <= to - from,
            i <= prefix@.len(),
            forall|j: int| 0 <= j < i ==> prefix@[j] == chars@[from + j],
        decreases prefix@.len() - i,
    {
        if prefix[i] != chars[from + i] {
            return false;
        }
        i = i + 1;
    }
    true
}

/// Narrows the part of `chars` from `from` up to `to` to what is left of it
/// without the white space at its ends.
pub fn trim_range(chars: &Vec<char>, from: usize, to: usize) -> (kept: (usize, usize))
    requires
        from <= to <= chars@.len(),
    ensures
        from <= kept.0 <= kept.1 <= to,
        chars@.subrange(kept.0 as int, kept.1 as int) == trimmed(
            chars@.subrange(from as int, to as int),
        ),
{
    let mut start: usize = from;
    while start < to && is_space(chars[start])
        invariant
            from <= start <= to <= chars@.len(),
            trimmed_start(chars@.subrange(from as int, to as int)) == trimmed_start(
                chars@.subrange(start as int, to as int),
            ),
        decreases to - start,
    {
        assert(chars@.subrange(start as int, to as int).skip(1) =~= chars@.subrange(
            start + 1,
            to as int,
        ));
        start = start + 1;
    }
    let mut end: usize = to;
    while start < end && is_space(chars[end - 1])
        invariant
            start <= end <= to <= chars@.len(),
            trimmed_end(chars@.subrange(start as int, to as int)) == trimmed_end(
                chars@.subrange(start as int, end as int),
            ),
        decreases end - start,
    {
        assert(chars@.subrange(start as int, end as int).drop_last() =~= chars@.subrange(
            start as int,
            end - 1,
        ));
        end = end - 1;
    }
    (start, end)
}

/// Finds the first line that begins with `prefix` in `chars`, and returns
/// where it begins and where it ends.
pub fn find_line_with(chars: &Vec<char>, prefix: &Vec<char>) -> (found: Option<(usize, usize)>)
    ensures
        match found {
            Some((from, to)) => from <= to <= chars@.len() && first_line_with(chars@, prefix@)
                == Some(chars@.subrange(from as int, to as int)),
            None => first_line_with(chars@, prefix@) is None,
        },
{
    let len: usize = chars.len();
    let mut start: usize = 0;
    assert(chars@.skip(0) =~= chars@);
    while start < len
        invariant
            start <= len == chars@.len(),
            first_line_with(chars@, prefix@) == first_line_with(chars@.skip(start as int), prefix@),
        decreases len - start,
    {
        let ghost rest = chars@.skip(start as int);
        let stop: usize = scan_until(chars, start, len, '\n');
        let end: usize = if start < stop && stop < len && chars[stop - 1] == '\r' {
            stop - 1
        } else {
            stop
        };
        if begins_with(chars, start, end, prefix) {
            return Some((start, end));
        }
        let next: usize = if stop < len {
            stop + 1
        } else {
            len
        };
        assert(after_first_line(rest) =~= chars@.skip(next as int));
        start = next;
    }
    None
}

/// Appends a character with `String::push`, which adds it at the end and
/// leaves the rest as it is.
#[verifier::external_body]
fn push_char(text: &mut String, c: char)
    ensures
        final(text)@ == old(text)@.push(c),
{
    text.push(c);
}

/// The part of `chars` from `from` up to `to`, as a text.
pub fn text_of(chars: &Vec<char>, from: usize, to: usize) -> (text: String)
    requires
        from <= to <= chars@.len(),
    ensures
        text@ == chars@.subrange(from as int, to as int),
{
    let mut text = String::new();
    let mut i: usize = from;
    while i < to
        invariant
            from <= i <= to <= chars@.len(),
            text@ == chars@.subrange(from as int, i as int),
        decreases to - i,
    {
        push_char(&mut text, chars[i]);
        i = i + 1;
    }
    text
}

/// The part of `chars` from `from` up to `to` with every occurrence of
/// `pattern` taken out, as a text.
pub fn text_without(chars: &Vec<char>, from: usize, to: usize, pattern: &Vec<char>) -> (text: String)
    requires
        from <= to <= chars@.len(),
    ensures
        text@ == without(chars@.subrange(from as int, to as int), pattern@),
{
    let mut text = String::new();
    let mut i: usize = from;
    while i < to
        invariant
            from <= i <= to <= chars@.len(),
            without(chars@.subrange(from as int, to as int), pattern@) == text@ + without(
                chars@.subrange(i as int, to as int),
                pattern@,
            ),
        decreases to - i,
    {
        let ghost rest = chars@.subrange(i as int, to as int);
        if pattern.len() > 0 && begins_with(chars, i, to, pattern) {
            assert(rest.skip(pattern@.len() as int) =~= chars@.subrange(
                i + pattern@.len(),
                to as int,
            ));
            i = i + pattern.len();
        } else {
            assert(rest.skip(1) =~= chars@.subrange(i + 1, to as int));
            push_char(&mut text, chars[i]);
            i = i + 1;
        }
    }
    text
}

} // verus!
