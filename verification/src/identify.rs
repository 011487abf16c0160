//! Reading what the image converter reports about a file: one line for
//! each frame, with the size of the frame in it.

use vstd::prelude::*;
use crate::text::{digit_value, is_digit, prefix_to};

verus! {

/// Whether `c` is white space.
pub open spec fn is_space(c: char) -> bool {
    ||| ('\u{9}' <= c && c <= '\u{d}')
    ||| c == ' '
    ||| c == '\u{85}'
    ||| c == '\u{a0}'
    ||| c == '\u{1680}'
    ||| ('\u{2000}' <= c && c <= '\u{200a}')
    ||| c == '\u{2028}'
    ||| c == '\u{2029}'
    ||| c == '\u{202f}'
    ||| c == '\u{205f}'
    ||| c == '\u{3000}'
}

fn char_is_space(c: char) -> (r: bool)
    ensures
        r == is_space(c),
{
    ('\u{9}' <= c && c <= '\u{d}') || c == ' ' || c == '\u{85}' || c == '\u{a0}' || c
        == '\u{1680}' || ('\u{2000}' <= c && c <= '\u{200a}') || c == '\u{2028}' || c
        == '\u{2029}' || c == '\u{202f}' || c == '\u{205f}' || c == '\u{3000}'
}

/// A text without the white space at its start.
pub open spec fn trim_front(s: Seq<char>) -> Seq<char>
    decreases s.len(),
{
    if s.len() > 0 && is_space(s[0]) {
        trim_front(s.skip(1))
    } else {
        s
    }
}

/// A text without the white space at its end.
pub open spec fn trim_back(s: Seq<char>) -> Seq<char>
    decreases s.len(),
{
    if s.len() > 0 && is_space(s.last()) {
        trim_back(s.drop_last())
    } else {
        s
    }
}

/// A text without the white space at its start and at its end.
pub open spec fn trimmed(s: Seq<char>) -> Seq<char> {
    trim_back(trim_front(s))
}

/// The characters of a text, one by one.
pub fn chars_of(s: &str) -> (v: Vec<char>)
    ensures
        v@ == s@,
{
    let n: usize = s.unicode_len();
    let mut v: Vec<char> = Vec::new();
    let mut i: usize = 0;
    while i < n
        invariant
            n == s@.len(),
            i <= n,
            v@ == s@.take(i as int),
        decreases n - i,
    {
        v.push(s.get_char(i));
        assert(v@ =~= s@.take(i + 1));
        i = i + 1;
    }
    assert(s@.take(n as int) =~= s@);
    v
}

/// The bounds of a text without the white space around it.
fn trim_bounds(s: &Vec<char>) -> (r: (usize, usize))
    ensures
        r.0 <= r.1 <= s.len(),
        s@.subrange(r.0 as int, r.1 as int) == trimmed(s@),
{
    let n: usize = s.len();
    let mut a: usize = 0;
    assert(s@.skip(0) =~= s@);
    while a < n && char_is_space(s[a])
        invariant
            n == s.len(),
            a <= n,
            trim_front(s@) == trim_front(s@.skip(a as int)),
        decreases n - a,
    {
        assert(s@.skip(a as int)[0] == s@[a as int]);
        assert(s@.skip(a as int).skip(1) =~= s@.skip(a + 1));
        a = a + 1;
    }
    assert(trim_front(s@) == s@.skip(a as int)) by {
        if a < n {
            assert(s@.skip(a as int)[0] == s@[a as int]);
        }
    }
    let mut b: usize = n;
    assert(s@.subrange(a as int, n as int) =~= s@.skip(a as int));
    while b > a && char_is_space(s[b - 1])
        invariant
            n == s.len(),
            a <= b <= n,
            trimmed(s@) == trim_back(s@.subrange(a as int, b as int)),
        decreases b,
    {
        assert(s@.subrange(a as int, b as int).last() == s@[b - 1]);
        assert(s@.subrange(a as int, b as int).drop_last() =~= s@.subrange(a as int, b - 1));
        b = b - 1;
    }
    assert(trimmed(s@) == s@.subrange(a as int, b as int)) by {
        if b > a {
            assert(s@.subrange(a as int, b as int).last() == s@[b - 1]);
        }
    }
    (a, b)
}

/// The number that a row of digits stands for.
pub open spec fn digits_value(s: Seq<char>) -> nat
    decreases s.len(),
{
    if s.len() == 0 {
        0
    } else {
        digits_value(s.drop_last()) * 10 + digit_value(s.last())
    }
}

/// Whether a text is made of digits alone.
pub open spec fn all_digits(s: Seq<char>) -> bool {
    forall|i: int| 0 <= i < s.len() ==> is_digit(#[trigger] s[i])
}

/// The number that a text stands for, where it is one that the machine can
/// hold: a row of at least one digit, which a `+` may precede.
pub open spec fn parsed_number(s: Seq<char>) -> Option<usize> {
    let body = if s.len() > 0 && s[0] == '+' {
        s.skip(1)
    } else {
        s
    };
    if body.len() > 0 && all_digits(body) && digits_value(body) <= usize::MAX {
        Some(digits_value(body) as usize)
    } else {
        None
    }
}

proof fn lemma_digits_value_grows(s: Seq<char>, i: int)
    requires
        0 <= i <= s.len(),
    ensures
        digits_value(s.take(i)) <= digits_value(s),
    decreases s.len() - i,
{
    if i < s.len() {
        lemma_digits_value_grows(s, i + 1);
        assert(s.take(i + 1).drop_last() =~= s.take(i));
    } else {
        assert(s.take(i) =~= s);
    }
}

/// Reads the number in the characters of `s` from `from` up to `to`.
fn parse_number(s: &Vec<char>, from: usize, to: usize) -> (r: Option<usize>)
    requires
        from <= to <= s.len(),
    ensures
        r == parsed_number(s@.subrange(from as int, to as int)),
{
    let ghost text = s@.subrange(from as int, to as int);
    let start: usize = if from < to && s[from] == '+' {
        from + 1
    } else {
        from
    };
    let ghost body = s@.subrange(start as int, to as int);
    assert(body =~= if text.len() > 0 && text[0] == '+' {
        text.skip(1)
    } else {
        text
    });
    if start == to {
        return None;
    }
    let mut value: usize = 0;
    let mut i: usize = start;
    assert(body.take(0) =~= Seq::<char>::empty());
    while i < to
        invariant
            start <= i <= to,
            to <= s.len(),
            body == s@.subrange(start as int, to as int),
            from <= start,
            text == s@.subrange(from as int, to as int),
            body == (if text.len() > 0 && text[0] == '+' {
                text.skip(1)
            } else {
                text
            }),
            forall|j: int| 0 <= j < i - start ==> is_digit(#[trigger] body[j]),
            value == digits_value(body.take(i - start)),
        decreases to - i,
    {
        let c: char = s[i];
        assert(body[i - start] == c);
        if !('0' <= c && c <= '9') {
            assert(!is_digit(body[i - start]));
            return None;
        }
        let d: usize = (c as u32 - '0' as u32) as usize;
        proof {
            assert(body.take(i - start + 1).drop_last() =~= body.take(i - start));
            assert(body.take(i - start + 1).last() == c);
            assert(digits_value(body.take(i - start + 1)) == value * 10 + d);
            lemma_digits_value_grows(body, i - start + 1);
        }
        if value > (usize::MAX - d) / 10 {
            return None;
        }
        value = value * 10 + d;
        i = i + 1;
    }
    assert(body.take(to - start) =~= body);
    Some(value)
}

/// The place of the first `c` in `s`, if any.
pub open spec fn first_index_of(s: Seq<char>, c: char) -> Option<int>
    decreases s.len(),
{
    if s.len() == 0 {
        None
    } else if s[0] == c {
        Some(0)
    } else {
        match first_index_of(s.skip(1), c) {
            Some(i) => Some(i + 1),
            None => None,
        }
    }
}

/// Width and height in a text of the form `WxH`, with white space around it
/// or none. There is no size in a text that does not hold exactly one `x`,
/// or in which either side is no number.
pub open spec fn dimensions_in(token: Seq<char>) -> Option<(usize, usize)> {
    let t = trimmed(token);
    match first_index_of(t, 'x') {
        Some(k) => match (
            first_index_of(t.skip(k + 1), 'x'),
            parsed_number(t.take(k)),
            parsed_number(t.skip(k + 1)),
        ) {
            (None, Some(w), Some(h)) => Some((w, h)),
            _ => None,
        },
        None => None,
    }
}

fn find_char(s: &Vec<char>, from: usize, to: usize, c: char) -> (r: Option<usize>)
    requires
        from <= to <= s.len(),
    ensures
        match r {
            Some(k) => from <= k < to && first_index_of(s@.subrange(from as int, to as int), c)
                == Some(k - from),
            None => first_index_of(s@.subrange(from as int, to as int), c) is None,
        },
    decreases to - from,
{
    if from == to {
        None
    } else {
        let ghost text = s@.subrange(from as int, to as int);
        assert(text[0] == s@[from as int]);
        assert(text.skip(1) =~= s@.subrange(from + 1, to as int));
        if s[from] == c {
            Some(from)
        } else {
            find_char(s, from + 1, to, c)
        }
    }
}

/// Reads width and height from a text of the form `WxH`.
pub fn parse_dimensions(token: &str) -> (r: Option<(usize, usize)>)
    ensures
        r == dimensions_in(token@),
{
    let s: Vec<char> = chars_of(token);
    let bounds: (usize, usize) = trim_bounds(&s);
    let a: usize = bounds.0;
    let b: usize = bounds.1;
    let ghost t = trimmed(token@);
    match find_char(&s, a, b, 'x') {
        Some(k) => {
            proof {
                assert(t.skip(k - a + 1) =~= s@.subrange(k + 1, b as int));
                assert(t.take(k - a) =~= s@.subrange(a as int, k as int));
            }
            let second: Option<usize> = find_char(&s, k + 1, b, 'x');
            let width: Option<usize> = parse_number(&s, a, k);
            let height: Option<usize> = parse_number(&s, k + 1, b);
            match (second, width, height) {
                (None, Some(w), Some(h)) => Some((w, h)),
                _ => None,
            }
        },
        None => None,
    }
}

/// The number of times that `c` occurs in `s`.
pub open spec fn occurrences(s: Seq<char>, c: char) -> nat
    decreases s.len(),
{
    if s.len() == 0 {
        0
    } else {
        occurrences(s.drop_last(), c) + if s.last() == c {
            1nat
        } else {
            0nat
        }
    }
}

/// The number of lines in a text. A line ends with a line feed; what
/// follows the last line feed is one more line unless it is empty.
pub open spec fn line_count(s: Seq<char>) -> nat {
    occurrences(s, '\n') + if s.len() > 0 && s.last() != '\n' {
        1nat
    } else {
        0nat
    }
}

/// The first line of a text, without the line feed that ends it and
/// without a carriage return before that; an empty text has no line.
pub open spec fn first_line(s: Seq<char>) -> Option<Seq<char>> {
    if s.len() == 0 {
        None
    } else {
        match first_index_of(s, '\n') {
            Some(k) => if k > 0 && s[k - 1] == '\r' {
                Some(s.take(k - 1))
            } else {
                Some(s.take(k))
            },
            None => Some(s),
        }
    }
}

/// The text of the leftmost match of the regular expression `pattern` in
/// `haystack`, as `regex::Regex::find` gives it. There is none where
/// nothing matches, or where `pattern` is no regular expression.
pub uninterp spec fn first_match(pattern: Seq<char>, haystack: Seq<char>) -> Option<Seq<char>>;

/// Compiles `pattern` with `regex::Regex::new` and searches `haystack` with
/// `regex::Regex::find`. The contract names what the search gives and
/// claims nothing else of it.
#[verifier::external_body]
fn regex_find(pattern: &str, haystack: &str) -> (r: Option<String>)
    ensures
        match r {
            Some(found) => first_match(pattern@, haystack@) == Some(found@),
            None => first_match(pattern@, haystack@) is None,
        },
{
    match regex::Regex::new(pattern) {
        Ok(re) => match re.find(haystack) {
            Some(found) => Some(String::from(found.as_str())),
            None => None,
        },
        Err(_) => None,
    }
}

/// The pattern of the size in a line of the report: two rows of digits
/// with an `x` between them, set off by a blank on either side.
pub open spec fn size_pattern() -> Seq<char> {
    " \\d+x\\d+ "@
}

/// What a report tells: the number of its lines, which is the number of
/// frames, and the size that the first line gives, if it gives one.
/// `found` is what the search for the size in the first line gave.
pub open spec fn report_summary(report: Seq<char>, found: Option<Seq<char>>) -> (
    nat,
    Option<(usize, usize)>,
) {
    (
        line_count(report),
        match (first_line(report), found) {
            (Some(_), Some(token)) => dimensions_in(token),
            _ => None,
        },
    )
}

/// Counts the lines of a text.
pub fn count_lines(s: &Vec<char>) -> (n: usize)
    ensures
        n == line_count(s@),
{
    let mut n: usize = 0;
    let mut i: usize = 0;
    assert(s@.take(0) =~= Seq::<char>::empty());
    while i < s.len()
        invariant
            i <= s.len(),
            n == occurrences(s@.take(i as int), '\n'),
            n <= i,
        decreases s.len() - i,
    {
        assert(s@.take(i + 1).drop_last() =~= s@.take(i as int));
        assert(s@.take(i + 1).last() == s@[i as int]);
        if s[i] == '\n' {
            n = n + 1;
        }
        i = i + 1;
    }
    assert(s@.take(s.len() as int) =~= s@);
    if s.len() > 0 && s[s.len() - 1] != '\n' {
        proof {
            lemma_occurrences_bound(s@, '\n');
        }
        n + 1
    } else {
        n
    }
}

/// A character occurs in a text at most as often as the text is long, and
/// less often where the text does not end with it.
pub proof fn lemma_occurrences_bound(s: Seq<char>, c: char)
    ensures
        occurrences(s, c) <= s.len(),
        s.len() > 0 && s.last() != c ==> occurrences(s, c) < s.len(),
    decreases s.len(),
{
    if s.len() > 0 {
        lemma_occurrences_bound(s.drop_last(), c);
    }
}

/// Sums up a report, given what the search for the size in its first line
/// gave.
pub fn summarize_report(report: &str, found: Option<String>) -> (r: (
    usize,
    Option<(usize, usize)>,
))
    ensures
        r.0 == report_summary(
            report@,
            match found {
                Some(token) => Some(token@),
                None => None,
            },
        ).0,
        r.1 == report_summary(
            report@,
            match found {
                Some(token) => Some(token@),
                None => None,
            },
        ).1,
{
    let s: Vec<char> = chars_of(report);
    let count: usize = count_lines(&s);
    let dims: Option<(usize, usize)> = match found {
        Some(token) => {
            if s.len() > 0 {
                parse_dimensions(token.as_str())
            } else {
                None
            }
        },
        None => None,
    };
    (count, dims)
}

/// Takes the first line of a report.
pub fn leading_line(report: &str) -> (r: Option<String>)
    ensures
        match r {
            Some(line) => first_line(report@) == Some(line@),
            None => first_line(report@) is None,
        },
{
    let s: Vec<char> = chars_of(report);
    if s.len() == 0 {
        return None;
    }
    assert(s@.subrange(0, s.len() as int) =~= s@);
    match find_char(&s, 0, s.len(), '\n') {
        Some(k) => {
            if k > 0 && s[k - 1] == '\r' {
                assert(s@.take(k - 1) =~= report@.subrange(0, k - 1));
                Some(prefix_to(report, k - 1))
            } else {
                assert(s@.take(k as int) =~= report@.subrange(0, k as int));
                Some(prefix_to(report, k))
            }
        },
        None => Some(String::from_str(report)),
    }
}

/// Reads the report of the image converter on a file: the number of frames
/// in the file, one to a line, and the size of the first frame, where the
/// first line gives one.
pub fn count_frames(report: &str) -> (r: (usize, Option<(usize, usize)>))
    ensures
        r.0 == line_count(report@),
        r.1 == match first_line(report@) {
            Some(line) => match first_match(size_pattern(), line) {
                Some(token) => dimensions_in(token),
                None => None,
            },
            None => None,
        },
{
    let found: Option<String> = match leading_line(report) {
        Some(line) => regex_find(" \\d+x\\d+ ", line.as_str()),
        None => None,
    };
    summarize_report(report, found)
}

} // verus!
