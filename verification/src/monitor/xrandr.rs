//! Reading the geometry of a connected display off a line of the
//! display tool's report, such as `HDMI-1 connected 1920x1080+0+0`.

use vstd::prelude::*;
use crate::monitor::geometry::Rect;
use crate::text::{char_is_whitespace, has_prefix, is_white_space, starts_with};

verus! {

/// The position of the first `c` in `s` at or behind `from`, or the
/// length of `s` where there is none.
pub open spec fn first_index(s: Seq<char>, c: char, from: int) -> int
    decreases s.len() - from,
{
    if from >= s.len() || s[from] == c {
        from
    } else {
        first_index(s, c, from + 1)
    }
}

/// The parts of `s` before and behind its first `c`, if it holds one.
pub open spec fn split_at_first(s: Seq<char>, c: char) -> Option<(Seq<char>, Seq<char>)> {
    let at = first_index(s, c, 0);
    if 0 <= at < s.len() {
        Some((s.subrange(0, at), s.subrange(at + 1, s.len() as int)))
    } else {
        None
    }
}

/// Where the word that holds position `from` ends: at the next white
/// space or at the end of the text.
pub open spec fn word_end(s: Seq<char>, from: int) -> int
    decreases s.len() - from,
{
    if from >= s.len() || is_white_space(s[from]) {
        from
    } else {
        word_end(s, from + 1)
    }
}

/// Whether the word names a geometry: it holds a plus sign and an `x`.
pub open spec fn is_geometry_word(word: Seq<char>) -> bool {
    first_index(word, '+', 0) < word.len() && first_index(word, 'x', 0) < word.len()
}

/// The first word at or behind `from` that names a geometry.
pub open spec fn geometry_word(s: Seq<char>, from: int) -> Option<Seq<char>>
    decreases s.len() - from, 1int,
{
    if from < 0 || from >= s.len() {
        None
    } else if is_white_space(s[from]) {
        geometry_word(s, from + 1)
    } else {
        let end = word_end(s, from);
        if is_geometry_word(s.subrange(from, end)) {
            Some(s.subrange(from, end))
        } else if from < end <= s.len() {
            geometry_word(s, end)
        } else {
            None
        }
    }
}

/// The number that a run of decimal digits writes.
pub open spec fn digits_value(s: Seq<char>) -> int
    decreases s.len(),
{
    if s.len() == 0 {
        0
    } else {
        digits_value(s.drop_last()) * 10 + (s.last() as int - '0' as int)
    }
}

/// Whether the text consists of decimal digits, one at least.
pub open spec fn is_digits(s: Seq<char>) -> bool {
    s.len() > 0 && forall|i: int| 0 <= i < s.len() ==> '0' <= #[trigger] s[i] <= '9'
}

/// The whole number that the text writes: decimal digits behind an
/// optional sign, within the range of a coordinate.
pub open spec fn numeral(s: Seq<char>) -> Option<i32> {
    let signed = s.len() > 0 && (s[0] == '-' || s[0] == '+');
    let digits = if signed {
        s.drop_first()
    } else {
        s
    };
    let value = if signed && s[0] == '-' {
        -digits_value(digits)
    } else {
        digits_value(digits)
    };
    if is_digits(digits) && i32::MIN <= value <= i32::MAX {
        Some(value as i32)
    } else {
        None
    }
}

/// Whether the line speaks of a connected display.
pub open spec fn says_connected(line: Seq<char>) -> bool {
    exists|i: int| 0 <= i <= line.len() && has_prefix(#[trigger] line.skip(i), " connected"@)
}

/// The rectangle that a line of the report names: the line must speak of
/// a connected display and hold a geometry of the form width `x` height
/// `+` x `+` y, all four of them whole numbers.
pub open spec fn line_rect(line: Seq<char>) -> Option<Rect> {
    if !says_connected(line) {
        None
    } else {
        match geometry_word(line, 0) {
            None => None,
            Some(word) => match split_at_first(word, '+') {
                None => None,
                Some((size, offsets)) => match (
                    split_at_first(size, 'x'),
                    split_at_first(offsets, '+'),
                ) {
                    (Some((w, h)), Some((x, y))) => match (
                        numeral(x),
                        numeral(y),
                        numeral(w),
                        numeral(h),
                    ) {
                        (Some(x), Some(y), Some(width), Some(height)) => Some(
                            Rect { x, y, width, height },
                        ),
                        _ => None,
                    },
                    _ => None,
                },
            },
        }
    }
}

/// Finds the first `c` in the text.
fn find_char(s: &str, c: char) -> (at: usize)
    ensures
        at == first_index(s@, c, 0),
        at <= s@.len(),
{
    let len = s.unicode_len();
    let mut i: usize = 0;
    while i < len && s.get_char(i) != c
        invariant
            len == s@.len(),
            i <= len,
            first_index(s@, c, 0) == first_index(s@, c, i as int),
        decreases len - i,
    {
        i += 1;
    }
    i
}

/// Splits the text at its first `c`.
fn split_once<'a>(s: &'a str, c: char) -> (parts: Option<(&'a str, &'a str)>)
    ensures
        match parts {
            Some((before, behind)) => split_at_first(s@, c) == Some((before@, behind@)),
            None => split_at_first(s@, c) is None,
        },
{
    let len = s.unicode_len();
    let at = find_char(s, c);
    if at < len {
        Some((s.substring_char(0, at), s.substring_char(at + 1, len)))
    } else {
        None
    }
}

/// The digits of a number are worth ten times the digits before the last
/// one, plus the last one.
proof fn lemma_digits_next(s: Seq<char>, n: int)
    requires
        0 <= n < s.len(),
    ensures
        digits_value(s.take(n + 1)) == digits_value(s.take(n)) * 10 + (s[n] as int - '0' as int),
{
    assert(s.take(n + 1).drop_last() =~= s.take(n));
}

/// Reads a whole number.
pub fn parse_number(s: &str) -> (value: Option<i32>)
    ensures
        value == numeral(s@),
{
    let len = s.unicode_len();
    if len == 0 {
        return None;
    }
    let first = s.get_char(0);
    let signed = first == '-' || first == '+';
    let negative = first == '-';
    let digits = if signed {
        s.substring_char(1, len)
    } else {
        s
    };
    proof {
        if signed {
            assert(digits@ =~= s@.drop_first());
        }
    }
    let count = digits.unicode_len();
    if count == 0 {
        return None;
    }
    let limit: i64 = 0x8000_0000;
    let mut total: i64 = 0;
    let mut i: usize = 0;
    while i < count
        invariant
            s@.len() > 0,
            signed == (s@[0] == '-' || s@[0] == '+'),
            digits@ == if signed {
                s@.drop_first()
            } else {
                s@
            },
            count == digits@.len(),
            i <= count,
            limit == 0x8000_0000,
            0 <= total <= limit,
            total == digits_value(digits@.take(i as int)),
            forall|k: int| 0 <= k < i ==> '0' <= #[trigger] digits@[k] <= '9',
        decreases count - i,
    {
        let c = digits.get_char(i);
        if !('0' <= c && c <= '9') {
            assert(!is_digits(digits@));
            return None;
        }
        proof {
            lemma_digits_next(digits@, i as int);
        }
        let digit: i64 = (c as u32 - '0' as u32) as i64;
        total = total * 10 + digit;
        if total > limit {
            proof {
                assert forall|k: int| 0 <= k < i + 1 implies '0' <= #[trigger] digits@[k] <= '9' by {
                    if k == i {
                        assert(digits@[k] == c);
                    }
                }
                lemma_digits_grow(digits@, i as int + 1);
            }
            return None;
        }
        i += 1;
    }
    proof {
        assert(digits@.take(count as int) =~= digits@);
    }
    if negative {
        Some((-total) as i32)
    } else if total == limit {
        None
    } else {
        Some(total as i32)
    }
}

/// Further digits never make a number smaller.
proof fn lemma_digits_grow(s: Seq<char>, n: int)
    requires
        0 <= n <= s.len(),
        forall|k: int| 0 <= k < n ==> '0' <= #[trigger] s[k] <= '9',
    ensures
        is_digits(s) ==> digits_value(s) >= digits_value(s.take(n)),
        digits_value(s.take(n)) >= 0,
    decreases s.len() - n,
{
    lemma_digits_nonnegative(s, n);
    if n < s.len() {
        if is_digits(s) {
            lemma_digits_next(s, n);
            lemma_digits_grow(s, n + 1);
        }
    } else {
        assert(s.take(n) =~= s);
    }
}

/// A run of digits writes no negative number.
proof fn lemma_digits_nonnegative(s: Seq<char>, n: int)
    requires
        0 <= n <= s.len(),
        forall|k: int| 0 <= k < n ==> '0' <= #[trigger] s[k] <= '9',
    ensures
        digits_value(s.take(n)) >= 0,
    decreases n,
{
    if n > 0 {
        lemma_digits_nonnegative(s, n - 1);
        lemma_digits_next(s, n - 1);
    }
}

/// Tells whether the line speaks of a connected display.
fn mentions_connected(line: &str) -> (found: bool)
    ensures
        found == says_connected(line@),
{
    let len = line.unicode_len();
    let mut i: usize = 0;
    while i < len
        invariant
            len == line@.len(),
            i <= len,
            forall|k: int| 0 <= k < i ==> !has_prefix(#[trigger] line@.skip(k), " connected"@),
        decreases len - i,
    {
        let rest = line.substring_char(i, len);
        assert(rest@ =~= line@.skip(i as int));
        if starts_with(rest, " connected") {
            return true;
        }
        i += 1;
    }
    let rest = line.substring_char(len, len);
    assert(rest@ =~= line@.skip(len as int));
    starts_with(rest, " connected")
}

/// Finds the end of the word that starts at `from`.
fn find_word_end(s: &str, from: usize) -> (end: usize)
    requires
        from <= s@.len(),
    ensures
        end == word_end(s@, from as int),
        from <= end <= s@.len(),
        from < s@.len() && !is_white_space(s@[from as int]) ==> from < end,
{
    let len = s.unicode_len();
    let mut i: usize = from;
    while i < len && !char_is_whitespace(s.get_char(i))
        invariant
            len == s@.len(),
            from <= i <= len,
            word_end(s@, from as int) == word_end(s@, i as int),
            from < len && !is_white_space(s@[from as int]) && i == from ==> i < len,
        decreases len - i,
    {
        i += 1;
    }
    i
}

/// Finds the first word that names a geometry.
fn find_geometry_word<'a>(line: &'a str) -> (word: Option<&'a str>)
    ensures
        match word {
            Some(w) => geometry_word(line@, 0) == Some(w@),
            None => geometry_word(line@, 0) is None,
        },
{
    let len = line.unicode_len();
    let mut i: usize = 0;
    while i < len
        invariant
            len == line@.len(),
            i <= len,
            geometry_word(line@, 0) == geometry_word(line@, i as int),
        decreases len - i,
    {
        if char_is_whitespace(line.get_char(i)) {
            i += 1;
        } else {
            let end = find_word_end(line, i);
            let word = line.substring_char(i, end);
            let plus = find_char(word, '+');
            let cross = find_char(word, 'x');
            if plus < end - i && cross < end - i {
                return Some(word);
            }
            assert(end > i);
            i = end;
        }
    }
    None
}

/// Reads the rectangle of a connected display off a line of the report.
pub fn parse_xrandr_line(line: &str) -> (rect: Option<Rect>)
    ensures
        rect == line_rect(line@),
{
    if !mentions_connected(line) {
        return None;
    }
    let word = match find_geometry_word(line) {
        Some(w) => w,
        None => {
            return None;
        },
    };
    let (size, offsets) = match split_once(word, '+') {
        Some(parts) => parts,
        None => {
            return None;
        },
    };
    let (w, h) = match split_once(size, 'x') {
        Some(parts) => parts,
        None => {
            return None;
        },
    };
    let (x, y) = match split_once(offsets, '+') {
        Some(parts) => parts,
        None => {
            return None;
        },
    };
    let x = parse_number(x);
    let y = parse_number(y);
    let width = parse_number(w);
    let height = parse_number(h);
    match (x, y, width, height) {
        (Some(x), Some(y), Some(width), Some(height)) => Some(Rect { x, y, width, height }),
        _ => None,
    }
}

} // verus!
