//! Reads the resident size of the process out of what the platform reports.
//! The platform is asked elsewhere; here its answer is taken apart.

use vstd::prelude::*;
use crate::text::{chars_of, has_prefix, is_whitespace, starts_with, trim_str, trimmed, whitespace};

verus! {

/// Label of the line that holds the resident size in a Linux process status.
pub const RSS_LABEL: &'static str = "VmRSS";

/// An ASCII decimal digit.
pub open spec fn is_digit(c: char) -> bool {
    0x30 <= c as u32 <= 0x39
}

/// The value of a decimal digit.
pub open spec fn digit_value(c: char) -> nat {
    (c as u32 - 0x30) as nat
}

/// Every character is a decimal digit.
pub open spec fn all_digits(s: Seq<char>) -> bool {
    forall|i: int| 0 <= i < s.len() ==> is_digit(#[trigger] s[i])
}

/// The number that a run of decimal digits writes.
pub open spec fn digits_value(s: Seq<char>) -> nat
    decreases s.len(),
{
    if s.len() == 0 {
        0
    } else {
        digits_value(s.drop_last()) * 10 + digit_value(s.last())
    }
}

/// The text without one leading plus sign.
pub open spec fn unsigned_body(s: Seq<char>) -> Seq<char> {
    if s.len() > 0 && s[0] == '+' {
        s.drop_first()
    } else {
        s
    }
}

/// The number that a text writes: an optional plus sign and then at least
/// one decimal digit and nothing else, with a value that fits the machine
/// word. Any other text writes no number.
pub open spec fn parse_number(s: Seq<char>) -> Option<usize> {
    let body = unsigned_body(s);
    if body.len() > 0 && all_digits(body) && digits_value(body) <= usize::MAX {
        Some(digits_value(body) as usize)
    } else {
        None
    }
}

/// A longer run of digits writes no smaller number than its beginning.
pub proof fn digits_value_grows(s: Seq<char>, k: int)
    requires
        0 <= k <= s.len(),
    ensures
        digits_value(s.take(k)) <= digits_value(s),
    decreases s.len(),
{
    if k == s.len() {
        assert(s.take(k) =~= s);
    } else {
        digits_value_grows(s.drop_last(), k);
        assert(s.drop_last().take(k) =~= s.take(k));
    }
}

/// The characters of `s` from `from` up to `to`.
pub fn slice_of(s: &Vec<char>, from: usize, to: usize) -> (r: Vec<char>)
    requires
        from <= to <= s@.len(),
    ensures
        r@ == s@.subrange(from as int, to as int),
{
    let mut r: Vec<char> = Vec::new();
    let mut i: usize = from;
    while i < to
        invariant
            from <= i <= to <= s@.len(),
            r@ == s@.subrange(from as int, i as int),
        decreases to - i,
    {
        r.push(s[i]);
        assert(s@.subrange(from as int, i + 1) =~= s@.subrange(from as int, i as int).push(
            s@[i as int],
        ));
        i += 1;
    }
    r
}

/// Reads a number as `parse_number` defines it.
pub fn parse_decimal(s: &Vec<char>) -> (r: Option<usize>)
    ensures
        r == parse_number(s@),
{
    let start: usize = if s.len() > 0 && s[0] == '+' {
        1
    } else {
        0
    };
    let ghost body = unsigned_body(s@);
    assert(body =~= s@.subrange(start as int, s@.len() as int));
    if start == s.len() {
        return None;
    }
    let mut acc: usize = 0;
    let mut i: usize = start;
    while i < s.len()
        invariant
            start <= i <= s@.len(),
            body == unsigned_body(s@),
            body == s@.subrange(start as int, s@.len() as int),
            all_digits(body.take(i - start)),
            acc == digits_value(body.take(i - start)),
        decreases s@.len() - i,
    {
        let c = s[i];
        let n: u32 = c as u32;
        let ghost seen = body.take(i - start);
        let ghost next = body.take(i - start + 1);
        assert(next.drop_last() =~= seen);
        assert(next.last() == c);
        if n < 0x30 || n > 0x39 {
            assert(!is_digit(body[i - start]));
            return None;
        }
        let d: usize = (n - 0x30) as usize;
        if acc > (usize::MAX - d) / 10 {
            proof {
                assert(digits_value(next) == acc * 10 + d);
                digits_value_grows(body, i - start + 1);
            }
            return None;
        }
        acc = acc * 10 + d;
        assert forall|j: int| 0 <= j < next.len() implies is_digit(#[trigger] next[j]) by {
            if j < seen.len() {
                assert(next[j] == seen[j]);
            }
        }
        i += 1;
    }
    assert(body.take(body.len() as int) =~= body);
    Some(acc)
}

/// Where the line that begins at `from` ends: at the next line feed, or at
/// the end of the text.
pub open spec fn line_end(s: Seq<char>, from: int) -> int
    decreases s.len() - from,
{
    if from >= s.len() || s[from] == '\n' {
        from
    } else {
        line_end(s, from + 1)
    }
}

/// A line begins at `i`, and it begins with the label of the resident size.
pub open spec fn is_rss_line_start(s: Seq<char>, i: int) -> bool {
    &&& 0 <= i < s.len()
    &&& (i == 0 || s[i - 1] == '\n')
    &&& has_prefix(s.skip(i), RSS_LABEL@)
}

/// The first line with the label of the resident size begins at `i`.
pub open spec fn is_first_rss_line(s: Seq<char>, i: int) -> bool {
    is_rss_line_start(s, i) && forall|j: int| 0 <= j < i ==> !is_rss_line_start(s, j)
}

/// The first line that begins with the label of the resident size, without
/// its line feed.
pub open spec fn rss_line(s: Seq<char>) -> Option<Seq<char>> {
    if exists|i: int| is_rss_line_start(s, i) {
        let i = choose|i: int| is_first_rss_line(s, i);
        Some(s.subrange(i, line_end(s, i)))
    } else {
        None
    }
}

/// There is one first line with the label.
pub proof fn first_rss_line_is(s: Seq<char>, i: int)
    requires
        is_first_rss_line(s, i),
    ensures
        rss_line(s) == Some(s.subrange(i, line_end(s, i))),
{
    let k = choose|k: int| is_first_rss_line(s, k);
    if k < i {
        assert(!is_rss_line_start(s, k));
    } else if i < k {
        assert(!is_rss_line_start(s, i));
    }
}

/// The first place at or after `i` that holds no whitespace.
pub open spec fn skip_space(s: Seq<char>, i: int) -> int
    decreases s.len() - i,
{
    if 0 <= i < s.len() && is_whitespace(s[i]) {
        skip_space(s, i + 1)
    } else {
        i
    }
}

/// The first place at or after `i` that holds whitespace, or the end.
pub open spec fn skip_word(s: Seq<char>, i: int) -> int
    decreases s.len() - i,
{
    if 0 <= i < s.len() && !is_whitespace(s[i]) {
        skip_word(s, i + 1)
    } else {
        i
    }
}

/// The second of the words that whitespace separates, if there are two.
pub open spec fn second_word(s: Seq<char>) -> Option<Seq<char>> {
    let first = skip_space(s, 0);
    let gap = skip_word(s, first);
    let second = skip_space(s, gap);
    let end = skip_word(s, second);
    if second < end {
        Some(s.subrange(second, end))
    } else {
        None
    }
}

/// Kilobytes into whole megabytes.
pub open spec fn kb_to_mb(kb: usize) -> usize {
    kb / 1024
}

/// Bytes into whole megabytes.
pub open spec fn bytes_to_mb(bytes: usize) -> usize {
    bytes / 1_048_576
}

/// The resident size in megabytes that a Linux process status reports: the
/// second word of the first line that begins with the label, read as a
/// number of kilobytes. `None` where there is no such line, word or number.
pub open spec fn status_resident_mb(content: Seq<char>) -> Option<usize> {
    match rss_line(content) {
        Some(line) => match second_word(line) {
            Some(word) => match parse_number(word) {
                Some(kb) => Some(kb_to_mb(kb)),
                None => None,
            },
            None => None,
        },
        None => None,
    }
}

/// The resident size in megabytes that `ps -o rss=` reports: its output,
/// trimmed, read as a number of kilobytes.
pub open spec fn ps_resident_mb(output: Seq<char>) -> Option<usize> {
    match parse_number(trimmed(output)) {
        Some(kb) => Some(kb_to_mb(kb)),
        None => None,
    }
}

/// Finds the end of the line that begins at `from`.
pub fn find_line_end(s: &Vec<char>, from: usize) -> (e: usize)
    requires
        from <= s@.len(),
    ensures
        e == line_end(s@, from as int),
        from <= e <= s@.len(),
{
    let mut e: usize = from;
    while e < s.len() && s[e] != '\n'
        invariant
            from <= e <= s@.len(),
            line_end(s@, from as int) == line_end(s@, e as int),
        decreases s@.len() - e,
    {
        e += 1;
    }
    e
}

/// Finds the first place at or after `i` that holds no whitespace.
pub fn find_word(s: &Vec<char>, i: usize) -> (r: usize)
    requires
        i <= s@.len(),
    ensures
        r == skip_space(s@, i as int),
        i <= r <= s@.len(),
{
    let mut r: usize = i;
    while r < s.len() && whitespace(s[r])
        invariant
            i <= r <= s@.len(),
            skip_space(s@, i as int) == skip_space(s@, r as int),
        decreases s@.len() - r,
    {
        r += 1;
    }
    r
}

/// Finds the end of the word that begins at `i`.
pub fn find_word_end(s: &Vec<char>, i: usize) -> (r: usize)
    requires
        i <= s@.len(),
    ensures
        r == skip_word(s@, i as int),
        i <= r <= s@.len(),
{
    let mut r: usize = i;
    while r < s.len() && !whitespace(s[r])
        invariant
            i <= r <= s@.len(),
            skip_word(s@, i as int) == skip_word(s@, r as int),
        decreases s@.len() - r,
    {
        r += 1;
    }
    r
}

/// Finds the second word of a line.
pub fn find_second_word(s: &Vec<char>) -> (r: Option<Vec<char>>)
    ensures
        match r {
            Some(w) => second_word(s@) == Some(w@),
            None => second_word(s@) is None,
        },
{
    let first = find_word(s, 0);
    let gap = find_word_end(s, first);
    let second = find_word(s, gap);
    let end = find_word_end(s, second);
    if second < end {
        Some(slice_of(s, second, end))
    } else {
        None
    }
}

/// Finds the first line that begins with the label of the resident size.
pub fn find_rss_line(s: &Vec<char>) -> (r: Option<Vec<char>>)
    ensures
        match r {
            Some(line) => rss_line(s@) == Some(line@),
            None => rss_line(s@) is None,
        },
{
    let mut i: usize = 0;
    while i < s.len()
        invariant
            i <= s@.len(),
            i == 0 || s@[i - 1] == '\n',
            forall|j: int| 0 <= j < i ==> !is_rss_line_start(s@, j),
        decreases s@.len() - i,
    {
        let e = find_line_end(s, i);
        let line = slice_of(s, i, e);
        if starts_with(&line, RSS_LABEL) {
            proof {
                label_has_no_line_feed();
                assert forall|k: int| 0 <= k < RSS_LABEL@.len() implies s@.skip(i as int)[k]
                    == RSS_LABEL@[k] by {
                    assert(line@[k] == RSS_LABEL@[k]);
                }
                first_rss_line_is(s@, i as int);
            }
            return Some(line);
        }
        proof {
            line_has_no_line_feed(s@, i as int, e as int);
            assert forall|j: int| i <= j <= e implies !is_rss_line_start(s@, j) by {
                if j == i {
                    if has_prefix(s@.skip(i as int), RSS_LABEL@) {
                        label_has_no_line_feed();
                        prefix_stays_in_line(s@, i as int, e as int, RSS_LABEL@);
                        assert forall|k: int| 0 <= k < RSS_LABEL@.len() implies line@[k]
                            == RSS_LABEL@[k] by {
                            assert(s@.skip(i as int)[k] == RSS_LABEL@[k]);
                        }
                    }
                } else if j < s@.len() {
                    assert(s@[j - 1] != '\n');
                }
            }
        }
        if e == s.len() {
            return None;
        }
        i = e + 1;
    }
    None
}

/// The label holds no line feed.
proof fn label_has_no_line_feed()
    ensures
        RSS_LABEL@.len() == 5,
        forall|k: int| 0 <= k < RSS_LABEL@.len() ==> RSS_LABEL@[k] != '\n',
{
    reveal_strlit("VmRSS");
}

/// No line feed stands inside a line.
proof fn line_has_no_line_feed(s: Seq<char>, from: int, e: int)
    requires
        0 <= from <= s.len(),
        e == line_end(s, from),
    ensures
        from <= e <= s.len(),
        forall|j: int| from <= j < e ==> s[j] != '\n',
        e < s.len() ==> s[e] == '\n',
    decreases s.len() - from,
{
    if from < s.len() && s[from] != '\n' {
        line_has_no_line_feed(s, from + 1, e);
    }
}

/// A text without line feeds that begins at the start of a line lies
/// within that line.
proof fn prefix_stays_in_line(s: Seq<char>, from: int, e: int, p: Seq<char>)
    requires
        0 <= from <= s.len(),
        e == line_end(s, from),
        has_prefix(s.skip(from), p),
        forall|k: int| 0 <= k < p.len() ==> p[k] != '\n',
    ensures
        from + p.len() <= e,
{
    line_has_no_line_feed(s, from, e);
    if e < from + p.len() {
        assert(s.skip(from)[e - from] == p[e - from]);
    }
}

/// Kilobytes into whole megabytes.
pub fn megabytes(kb: usize) -> (mb: usize)
    ensures
        mb == kb_to_mb(kb),
{
    kb / 1024
}

/// The resident size in megabytes for a working set given in bytes, as
/// Windows reports it.
pub fn resident_mb_from_bytes(bytes: usize) -> (mb: usize)
    ensures
        mb == bytes_to_mb(bytes),
{
    bytes / 1_048_576
}

/// The resident size in megabytes that a Linux process status reports.
pub fn resident_mb_from_status(content: &str) -> (r: Option<usize>)
    ensures
        r == status_resident_mb(content@),
{
    let chars = chars_of(content);
    match find_rss_line(&chars) {
        Some(line) => match find_second_word(&line) {
            Some(word) => match parse_decimal(&word) {
                Some(kb) => Some(megabytes(kb)),
                None => None,
            },
            None => None,
        },
        None => None,
    }
}

/// The resident size in megabytes that `ps -o rss=` reports.
pub fn resident_mb_from_ps(output: &str) -> (r: Option<usize>)
    ensures
        r == ps_resident_mb(output@),
{
    let chars = chars_of(trim_str(output));
    match parse_decimal(&chars) {
        Some(kb) => Some(megabytes(kb)),
        None => None,
    }
}

} // verus!
