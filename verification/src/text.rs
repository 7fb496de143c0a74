//! Text as sequences of characters: white space, trimming, line splitting,
//! newline escapes and substring search.
//!
//! Every operation has a mathematical definition over `Seq<char>` and an
//! executable counterpart on `&str` that is proved to compute it.

use crate::trusted::push_char;
use vstd::prelude::*;

verus! {

/// The code point of a line feed.
pub const LINE_FEED: char = '\n';

/// The code point of a carriage return.
pub const CARRIAGE_RETURN: char = '\r';

/// The code point of a backslash, which opens a newline escape.
pub const BACKSLASH: char = '\\';

/// Whether `c` is white space: exactly the code points to which Unicode gives
/// the property `White_Space`.
pub open spec fn whitespace(c: char) -> bool {
    let u = c as u32;
    ||| 0x09 <= u <= 0x0D
    ||| u == 0x20
    ||| u == 0x85
    ||| u == 0xA0
    ||| u == 0x1680
    ||| 0x2000 <= u <= 0x200A
    ||| u == 0x2028
    ||| u == 0x2029
    ||| u == 0x202F
    ||| u == 0x205F
    ||| u == 0x3000
}

/// Whether `s` holds nothing but white space. The empty text is blank.
pub open spec fn blank(s: Seq<char>) -> bool {
    forall|i: int| 0 <= i < s.len() ==> whitespace(#[trigger] s[i])
}

/// `s` without the white space at its front.
pub open spec fn trim_start(s: Seq<char>) -> Seq<char>
    decreases s.len(),
{
    if s.len() > 0 && whitespace(s.first()) {
        trim_start(s.drop_first())
    } else {
        s
    }
}

/// `s` without the white space at its end.
pub open spec fn trim_end(s: Seq<char>) -> Seq<char>
    decreases s.len(),
{
    if s.len() > 0 && whitespace(s.last()) {
        trim_end(s.drop_last())
    } else {
        s
    }
}

/// `s` without the white space at either end.
pub open spec fn trimmed(s: Seq<char>) -> Seq<char> {
    trim_end(trim_start(s))
}

/// The first index at or after `from` that holds a line feed, or the length of
/// `s` where there is none.
pub open spec fn line_end(s: Seq<char>, from: int) -> int
    decreases s.len() - from,
{
    if 0 <= from < s.len() && s[from] != LINE_FEED {
        line_end(s, from + 1)
    } else {
        from
    }
}

/// `line` without one carriage return at its end.
pub open spec fn without_carriage_return(line: Seq<char>) -> Seq<char> {
    if line.len() > 0 && line.last() == CARRIAGE_RETURN {
        line.drop_last()
    } else {
        line
    }
}

/// The lines of `s` that start at or after `from`.
pub open spec fn lines_from(s: Seq<char>, from: int) -> Seq<Seq<char>>
    decreases s.len() - from,
{
    if 0 <= from < s.len() {
        let end = line_end(s, from);
        proof {
            lemma_line_end_bounds(s, from);
        }
        if end == s.len() {
            seq![s.subrange(from, end)]
        } else {
            seq![without_carriage_return(s.subrange(from, end))] + lines_from(s, end + 1)
        }
    } else {
        Seq::empty()
    }
}

/// The lines of `s`. A line ends at a line feed, or at a carriage return
/// directly followed by one; neither belongs to the line. What follows the last
/// line feed is a line of its own unless it is empty, and it keeps a carriage
/// return at its end.
pub open spec fn lines_of(s: Seq<char>) -> Seq<Seq<char>> {
    lines_from(s, 0)
}

/// The test that a line passes when it is not blank.
pub open spec fn not_blank() -> spec_fn(Seq<char>) -> bool {
    |line: Seq<char>| !blank(line)
}

/// The lines of `s` that are not blank, in order.
pub open spec fn nonblank_lines(s: Seq<char>) -> Seq<Seq<char>> {
    lines_of(s).filter(not_blank())
}

/// Whether a newline escape, a backslash followed by the letter n, stands at
/// index `at` of `s`.
pub open spec fn escape_at(s: Seq<char>, at: int) -> bool {
    0 <= at && at + 1 < s.len() && s[at] == BACKSLASH && s[at + 1] == 'n'
}

/// What `s` reads from index `from` on once each newline escape, taken from
/// left to right, has become one line feed.
pub open spec fn unescaped_from(s: Seq<char>, from: int) -> Seq<char>
    decreases s.len() - from,
{
    if 0 <= from < s.len() {
        if escape_at(s, from) {
            seq![LINE_FEED] + unescaped_from(s, from + 2)
        } else {
            seq![s[from]] + unescaped_from(s, from + 1)
        }
    } else {
        Seq::empty()
    }
}

/// `s` with each newline escape replaced by a line feed.
pub open spec fn unescaped(s: Seq<char>) -> Seq<char> {
    unescaped_from(s, 0)
}

/// Whether `pattern` stands in `s` at index `at`.
pub open spec fn occurs_at(s: Seq<char>, pattern: Seq<char>, at: int) -> bool {
    0 <= at && at + pattern.len() <= s.len() && s.subrange(at, at + pattern.len()) == pattern
}

/// Whether `pattern` stands somewhere in `s`. The empty pattern stands in
/// every text.
pub open spec fn occurs(s: Seq<char>, pattern: Seq<char>) -> bool {
    exists|at: int| occurs_at(s, pattern, at)
}

/// The view of each string of `v`, in order.
pub open spec fn views(v: Seq<String>) -> Seq<Seq<char>> {
    v.map_values(|s: String| s@)
}

/// `line_end` stays between `from` and the end of `s`, stops on a line feed,
/// and passes none.
pub proof fn lemma_line_end_bounds(s: Seq<char>, from: int)
    requires
        0 <= from <= s.len(),
    ensures
        from <= line_end(s, from) <= s.len(),
        line_end(s, from) < s.len() ==> s[line_end(s, from)] == LINE_FEED,
        forall|i: int| from <= i < line_end(s, from) ==> s[i] != LINE_FEED,
    decreases s.len() - from,
{
    if from < s.len() && s[from] != LINE_FEED {
        lemma_line_end_bounds(s, from + 1);
    }
}

/// A text is blank exactly when trimming leaves nothing of it.
pub proof fn lemma_blank_iff_trimmed_empty(s: Seq<char>)
    ensures
        blank(s) <==> trimmed(s).len() == 0,
{
    lemma_trim_start_shape(s);
    lemma_trim_end_shape(trim_start(s));
    let front = trim_start(s);
    let cut = s.len() - front.len();
    if trimmed(s).len() == 0 {
        if front.len() > 0 {
            assert(front.skip(0) =~= front);
        }
        assert forall|i: int| 0 <= i < s.len() implies whitespace(#[trigger] s[i]) by {
            assert(s[i] == s.take(cut)[i]);
        }
    }
}

/// `trim_start(s)` is what is left of `s` behind a blank prefix, and does not
/// begin with white space.
pub proof fn lemma_trim_start_shape(s: Seq<char>)
    ensures
        trim_start(s).len() <= s.len(),
        trim_start(s) == s.skip(s.len() - trim_start(s).len()),
        blank(s.take(s.len() - trim_start(s).len())),
        trim_start(s).len() > 0 ==> !whitespace(trim_start(s).first()),
    decreases s.len(),
{
    if s.len() > 0 && whitespace(s.first()) {
        let rest = s.drop_first();
        lemma_trim_start_shape(rest);
        let kept = trim_start(rest);
        let cut = rest.len() - kept.len();
        assert forall|i: int| 0 <= i < cut + 1 implies whitespace(#[trigger] s.take(cut + 1)[i]) by {
            if i > 0 {
                assert(s.take(cut + 1)[i] == rest.take(cut)[i - 1]);
            }
        }
    }
}

/// `trim_end(s)` is what is left of `s` before a blank suffix, and does not
/// end with white space.
pub proof fn lemma_trim_end_shape(s: Seq<char>)
    ensures
        trim_end(s).len() <= s.len(),
        trim_end(s) == s.take(trim_end(s).len() as int),
        blank(s.skip(trim_end(s).len() as int)),
        trim_end(s).len() > 0 ==> !whitespace(trim_end(s).last()),
    decreases s.len(),
{
    if s.len() > 0 && whitespace(s.last()) {
        let rest = s.drop_last();
        lemma_trim_end_shape(rest);
        let kept = trim_end(rest).len() as int;
        assert forall|i: int| 0 <= i < s.len() - kept implies whitespace(
            #[trigger] s.skip(kept)[i],
        ) by {
            if i < rest.len() - kept {
                assert(s.skip(kept)[i] == rest.skip(kept)[i]);
            }
        }
    }
}

/// Each line of a text is a part of it: what stands between two of its
/// indices.
pub proof fn lemma_line_is_part_of_text(s: Seq<char>, k: int)
    requires
        0 <= k < lines_of(s).len(),
    ensures
        exists|from: int, to: int|
            0 <= from <= to <= s.len() && lines_of(s)[k] == #[trigger] s.subrange(from, to),
{
    lemma_line_from_is_part_of_text(s, 0, k);
}

/// Each line of a text that starts at or after `start` is a part of it.
pub proof fn lemma_line_from_is_part_of_text(s: Seq<char>, start: int, k: int)
    requires
        0 <= start <= s.len(),
        0 <= k < lines_from(s, start).len(),
    ensures
        exists|from: int, to: int|
            0 <= from <= to <= s.len() && lines_from(s, start)[k] == #[trigger] s.subrange(from, to),
    decreases s.len() - start,
{
    lemma_line_end_bounds(s, start);
    let end = line_end(s, start);
    if end < s.len() {
        if k == 0 {
            let whole = s.subrange(start, end);
            if whole.len() > 0 && whole.last() == CARRIAGE_RETURN {
                assert(lines_from(s, start)[k] == s.subrange(start, end - 1));
            }
        } else {
            lemma_line_from_is_part_of_text(s, end + 1, k - 1);
        }
    }
}

/// What a text reads once its newline escapes have become line feeds begins,
/// from any index on, with a line feed where an escape stands there and with
/// the character at that index otherwise, and it holds no newline escape.
pub proof fn lemma_unescaped_from_has_no_escape(s: Seq<char>, from: int)
    requires
        0 <= from <= s.len(),
    ensures
        from < s.len() ==> unescaped_from(s, from).len() > 0 && unescaped_from(s, from)[0] == (
        if escape_at(s, from) {
            LINE_FEED
        } else {
            s[from]
        }),
        forall|at: int| !escape_at(unescaped_from(s, from), at),
    decreases s.len() - from,
{
    if from < s.len() {
        let next = if escape_at(s, from) {
            from + 2
        } else {
            from + 1
        };
        lemma_unescaped_from_has_no_escape(s, next);
        let rest = unescaped_from(s, next);
        let all = unescaped_from(s, from);
        assert forall|at: int| !escape_at(all, at) by {
            if escape_at(all, at) && at > 0 {
                assert(escape_at(rest, at - 1));
            }
        }
    }
}

/// A text whose newline escapes have become line feeds holds no newline
/// escape.
pub proof fn lemma_unescaped_has_no_escape(s: Seq<char>)
    ensures
        !occurs(unescaped(s), seq![BACKSLASH, 'n']),
{
    lemma_unescaped_from_has_no_escape(s, 0);
    let read = unescaped(s);
    let escape = seq![BACKSLASH, 'n'];
    assert forall|at: int| !occurs_at(read, escape, at) by {
        if occurs_at(read, escape, at) {
            assert(escape_at(read, at));
        }
    }
}

/// Whether `c` is white space.
pub fn is_whitespace(c: char) -> (b: bool)
    ensures
        b == whitespace(c),
{
    let u: u32 = c as u32;
    (0x09 <= u && u <= 0x0D) || u == 0x20 || u == 0x85 || u == 0xA0 || u == 0x1680 || (0x2000 <= u
        && u <= 0x200A) || u == 0x2028 || u == 0x2029 || u == 0x202F || u == 0x205F || u == 0x3000
}

/// The characters of `s`, in order.
pub fn to_chars(s: &str) -> (chars: Vec<char>)
    ensures
        chars@ == s@,
{
    broadcast use vstd::string::group_string_axioms;

    let mut chars: Vec<char> = Vec::new();
    for c in it: s.chars()
        invariant
            it.seq() == s@,
            chars@ == it.seq().take(it.index() as int),
    {
        chars.push(c);
    }
    chars
}

/// The characters of `chars` from index `from` up to, not including, index
/// `to`, as a string.
pub fn collect(chars: &Vec<char>, from: usize, to: usize) -> (s: String)
    requires
        from <= to <= chars.len(),
    ensures
        s@ == chars@.subrange(from as int, to as int),
{
    let mut s = String::new();
    let mut i: usize = from;
    while i < to
        invariant
            from <= i <= to <= chars.len(),
            s@ == chars@.subrange(from as int, i as int),
        decreases to - i,
    {
        push_char(&mut s, chars[i]);
        i += 1;
    }
    s
}

/// Whether `s` holds nothing but white space.
pub fn is_blank(s: &str) -> (b: bool)
    ensures
        b == blank(s@),
{
    let chars = to_chars(s);
    let mut i: usize = 0;
    while i < chars.len()
        invariant
            i <= chars.len(),
            chars@ == s@,
            forall|j: int| 0 <= j < i ==> whitespace(#[trigger] chars@[j]),
        decreases chars.len() - i,
    {
        if !is_whitespace(chars[i]) {
            return false;
        }
        i += 1;
    }
    true
}

/// `s` without the white space at either end.
pub fn trim(s: &str) -> (t: &str)
    ensures
        t@ == trimmed(s@),
{
    let chars = to_chars(s);
    let n: usize = chars.len();
    let mut a: usize = 0;
    assert(chars@.skip(0) =~= chars@);
    while a < n && is_whitespace(chars[a])
        invariant
            a <= n,
            n == chars.len(),
            trim_start(chars@) == trim_start(chars@.skip(a as int)),
        decreases n - a,
    {
        assert(chars@.skip(a as int).drop_first() =~= chars@.skip(a + 1));
        a += 1;
    }
    let mut b: usize = n;
    while b > a && is_whitespace(chars[b - 1])
        invariant
            a <= b <= n,
            n == chars.len(),
            trim_end(chars@.skip(a as int)) == trim_end(chars@.subrange(a as int, b as int)),
        decreases b,
    {
        assert(chars@.subrange(a as int, b as int).drop_last() =~= chars@.subrange(
            a as int,
            b - 1,
        ));
        b -= 1;
    }
    s.substring_char(a, b)
}

/// The lines of `s`.
pub fn lines(s: &str) -> (out: Vec<String>)
    ensures
        views(out@) == lines_of(s@),
{
    let chars = to_chars(s);
    let n: usize = chars.len();
    let mut out: Vec<String> = Vec::new();
    let mut start: usize = 0;
    while start < n
        invariant
            start <= n,
            n == chars.len(),
            chars@ == s@,
            views(out@) + lines_from(chars@, start as int) == lines_of(s@),
        decreases n - start,
    {
        let mut end: usize = start;
        while end < n && chars[end] != LINE_FEED
            invariant
                start <= end <= n,
                n == chars.len(),
                line_end(chars@, start as int) == line_end(chars@, end as int),
            decreases n - end,
        {
            end += 1;
        }
        if end == n {
            let line = collect(&chars, start, end);
            out.push(line);
            start = end;
        } else {
            let stop: usize = if end > start && chars[end - 1] == CARRIAGE_RETURN {
                end - 1
            } else {
                end
            };
            let line = collect(&chars, start, stop);
            assert(line@ =~= without_carriage_return(chars@.subrange(start as int, end as int)));
            out.push(line);
            start = end + 1;
        }
    }
    out
}

/// `s` with each newline escape replaced by a line feed.
pub fn unescape_newlines(s: &str) -> (out: String)
    ensures
        out@ == unescaped(s@),
{
    let chars = to_chars(s);
    let n: usize = chars.len();
    let mut out = String::new();
    let mut i: usize = 0;
    while i < n
        invariant
            i <= n,
            n == chars.len(),
            chars@ == s@,
            out@ + unescaped_from(chars@, i as int) == unescaped(s@),
        decreases n - i,
    {
        if chars[i] == BACKSLASH && i + 1 < n && chars[i + 1] == 'n' {
            push_char(&mut out, LINE_FEED);
            i += 2;
        } else {
            push_char(&mut out, chars[i]);
            i += 1;
        }
    }
    out
}

/// Whether `pattern` stands in `s` at index `at`.
fn stands_at(s: &Vec<char>, pattern: &Vec<char>, at: usize) -> (b: bool)
    requires
        at + pattern.len() <= s.len(),
    ensures
        b == occurs_at(s@, pattern@, at as int),
{
    let mut j: usize = 0;
    while j < pattern.len()
        invariant
            j <= pattern.len(),
            at + pattern.len() <= s.len(),
            forall|k: int| 0 <= k < j ==> s@[at + k] == pattern@[k],
        decreases pattern.len() - j,
    {
        if s[at + j] != pattern[j] {
            return false;
        }
        j += 1;
    }
    assert(s@.subrange(at as int, at + pattern@.len()) =~= pattern@);
    true
}

/// Whether `pattern` stands somewhere in `s`.
pub fn contains(s: &str, pattern: &str) -> (b: bool)
    ensures
        b == occurs(s@, pattern@),
{
    let text = to_chars(s);
    let wanted = to_chars(pattern);
    if wanted.len() > text.len() {
        return false;
    }
    let last: usize = text.len() - wanted.len();
    let mut at: usize = 0;
    loop
        invariant
            at <= last,
            last == text.len() - wanted.len(),
            text@ == s@,
            wanted@ == pattern@,
            forall|k: int| 0 <= k < at ==> !occurs_at(text@, wanted@, k),
        decreases last - at,
    {
        if stands_at(&text, &wanted, at) {
            return true;
        }
        if at == last {
            return false;
        }
        at += 1;
    }
}

} // verus!
