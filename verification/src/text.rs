//! Character-level helpers shared by the text pipeline.
use vstd::prelude::*;
use vstd::string::*;
use vstd::utf8::{decode_utf8, encode_utf8, is_char_boundary};

verus! {

/// `String::push` of the standard library puts the character at the end of
/// the text and changes nothing else.
pub assume_specification[ String::push ](s: &mut String, c: char)
    ensures
        final(s)@ == old(s)@.push(c),
;

/// `String::pop` of the standard library takes the last character off the
/// text and returns it; an empty text stays empty and gives `None`.
pub assume_specification[ String::pop ](s: &mut String) -> (r: Option<char>)
    ensures
        old(s)@.len() == 0 ==> r.is_none() && final(s)@ == old(s)@,
        old(s)@.len() > 0 ==> r == Some(old(s)@.last()) && final(s)@ == old(s)@.drop_last(),
;

/// The equality of `str` in the standard library holds of two texts exactly
/// if they are made of the same characters.
pub assume_specification[ <str as PartialEq>::eq ](a: &str, b: &str) -> (r: bool)
    ensures
        r == (a@ == b@),
;

/// The characters of an optional text.
pub open spec fn opt_text(o: Option<String>) -> Option<Seq<char>> {
    match o {
        Some(s) => Some(s@),
        None => None,
    }
}

/// Whether two texts hold the same characters.
pub fn str_eq(a: &str, b: &str) -> (r: bool)
    ensures
        r == (a@ == b@),
{
    *a == *b
}

/// The characters of `s`, in order.
pub fn chars_of(s: &str) -> (r: Vec<char>)
    ensures
        r@ == s@,
{
    let mut out: Vec<char> = Vec::new();
    for c in it: s.chars()
        invariant
            out@ == it.seq().take(it.index@),
    {
        out.push(c);
    }
    out
}

/// The text made of `v[from..to]`.
pub fn string_of_range(v: &Vec<char>, from: usize, to: usize) -> (r: String)
    requires
        from <= to <= v.len(),
    ensures
        r@ == v@.subrange(from as int, to as int),
{
    let mut out = String::new();
    let mut i: usize = from;
    while i < to
        invariant
            from <= i <= to <= v.len(),
            out@ == v@.subrange(from as int, i as int),
        decreases to - i,
    {
        out.push(v[i]);
        i += 1;
        assert(v@.subrange(from as int, i as int) == v@.subrange(from as int, i - 1).push(
            v@[i - 1],
        ));
    }
    out
}

/// The text made of the characters of `v`.
pub fn string_of(v: &Vec<char>) -> (r: String)
    ensures
        r@ == v@,
{
    let r = string_of_range(v, 0, v.len());
    assert(v@.subrange(0, v.len() as int) == v@);
    r
}

/// The text made of `a` followed by `b`.
pub fn join(a: &str, b: &str) -> (r: String)
    ensures
        r@ == a@ + b@,
{
    let mut out = a.to_string();
    out.append(b);
    out
}

/// The text made of `a`, `b` and `c` in a row.
pub fn join3(a: &str, b: &str, c: &str) -> (r: String)
    ensures
        r@ == a@ + b@ + c@,
{
    let mut out = a.to_string();
    out.append(b);
    out.append(c);
    out
}

/// The characters of each text of a list.
pub open spec fn texts_model(v: Seq<String>) -> Seq<Seq<char>> {
    v.map_values(|s: String| s@)
}

/// Whether `needle` stands in `hay` at position `at`.
pub open spec fn occurs_at(hay: Seq<char>, needle: Seq<char>, at: int) -> bool {
    &&& 0 <= at
    &&& at + needle.len() <= hay.len()
    &&& hay.subrange(at, at + needle.len()) == needle
}

/// Whether `needle` is a contiguous part of `hay`. The empty text is part of
/// every text.
pub open spec fn spec_contains(hay: Seq<char>, needle: Seq<char>) -> bool {
    exists|at: int| occurs_at(hay, needle, at)
}

/// Whether `s` begins with `prefix`.
pub open spec fn spec_starts_with(s: Seq<char>, prefix: Seq<char>) -> bool {
    occurs_at(s, prefix, 0)
}

/// Whether `s` ends with `suffix`.
pub open spec fn spec_ends_with(s: Seq<char>, suffix: Seq<char>) -> bool {
    occurs_at(s, suffix, s.len() - suffix.len())
}

/// Whether `needle` stands in `hay` at position `at`.
pub fn matches_at(hay: &Vec<char>, needle: &Vec<char>, at: usize) -> (r: bool)
    ensures
        r == occurs_at(hay@, needle@, at as int),
{
    if at > hay.len() || needle.len() > hay.len() - at {
        return false;
    }
    let mut k: usize = 0;
    while k < needle.len()
        invariant
            at + needle.len() <= hay.len(),
            k <= needle.len(),
            forall|j: int| 0 <= j < k ==> hay@[at + j] == needle@[j],
        decreases needle.len() - k,
    {
        if hay[at + k] != needle[k] {
            assert(hay@.subrange(at as int, at + needle.len())[k as int] != needle@[k as int]);
            return false;
        }
        k += 1;
    }
    assert(hay@.subrange(at as int, at + needle.len()) =~= needle@);
    true
}

/// Whether `needle` is a contiguous part of `hay`.
pub fn contains_chars(hay: &Vec<char>, needle: &Vec<char>) -> (r: bool)
    ensures
        r == spec_contains(hay@, needle@),
{
    if needle.len() > hay.len() {
        return false;
    }
    let last: usize = hay.len() - needle.len();
    let mut at: usize = 0;
    while at < last
        invariant
            last == hay.len() - needle.len(),
            at <= last,
            forall|j: int| 0 <= j < at ==> !occurs_at(hay@, needle@, j),
        decreases last - at,
    {
        if matches_at(hay, needle, at) {
            return true;
        }
        at += 1;
    }
    matches_at(hay, needle, last)
}

/// Whether `needle` is a contiguous part of `hay`.
pub fn str_contains(hay: &str, needle: &str) -> (r: bool)
    ensures
        r == spec_contains(hay@, needle@),
{
    let h = chars_of(hay);
    let n = chars_of(needle);
    contains_chars(&h, &n)
}

/// Whether `s` begins with `prefix`.
pub fn str_starts_with(s: &str, prefix: &str) -> (r: bool)
    ensures
        r == spec_starts_with(s@, prefix@),
{
    let h = chars_of(s);
    let n = chars_of(prefix);
    matches_at(&h, &n, 0)
}

/// Position of the first line feed at or after `from`, or the length of `s`
/// where there is none.
pub open spec fn line_end(s: Seq<char>, from: int) -> int
    decreases s.len() - from,
{
    if from < 0 || from >= s.len() {
        s.len() as int
    } else if s[from] == '\n' {
        from
    } else {
        line_end(s, from + 1)
    }
}

/// The line that starts at `from`: the characters before the next line feed,
/// without the carriage return that directly precedes that line feed. A last
/// line that no line feed ends is taken whole.
pub open spec fn line_at(s: Seq<char>, from: int) -> Seq<char> {
    let end = line_end(s, from);
    if end < s.len() && from < end && s[end - 1] == '\r' {
        s.subrange(from, end - 1)
    } else {
        s.subrange(from, end)
    }
}

/// The lines of `s` from position `from` on.
pub open spec fn lines_from(s: Seq<char>, from: int) -> Seq<Seq<char>>
    decreases s.len() + 1 - from,
{
    if from < 0 || from >= s.len() {
        Seq::empty()
    } else {
        proof {
            lemma_line_end_bounds(s, from);
        }
        seq![line_at(s, from)] + lines_from(s, line_end(s, from) + 1)
    }
}

/// The lines of a text. Lines end at a line feed or at a carriage return
/// followed by a line feed; the ending is not part of the line, and the text
/// after the last ending is a line only if it is not empty.
pub open spec fn spec_lines(s: Seq<char>) -> Seq<Seq<char>> {
    lines_from(s, 0)
}

/// The end of a line lies at or behind its start and within the text; it is a
/// line feed or the end of the text, and no line feed stands before it.
pub proof fn lemma_line_end_bounds(s: Seq<char>, from: int)
    requires
        0 <= from <= s.len(),
    ensures
        from <= line_end(s, from) <= s.len(),
        line_end(s, from) < s.len() ==> s[line_end(s, from)] == '\n',
        forall|j: int| from <= j < line_end(s, from) ==> s[j] != '\n',
    decreases s.len() - from,
{
    if from < s.len() && s[from] != '\n' {
        lemma_line_end_bounds(s, from + 1);
    }
}

/// The lines of a text, as vectors of characters.
pub fn split_lines(text: &Vec<char>) -> (r: Vec<Vec<char>>)
    ensures
        r@.map_values(|l: Vec<char>| l@) == spec_lines(text@),
{
    let ghost s = text@;
    let mut out: Vec<Vec<char>> = Vec::new();
    let mut start: usize = 0;
    let n = text.len();
    while start < n
        invariant
            n == text.len(),
            s == text@,
            start <= n,
            out@.map_values(|l: Vec<char>| l@) + lines_from(s, start as int) == spec_lines(s),
        decreases n - start,
    {
        let mut end: usize = start;
        while end < n && text[end] != '\n'
            invariant
                n == text.len(),
                s == text@,
                start <= end <= n,
                line_end(s, start as int) == line_end(s, end as int),
            decreases n - end,
        {
            end += 1;
        }
        let stop: usize = if end < n && start < end && text[end - 1] == '\r' {
            (end - 1) as usize
        } else {
            end
        };
        let mut line: Vec<char> = Vec::new();
        let mut k: usize = start;
        while k < stop
            invariant
                start <= k <= stop <= n,
                n == text.len(),
                line@ == text@.subrange(start as int, k as int),
            decreases stop - k,
        {
            line.push(text[k]);
            k += 1;
            assert(text@.subrange(start as int, k as int) == text@.subrange(
                start as int,
                k - 1,
            ).push(text@[k - 1]));
        }
        proof {
            assert(line_end(s, start as int) == end);
            assert(line@ == line_at(s, start as int));
            let before = out@.map_values(|l: Vec<char>| l@);
            assert(out@.push(line).map_values(|l: Vec<char>| l@) =~= before.push(line@));
            assert(before.push(line@) + lines_from(s, end + 1) =~= before + lines_from(
                s,
                start as int,
            ));
            assert(end == n ==> lines_from(s, end + 1) =~= lines_from(s, n as int));
        }
        out.push(line);
        start = if end < n {
            end + 1
        } else {
            n
        };
    }
    proof {
        assert(lines_from(s, start as int) =~= Seq::<Seq<char>>::empty());
        assert(out@.map_values(|l: Vec<char>| l@) + Seq::<Seq<char>>::empty() =~= out@.map_values(
            |l: Vec<char>| l@,
        ));
    }
    out
}

/// How many lines a text has.
pub fn count_lines(text: &str) -> (r: usize)
    ensures
        r == spec_lines(text@).len(),
{
    let chars = chars_of(text);
    let lines = split_lines(&chars);
    assert(lines@.map_values(|l: Vec<char>| l@).len() == lines@.len());
    lines.len()
}

/// The character for a decimal digit.
pub open spec fn digit_char(d: int) -> char {
    if d == 0 {
        '0'
    } else if d == 1 {
        '1'
    } else if d == 2 {
        '2'
    } else if d == 3 {
        '3'
    } else if d == 4 {
        '4'
    } else if d == 5 {
        '5'
    } else if d == 6 {
        '6'
    } else if d == 7 {
        '7'
    } else if d == 8 {
        '8'
    } else {
        '9'
    }
}

/// A number written in decimal, without sign or leading zeros.
pub open spec fn decimal(n: nat) -> Seq<char>
    decreases n,
{
    if n < 10 {
        seq![digit_char(n as int)]
    } else {
        decimal(n / 10).push(digit_char((n % 10) as int))
    }
}

fn digit(d: u128) -> (c: char)
    requires
        d < 10,
    ensures
        c == digit_char(d as int),
{
    if d == 0 {
        '0'
    } else if d == 1 {
        '1'
    } else if d == 2 {
        '2'
    } else if d == 3 {
        '3'
    } else if d == 4 {
        '4'
    } else if d == 5 {
        '5'
    } else if d == 6 {
        '6'
    } else if d == 7 {
        '7'
    } else if d == 8 {
        '8'
    } else {
        '9'
    }
}

/// Writes a number of up to 128 bits in decimal.
pub fn decimal_string_wide(n: u128) -> (r: String)
    ensures
        r@ == decimal(n as nat),
{
    // The digits from the last to the first.
    let mut rev: Vec<char> = Vec::new();
    let mut rest: u128 = n;
    while rest >= 10
        invariant
            decimal(n as nat) == decimal(rest as nat) + rev@.reverse(),
        decreases rest,
    {
        let ghost before = rev@;
        rev.push(digit(rest % 10));
        proof {
            let d = digit_char((rest % 10) as int);
            assert(rev@.reverse() =~= seq![d] + before.reverse());
            assert(decimal(rest as nat) == decimal((rest / 10) as nat).push(d));
            assert(decimal((rest / 10) as nat).push(d) + before.reverse() =~= decimal(
                (rest / 10) as nat,
            ) + (seq![d] + before.reverse()));
        }
        rest = rest / 10;
    }
    let mut out = String::new();
    out.push(digit(rest));
    let mut k: usize = rev.len();
    while k > 0
        invariant
            k <= rev.len(),
            rest < 10,
            out@ == decimal(rest as nat) + rev@.reverse().subrange(0, rev.len() - k),
        decreases k,
    {
        k -= 1;
        out.push(rev[k]);
        proof {
            let r = rev@.reverse();
            assert(r.subrange(0, rev.len() - k) =~= r.subrange(0, rev.len() - k - 1).push(
                rev@[k as int],
            ));
        }
    }
    assert(rev@.reverse().subrange(0, rev.len() as int) =~= rev@.reverse());
    out
}

/// Writes a number in decimal.
pub fn decimal_string(n: u64) -> (r: String)
    ensures
        r@ == decimal(n as nat),
{
    decimal_string_wide(n as u128)
}

/// White space as Unicode lists it.
pub open spec fn is_space(c: char) -> bool {
    let u = c as u32;
    ||| 0x09 <= u <= 0x0d
    ||| u == 0x20
    ||| u == 0x85
    ||| u == 0xa0
    ||| u == 0x1680
    ||| 0x2000 <= u <= 0x200a
    ||| u == 0x2028
    ||| u == 0x2029
    ||| u == 0x202f
    ||| u == 0x205f
    ||| u == 0x3000
}

/// Where the text begins once leading white space is left out.
pub open spec fn trim_start_at(s: Seq<char>, from: int) -> int
    decreases s.len() - from,
{
    if from < 0 || from >= s.len() {
        s.len() as int
    } else if is_space(s[from]) {
        trim_start_at(s, from + 1)
    } else {
        from
    }
}

/// Where the text ends once trailing white space is left out, looking no
/// further back than `floor`.
pub open spec fn trim_end_at(s: Seq<char>, floor: int, to: int) -> int
    decreases to - floor,
{
    if to <= floor || to > s.len() {
        floor
    } else if is_space(s[to - 1]) {
        trim_end_at(s, floor, to - 1)
    } else {
        to
    }
}

/// A text without its leading and trailing white space.
pub open spec fn spec_trim(s: Seq<char>) -> Seq<char> {
    let start = trim_start_at(s, 0);
    s.subrange(start, trim_end_at(s, start, s.len() as int))
}

/// Whether a character is white space.
pub fn is_whitespace(c: char) -> (r: bool)
    ensures
        r == is_space(c),
{
    let u = c as u32;
    (0x09 <= u && u <= 0x0d) || u == 0x20 || u == 0x85 || u == 0xa0 || u == 0x1680 || (0x2000 <= u
        && u <= 0x200a) || u == 0x2028 || u == 0x2029 || u == 0x202f || u == 0x205f || u
        == 0x3000
}

/// The bounds of `v` without its leading and trailing white space.
pub fn trim_bounds(v: &Vec<char>) -> (r: (usize, usize))
    ensures
        r.0 == trim_start_at(v@, 0),
        r.1 == trim_end_at(v@, r.0 as int, v.len() as int),
        r.0 <= r.1 <= v.len(),
{
    let n = v.len();
    let mut start: usize = 0;
    while start < n && is_whitespace(v[start])
        invariant
            n == v.len(),
            start <= n,
            trim_start_at(v@, 0) == trim_start_at(v@, start as int),
        decreases n - start,
    {
        start += 1;
    }
    let mut end: usize = n;
    while end > start && is_whitespace(v[end - 1])
        invariant
            n == v.len(),
            start <= end <= n,
            trim_end_at(v@, start as int, n as int) == trim_end_at(v@, start as int, end as int),
        decreases end - start,
    {
        end -= 1;
    }
    (start, end)
}

/// A text without its leading and trailing white space.
pub fn trim(s: &str) -> (r: String)
    ensures
        r@ == spec_trim(s@),
{
    let v = chars_of(s);
    let (start, end) = trim_bounds(&v);
    string_of_range(&v, start, end)
}

/// The parts of `s` between occurrences of `sep`, from position `from` on.
/// A text without `sep` is one part; two separators side by side hold an
/// empty part between them.
pub open spec fn split_from(s: Seq<char>, sep: char, from: int) -> Seq<Seq<char>>
    decreases s.len() + 1 - from,
{
    let end = part_end(s, sep, from);
    if from < 0 || from > s.len() {
        Seq::empty()
    } else if end >= s.len() {
        seq![s.subrange(from, s.len() as int)]
    } else {
        proof {
            lemma_part_end_bounds(s, sep, from);
        }
        seq![s.subrange(from, end)] + split_from(s, sep, end + 1)
    }
}

/// Position of the first `sep` at or after `from`, or the length of `s`.
pub open spec fn part_end(s: Seq<char>, sep: char, from: int) -> int
    decreases s.len() - from,
{
    if from < 0 || from >= s.len() {
        s.len() as int
    } else if s[from] == sep {
        from
    } else {
        part_end(s, sep, from + 1)
    }
}

/// The end of a part lies at or behind its start and within the text; it is a
/// separator or the end of the text, and no separator stands before it.
pub proof fn lemma_part_end_bounds(s: Seq<char>, sep: char, from: int)
    requires
        0 <= from <= s.len(),
    ensures
        from <= part_end(s, sep, from) <= s.len(),
        part_end(s, sep, from) < s.len() ==> s[part_end(s, sep, from)] == sep,
        forall|j: int| from <= j < part_end(s, sep, from) ==> s[j] != sep,
    decreases s.len() - from,
{
    if from < s.len() && s[from] != sep {
        lemma_part_end_bounds(s, sep, from + 1);
    }
}

/// The parts of a text between occurrences of `sep`.
pub open spec fn spec_split(s: Seq<char>, sep: char) -> Seq<Seq<char>> {
    split_from(s, sep, 0)
}

/// The parts of `v` between occurrences of `sep`.
pub fn split_chars(v: &Vec<char>, sep: char) -> (r: Vec<Vec<char>>)
    ensures
        r@.map_values(|p: Vec<char>| p@) == spec_split(v@, sep),
{
    let ghost s = v@;
    let n = v.len();
    let mut out: Vec<Vec<char>> = Vec::new();
    let mut part: Vec<char> = Vec::new();
    let mut start: usize = 0;
    let mut i: usize = 0;
    while i < n
        invariant
            n == v.len(),
            s == v@,
            start <= i <= n,
            part@ == s.subrange(start as int, i as int),
            part_end(s, sep, start as int) == part_end(s, sep, i as int),
            out@.map_values(|p: Vec<char>| p@) + split_from(s, sep, start as int) == spec_split(
                s,
                sep,
            ),
        decreases n - i,
    {
        if v[i] == sep {
            proof {
                let before = out@.map_values(|p: Vec<char>| p@);
                assert(part_end(s, sep, start as int) == i);
                assert(out@.push(part).map_values(|p: Vec<char>| p@) =~= before.push(part@));
                assert(before.push(part@) + split_from(s, sep, i + 1) =~= before + split_from(
                    s,
                    sep,
                    start as int,
                ));
            }
            out.push(part);
            part = Vec::new();
            i += 1;
            start = i;
            assert(s.subrange(start as int, i as int) =~= Seq::<char>::empty());
        } else {
            part.push(v[i]);
            i += 1;
            assert(s.subrange(start as int, i as int) == s.subrange(start as int, i - 1).push(
                s[i - 1],
            ));
        }
    }
    proof {
        let before = out@.map_values(|p: Vec<char>| p@);
        assert(part_end(s, sep, start as int) == n);
        assert(out@.push(part).map_values(|p: Vec<char>| p@) =~= before.push(part@));
        assert(before.push(part@) =~= before + split_from(s, sep, start as int));
    }
    out.push(part);
    out
}

/// The characters `v[from..to]`.
pub fn sub_chars(v: &Vec<char>, from: usize, to: usize) -> (r: Vec<char>)
    requires
        from <= to <= v.len(),
    ensures
        r@ == v@.subrange(from as int, to as int),
{
    let mut out: Vec<char> = Vec::new();
    let mut i: usize = from;
    while i < to
        invariant
            from <= i <= to <= v.len(),
            out@ == v@.subrange(from as int, i as int),
        decreases to - i,
    {
        out.push(v[i]);
        i += 1;
        assert(v@.subrange(from as int, i as int) == v@.subrange(from as int, i - 1).push(
            v@[i - 1],
        ));
    }
    out
}

/// The characters without leading and trailing white space.
pub fn trim_chars(v: &Vec<char>) -> (r: Vec<char>)
    ensures
        r@ == spec_trim(v@),
{
    let (start, end) = trim_bounds(v);
    sub_chars(v, start, end)
}

/// What follows `prefix` in a text that begins with it.
pub open spec fn spec_strip_prefix(s: Seq<char>, prefix: Seq<char>) -> Option<Seq<char>> {
    if spec_starts_with(s, prefix) {
        Some(s.subrange(prefix.len() as int, s.len() as int))
    } else {
        None
    }
}

/// The characters of an optional run of characters.
pub open spec fn opt_chars(o: Option<Vec<char>>) -> Option<Seq<char>> {
    match o {
        Some(v) => Some(v@),
        None => None,
    }
}

/// What follows `prefix` in `v`, if `v` begins with it.
pub fn strip_prefix(v: &Vec<char>, prefix: &Vec<char>) -> (r: Option<Vec<char>>)
    ensures
        opt_chars(r) == spec_strip_prefix(v@, prefix@),
{
    if matches_at(v, prefix, 0) {
        Some(sub_chars(v, prefix.len(), v.len()))
    } else {
        None
    }
}

/// A text without every `pattern` that it begins with, one after the other.
pub open spec fn spec_trim_start_matches(s: Seq<char>, pattern: Seq<char>) -> Seq<char>
    decreases s.len(),
{
    if pattern.len() > 0 && spec_starts_with(s, pattern) {
        spec_trim_start_matches(s.subrange(pattern.len() as int, s.len() as int), pattern)
    } else {
        s
    }
}

/// A text without every `pattern` that it ends with, one after the other.
pub open spec fn spec_trim_end_matches(s: Seq<char>, pattern: Seq<char>) -> Seq<char>
    decreases s.len(),
{
    if pattern.len() > 0 && spec_ends_with(s, pattern) {
        spec_trim_end_matches(s.subrange(0, s.len() - pattern.len()), pattern)
    } else {
        s
    }
}

/// The characters without every `pattern` that they begin with.
pub fn trim_start_matches(v: &Vec<char>, pattern: &Vec<char>) -> (r: Vec<char>)
    ensures
        r@ == spec_trim_start_matches(v@, pattern@),
{
    let n = v.len();
    let mut from: usize = 0;
    assert(v@.subrange(0, n as int) =~= v@);
    if pattern.len() > 0 {
        while matches_at(v, pattern, from)
            invariant
                from <= n,
                n == v.len(),
                pattern.len() > 0,
                spec_trim_start_matches(v@, pattern@) == spec_trim_start_matches(
                    v@.subrange(from as int, n as int),
                    pattern@,
                ),
            decreases n - from,
        {
            proof {
                let rest = v@.subrange(from as int, n as int);
                assert(rest.subrange(0, pattern.len() as int) =~= v@.subrange(
                    from as int,
                    from + pattern.len(),
                ));
                assert(rest.subrange(pattern.len() as int, rest.len() as int) =~= v@.subrange(
                    from + pattern.len(),
                    n as int,
                ));
            }
            from += pattern.len();
        }
        proof {
            let rest = v@.subrange(from as int, n as int);
            if from + pattern.len() <= n {
                assert(rest.subrange(0, pattern.len() as int) =~= v@.subrange(
                    from as int,
                    from + pattern.len(),
                ));
            }
        }
    }
    sub_chars(v, from, n)
}

/// The characters without every `pattern` that they end with.
pub fn trim_end_matches(v: &Vec<char>, pattern: &Vec<char>) -> (r: Vec<char>)
    ensures
        r@ == spec_trim_end_matches(v@, pattern@),
{
    let m = pattern.len();
    let mut to: usize = v.len();
    assert(v@.subrange(0, to as int) =~= v@);
    if m > 0 {
        while to >= m && matches_at(v, pattern, to - m)
            invariant
                to <= v.len(),
                m == pattern.len(),
                m > 0,
                spec_trim_end_matches(v@, pattern@) == spec_trim_end_matches(
                    v@.subrange(0, to as int),
                    pattern@,
                ),
            decreases to,
        {
            proof {
                let rest = v@.subrange(0, to as int);
                assert(rest.subrange(to - m, to as int) =~= v@.subrange(to - m, to as int));
                assert(rest.subrange(0, to - m) =~= v@.subrange(0, to - m));
            }
            to -= m;
        }
        proof {
            let rest = v@.subrange(0, to as int);
            if to >= m {
                assert(rest.subrange(to - m, to as int) =~= v@.subrange(to - m, to as int));
            }
        }
    }
    sub_chars(v, 0, to)
}

/// Where the text begins once every leading `c` is left out.
pub open spec fn char_start_at(s: Seq<char>, c: char, from: int) -> int
    decreases s.len() - from,
{
    if from < 0 || from >= s.len() {
        s.len() as int
    } else if s[from] == c {
        char_start_at(s, c, from + 1)
    } else {
        from
    }
}

/// Where the text ends once every trailing `c` is left out, looking no
/// further back than `floor`.
pub open spec fn char_end_at(s: Seq<char>, c: char, floor: int, to: int) -> int
    decreases to - floor,
{
    if to <= floor || to > s.len() {
        floor
    } else if s[to - 1] == c {
        char_end_at(s, c, floor, to - 1)
    } else {
        to
    }
}

/// A text without the `c` at its start and at its end, however many
/// there are.
pub open spec fn spec_trim_char(s: Seq<char>, c: char) -> Seq<char> {
    let start = char_start_at(s, c, 0);
    s.subrange(start, char_end_at(s, c, start, s.len() as int))
}

/// The characters without the `c` at their start and at their end.
pub fn trim_char(v: &Vec<char>, c: char) -> (r: Vec<char>)
    ensures
        r@ == spec_trim_char(v@, c),
{
    let n = v.len();
    let mut start: usize = 0;
    while start < n && v[start] == c
        invariant
            n == v.len(),
            start <= n,
            char_start_at(v@, c, 0) == char_start_at(v@, c, start as int),
        decreases n - start,
    {
        start += 1;
    }
    let mut end: usize = n;
    while end > start && v[end - 1] == c
        invariant
            n == v.len(),
            start <= end <= n,
            char_end_at(v@, c, start as int, n as int) == char_end_at(
                v@,
                c,
                start as int,
                end as int,
            ),
        decreases end - start,
    {
        end -= 1;
    }
    sub_chars(v, start, end)
}

/// Whether a character is a decimal digit.
pub open spec fn is_digit(c: char) -> bool {
    '0' <= c && c <= '9'
}

/// The value of a decimal digit.
pub open spec fn digit_value(c: char) -> nat {
    (c as u32 - '0' as u32) as nat
}

/// The number that digits write; leading zeros count for nothing.
pub open spec fn digits_value(s: Seq<char>) -> nat
    decreases s.len(),
{
    if s.len() == 0 {
        0
    } else {
        digits_value(s.drop_last()) * 10 + digit_value(s.last())
    }
}

/// Whether a text is made of decimal digits, at least one.
pub open spec fn is_number(s: Seq<char>) -> bool {
    s.len() > 0 && forall|i: int| 0 <= i < s.len() ==> is_digit(#[trigger] s[i])
}

/// A text without the plus sign that it may begin with.
pub open spec fn unsigned_part(s: Seq<char>) -> Seq<char> {
    if s.len() > 0 && s[0] == '+' {
        s.subrange(1, s.len() as int)
    } else {
        s
    }
}

/// The number that a text writes: decimal digits after at most one plus
/// sign, of a value that sixty-four bits hold.
pub open spec fn spec_parse_u64(s: Seq<char>) -> Option<u64> {
    let digits = unsigned_part(s);
    if is_number(digits) && digits_value(digits) <= u64::MAX {
        Some(digits_value(digits) as u64)
    } else {
        None
    }
}

proof fn lemma_digits_grow(s: Seq<char>, upto: int)
    requires
        0 <= upto <= s.len(),
    ensures
        digits_value(s.take(upto)) <= digits_value(s),
    decreases s.len() - upto,
{
    if upto < s.len() {
        lemma_digits_grow(s, upto + 1);
        assert(s.take(upto + 1).drop_last() =~= s.take(upto));
        assert(digits_value(s.take(upto)) * 10 >= digits_value(s.take(upto))) by (nonlinear_arith)
            requires
                digits_value(s.take(upto)) >= 0,
        ;
    } else {
        assert(s.take(upto) =~= s);
    }
}

/// Reads a number written in decimal.
pub fn parse_u64(v: &Vec<char>) -> (r: Option<u64>)
    ensures
        r == spec_parse_u64(v@),
{
    let n = v.len();
    let first: usize = if n > 0 && v[0] == '+' {
        1
    } else {
        0
    };
    let ghost digits = v@.subrange(first as int, n as int);
    proof {
        if first == 0 {
            assert(digits =~= v@);
        }
    }
    if first == n {
        return None;
    }
    let mut value: u64 = 0;
    let mut i: usize = first;
    assert(digits.take(0) =~= Seq::<char>::empty());
    while i < n
        invariant
            first <= i <= n,
            n == v.len(),
            first < n,
            digits == v@.subrange(first as int, n as int),
            digits == unsigned_part(v@),
            forall|j: int| 0 <= j < i - first ==> is_digit(#[trigger] digits[j]),
            value == digits_value(digits.take(i - first)),
        decreases n - i,
    {
        let c = v[i];
        assert(digits[i - first] == c);
        if !(c >= '0' && c <= '9') {
            assert(!is_digit(digits[i - first]));
            return None;
        }
        let d: u64 = (c as u32 - '0' as u32) as u64;
        proof {
            assert(digits.take(i - first + 1).drop_last() =~= digits.take(i - first));
            assert(digits.take(i - first + 1).last() == c);
            lemma_digits_grow(digits, i - first + 1);
        }
        if value > (u64::MAX - d) / 10 {
            assert(digits_value(digits.take(i - first + 1)) > u64::MAX) by (nonlinear_arith)
                requires
                    digits_value(digits.take(i - first + 1)) == value * 10 + d,
                    value > (u64::MAX - d) / 10,
                    d < 10,
            ;
            return None;
        }
        assert(value * 10 + d <= u64::MAX) by (nonlinear_arith)
            requires
                value <= (u64::MAX - d) / 10,
                d < 10,
        ;
        value = value * 10 + d;
        i += 1;
    }
    assert(digits.take(n - first) =~= digits);
    Some(value)
}

/// Where a text too long for `max_len` bytes is cut: three bytes short of
/// `max_len` where an ellipsis fits in, else at `max_len`.
pub open spec fn cut_point(max_len: usize) -> int {
    if max_len > 3 {
        max_len - 3
    } else {
        max_len as int
    }
}

/// Whether a text can be shortened to `max_len` bytes: it is short enough,
/// or the cut falls between two characters.
pub open spec fn can_truncate(s: Seq<char>, max_len: usize) -> bool {
    encode_utf8(s).len() > max_len ==> is_char_boundary(encode_utf8(s), cut_point(max_len))
}

/// A text shortened to at most `max_len` bytes: a text that fits stays; a
/// longer one is cut, and ends in an ellipsis where `max_len` leaves room
/// for one.
pub open spec fn spec_truncate(s: Seq<char>, max_len: usize) -> Seq<char> {
    if encode_utf8(s).len() <= max_len {
        s
    } else if max_len > 3 {
        decode_utf8(encode_utf8(s).subrange(0, cut_point(max_len))) + "..."@
    } else {
        decode_utf8(encode_utf8(s).subrange(0, cut_point(max_len)))
    }
}

/// Shortens a text to at most `max_len` bytes, or gives `None` where the
/// cut would fall inside a character.
pub fn truncate_checked(s: &str, max_len: usize) -> (r: Option<String>)
    ensures
        r.is_some() == can_truncate(s@, max_len),
        r matches Some(short) ==> short@ == spec_truncate(s@, max_len),
{
    let n = s.as_bytes().len();
    if n <= max_len {
        return Some(s.to_string());
    }
    let cut: usize = if max_len > 3 {
        max_len - 3
    } else {
        max_len
    };
    if !s.is_char_boundary(cut) {
        return None;
    }
    let (head, _) = s.split_at(cut);
    proof {
        vstd::utf8::encode_utf8_decode_utf8(head@);
    }
    if max_len > 3 {
        Some(join(head, "..."))
    } else {
        Some(head.to_string())
    }
}

/// Shortens a text to at most `max_len` bytes.
pub fn truncate(s: &str, max_len: usize) -> (r: String)
    requires
        can_truncate(s@, max_len),
    ensures
        r@ == spec_truncate(s@, max_len),
{
    match truncate_checked(s, max_len) {
        Some(short) => short,
        None => s.to_string(),
    }
}

} // verus!
