//! Removal of terminal escape sequences and control characters from log
//! lines.
use crate::text::chars_of;
use vstd::prelude::*;

verus! {

/// The escape character that opens a terminal control sequence.
pub open spec fn is_escape(c: char) -> bool {
    c == '\x1b'
}

/// An ASCII letter: what ends a control sequence.
pub open spec fn is_ascii_letter(c: char) -> bool {
    ('a' <= c && c <= 'z') || ('A' <= c && c <= 'Z')
}

/// An ASCII control character: below the space, or the delete character.
pub open spec fn is_ascii_control(c: char) -> bool {
    (c as u32) < 0x20 || c == '\x7f'
}

/// What one character outside any escape sequence becomes: a tab becomes
/// four spaces, a control character other than the line feed vanishes, any
/// other character stays.
pub open spec fn plain_char(c: char) -> Seq<char> {
    if c == '\t' {
        seq![' ', ' ', ' ', ' ']
    } else if is_ascii_control(c) && c != '\n' {
        Seq::empty()
    } else {
        seq![c]
    }
}

/// The cleaned text of `s` from position `from` on. `in_sequence` says that
/// the scan stands inside a control sequence, whose characters are dropped
/// up to and including its first ASCII letter; a sequence that the text cuts
/// short is dropped to the end. An escape character that no `[` follows is
/// dropped alone.
pub open spec fn strip_from(s: Seq<char>, from: int, in_sequence: bool) -> Seq<char>
    decreases s.len() - from,
{
    if from < 0 || from >= s.len() {
        Seq::empty()
    } else if in_sequence {
        strip_from(s, from + 1, !is_ascii_letter(s[from]))
    } else if is_escape(s[from]) {
        if from + 1 < s.len() && s[from + 1] == '[' {
            strip_from(s, from + 2, true)
        } else {
            strip_from(s, from + 1, false)
        }
    } else {
        plain_char(s[from]) + strip_from(s, from + 1, false)
    }
}

/// A text without its control sequences, with tabs expanded and control
/// characters removed.
pub open spec fn spec_strip_ansi(s: Seq<char>) -> Seq<char> {
    strip_from(s, 0, false)
}

/// The text `s` from `from` on with tabs expanded and control characters
/// removed, escape sequences not considered.
pub open spec fn plain_from(s: Seq<char>, from: int) -> Seq<char>
    decreases s.len() - from,
{
    if from < 0 || from >= s.len() {
        Seq::empty()
    } else {
        plain_char(s[from]) + plain_from(s, from + 1)
    }
}

/// Strips the control sequences of `s`, expands its tabs to four spaces and
/// drops its other control characters, the line feed excepted.
pub fn strip_chars(s: &Vec<char>) -> (r: Vec<char>)
    ensures
        r@ == spec_strip_ansi(s@),
{
    let mut out: Vec<char> = Vec::new();
    let mut i: usize = 0;
    let mut in_sequence = false;
    while i < s.len()
        invariant
            i <= s.len(),
            out@ + strip_from(s@, i as int, in_sequence) == spec_strip_ansi(s@),
        decreases s.len() - i,
    {
        let c = s[i];
        let ghost before = out@;
        if in_sequence {
            in_sequence = !((c >= 'a' && c <= 'z') || (c >= 'A' && c <= 'Z'));
            i += 1;
        } else if c == '\x1b' {
            if i + 1 < s.len() && s[i + 1] == '[' {
                in_sequence = true;
                i += 2;
            } else {
                i += 1;
            }
        } else if c == '\t' {
            out.push(' ');
            out.push(' ');
            out.push(' ');
            out.push(' ');
            i += 1;
            assert(out@ =~= before + plain_char(c));
            assert((before + plain_char(c)) + strip_from(s@, i as int, false) =~= before + (
            plain_char(c) + strip_from(s@, i as int, false)));
        } else if ((c as u32) < 0x20 || c == '\x7f') && c != '\n' {
            i += 1;
            assert(plain_char(c) + strip_from(s@, i as int, false) =~= strip_from(
                s@,
                i as int,
                false,
            ));
        } else {
            out.push(c);
            i += 1;
            assert(out@ =~= before + plain_char(c));
            assert((before + plain_char(c)) + strip_from(s@, i as int, false) =~= before + (
            plain_char(c) + strip_from(s@, i as int, false)));
        }
    }
    assert(out@ + Seq::<char>::empty() =~= out@);
    out
}

/// Strips the control sequences of a line of text, expands its tabs to four
/// spaces and drops its other control characters, the line feed excepted.
pub fn strip_ansi(s: &str) -> (r: String)
    ensures
        r@ == spec_strip_ansi(s@),
{
    let chars = chars_of(s);
    let clean = strip_chars(&chars);
    crate::text::string_of(&clean)
}

/// Whether a control sequence opens at position `at`: an escape character
/// with a `[` behind it.
pub open spec fn opens_sequence(s: Seq<char>, at: int) -> bool {
    0 <= at && at + 1 < s.len() && is_escape(s[at]) && s[at + 1] == '['
}

/// Whether no control sequence opens anywhere in a text.
pub open spec fn has_no_sequence(s: Seq<char>) -> bool {
    forall|j: int| 0 <= j < s.len() ==> !opens_sequence(s, j)
}

proof fn lemma_strip_without_sequence(s: Seq<char>, from: int)
    requires
        0 <= from <= s.len(),
        has_no_sequence(s),
    ensures
        strip_from(s, from, false) == plain_from(s, from),
    decreases s.len() - from,
{
    if from < s.len() {
        lemma_strip_without_sequence(s, from + 1);
        assert(!opens_sequence(s, from));
        if is_escape(s[from]) {
            assert(plain_char(s[from]) + plain_from(s, from + 1) =~= plain_from(s, from + 1));
        }
    }
}

/// A text in which no control sequence opens comes out unchanged but for
/// the expansion of its tabs and the removal of its control characters.
pub proof fn lemma_strip_ansi_plain(s: Seq<char>)
    requires
        has_no_sequence(s),
    ensures
        spec_strip_ansi(s) == plain_from(s, 0),
{
    lemma_strip_without_sequence(s, 0);
}

/// A character that cleaning leaves as it is.
pub open spec fn stays(c: char) -> bool {
    !is_escape(c) && c != '\t' && (!is_ascii_control(c) || c == '\n')
}

/// A text all of whose characters cleaning leaves as they are.
pub open spec fn is_plain(s: Seq<char>) -> bool {
    forall|j: int| 0 <= j < s.len() ==> stays(#[trigger] s[j])
}

proof fn lemma_plain_identity(s: Seq<char>, from: int)
    requires
        0 <= from <= s.len(),
        is_plain(s),
    ensures
        plain_from(s, from) == s.subrange(from, s.len() as int),
    decreases s.len() - from,
{
    if from < s.len() {
        lemma_plain_identity(s, from + 1);
        assert(stays(s[from]));
        assert(seq![s[from]] + s.subrange(from + 1, s.len() as int) =~= s.subrange(
            from,
            s.len() as int,
        ));
    } else {
        assert(s.subrange(from, s.len() as int) =~= Seq::<char>::empty());
    }
}

/// A text that holds no escape character, no tab and no control character
/// but line feeds comes out as it went in.
pub proof fn lemma_strip_ansi_identity(s: Seq<char>)
    requires
        is_plain(s),
    ensures
        spec_strip_ansi(s) == s,
{
    assert forall|j: int| 0 <= j < s.len() implies !opens_sequence(s, j) by {
        assert(stays(s[j]));
    }
    lemma_strip_ansi_plain(s);
    lemma_plain_identity(s, 0);
    assert(s.subrange(0, s.len() as int) =~= s);
}

proof fn lemma_strip_output_plain(s: Seq<char>, from: int, in_sequence: bool)
    requires
        0 <= from <= s.len(),
    ensures
        is_plain(strip_from(s, from, in_sequence)),
    decreases s.len() - from,
{
    if from < s.len() {
        if in_sequence {
            lemma_strip_output_plain(s, from + 1, !is_ascii_letter(s[from]));
        } else if is_escape(s[from]) {
            if from + 1 < s.len() && s[from + 1] == '[' {
                lemma_strip_output_plain(s, from + 2, true);
            } else {
                lemma_strip_output_plain(s, from + 1, false);
            }
        } else {
            lemma_strip_output_plain(s, from + 1, false);
            let head = plain_char(s[from]);
            let rest = strip_from(s, from + 1, false);
            assert forall|j: int| 0 <= j < (head + rest).len() implies stays(
                #[trigger] (head + rest)[j],
            ) by {
                if j >= head.len() {
                    assert((head + rest)[j] == rest[j - head.len()]);
                }
            }
        }
    }
}

/// What cleaning gives holds no escape character, no tab and no control
/// character but line feeds, so cleaning it again changes nothing.
pub proof fn lemma_strip_ansi_idempotent(s: Seq<char>)
    ensures
        is_plain(spec_strip_ansi(s)),
        spec_strip_ansi(spec_strip_ansi(s)) == spec_strip_ansi(s),
{
    lemma_strip_output_plain(s, 0, false);
    lemma_strip_ansi_identity(spec_strip_ansi(s));
}

} // verus!
