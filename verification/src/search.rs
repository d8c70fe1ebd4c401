//! Search in the log: which lines match a query, and the cyclic walk through
//! the matches.
use crate::ansi::{spec_strip_ansi, strip_chars};
use crate::text::{chars_of, contains_chars, spec_contains, spec_lines, split_lines};
use vstd::arithmetic::div_mod::lemma_fundamental_div_mod_converse;
use vstd::arithmetic::div_mod::lemma_fundamental_div_mod;
use vstd::prelude::*;

verus! {

/// The text that `str::to_lowercase` gives for a text: its lower-case form
/// by Unicode's rules.
pub uninterp spec fn lowercase(s: Seq<char>) -> Seq<char>;

/// The lower-case form of a text, by `str::to_lowercase` of the standard
/// library. The contract gives that form a name and claims nothing else
/// of it.
#[verifier::external_body]
pub(crate) fn to_lowercase(s: &str) -> (r: String)
    ensures
        r@ == lowercase(s@),
{
    s.to_lowercase()
}

/// The index after `i` in a cycle of `n`.
pub open spec fn spec_next_index(i: usize, n: usize) -> usize {
    ((i + 1) % (n as int)) as usize
}

/// The index before `i` in a cycle of `n`.
pub open spec fn spec_previous_index(i: usize, n: usize) -> usize {
    ((i + n - 1) % (n as int)) as usize
}

/// The index reached from `i` by `steps` steps forward in a cycle of `n`.
pub open spec fn walk_forward(i: usize, n: usize, steps: nat) -> usize
    decreases steps,
{
    if steps == 0 {
        i
    } else {
        spec_next_index(walk_forward(i, n, (steps - 1) as nat), n)
    }
}

proof fn lemma_step(i: int, n: int)
    requires
        0 <= i,
        0 < n,
    ensures
        (i + 1) % n == (if i % n + 1 == n {
            0
        } else {
            i % n + 1
        }),
        (i + n - 1) % n == (if i % n == 0 {
            n - 1
        } else {
            i % n - 1
        }),
        0 <= i % n < n,
{
    let q = i / n;
    let r = i % n;
    lemma_fundamental_div_mod(i, n);
    assert(0 <= r < n) by (nonlinear_arith)
        requires
            r == i % n,
            0 < n,
    ;
    assert(i == q * n + r) by (nonlinear_arith)
        requires
            i == n * q + r,
    ;
    if r + 1 == n {
        assert(i + 1 == (q + 1) * n + 0) by (nonlinear_arith)
            requires
                i == q * n + r,
                r + 1 == n,
        ;
        lemma_fundamental_div_mod_converse(i + 1, n, q + 1, 0);
    } else {
        lemma_fundamental_div_mod_converse(i + 1, n, q, r + 1);
    }
    if r == 0 {
        lemma_fundamental_div_mod_converse(i + n - 1, n, q, n - 1);
    } else {
        assert(i + n - 1 == (q + 1) * n + (r - 1)) by (nonlinear_arith)
            requires
                i == q * n + r,
        ;
        lemma_fundamental_div_mod_converse(i + n - 1, n, q + 1, r - 1);
    }
}

/// The index after `i` in a cycle of `n`.
pub fn next_index(i: usize, n: usize) -> (r: usize)
    requires
        n > 0,
    ensures
        r == spec_next_index(i, n),
        r < n,
{
    proof {
        lemma_step(i as int, n as int);
    }
    let at = i % n;
    if at + 1 == n {
        0
    } else {
        at + 1
    }
}

/// The index before `i` in a cycle of `n`.
pub fn previous_index(i: usize, n: usize) -> (r: usize)
    requires
        n > 0,
    ensures
        r == spec_previous_index(i, n),
        r < n,
{
    proof {
        lemma_step(i as int, n as int);
    }
    let at = i % n;
    if at == 0 {
        n - 1
    } else {
        at - 1
    }
}

proof fn lemma_walk(i: usize, n: usize, steps: nat)
    requires
        i < n,
        steps <= n,
    ensures
        walk_forward(i, n, steps) as int == (if i + steps < n {
            i + steps
        } else {
            i + steps - n
        }),
    decreases steps,
{
    if steps > 0 {
        lemma_walk(i, n, (steps - 1) as nat);
        let at = walk_forward(i, n, (steps - 1) as nat);
        lemma_step(at as int, n as int);
        vstd::arithmetic::div_mod::lemma_small_mod(at as nat, n as nat);
    }
}

/// In a list of `n` matches, `n` steps forward from a match lead back to it.
pub proof fn lemma_next_comes_round(i: usize, n: usize)
    requires
        i < n,
    ensures
        walk_forward(i, n, n as nat) == i,
{
    lemma_walk(i, n, n as nat);
}

/// One step back from the first of `n` matches leads to the last, and a
/// step back undoes a step forward.
pub proof fn lemma_previous_wraps(i: usize, n: usize)
    requires
        i < n,
    ensures
        spec_previous_index(0, n) == n - 1,
        spec_previous_index(spec_next_index(i, n), n) == i,
        spec_next_index(spec_previous_index(i, n), n) == i,
{
    lemma_step(0, n as int);
    vstd::arithmetic::div_mod::lemma_small_mod(0, n as nat);
    lemma_step(i as int, n as int);
    vstd::arithmetic::div_mod::lemma_small_mod(i as nat, n as nat);
    let up = spec_next_index(i, n);
    lemma_step(up as int, n as int);
    vstd::arithmetic::div_mod::lemma_small_mod(up as nat, n as nat);
    let down = spec_previous_index(i, n);
    lemma_step(down as int, n as int);
    vstd::arithmetic::div_mod::lemma_small_mod(down as nat, n as nat);
}

/// The numbers of the first `upto` lines that hold `needle`, ascending.
pub open spec fn containing(lines: Seq<Seq<char>>, needle: Seq<char>, upto: int) -> Seq<usize>
    decreases upto,
{
    if upto <= 0 || upto > lines.len() {
        Seq::empty()
    } else if spec_contains(lines[upto - 1], needle) {
        containing(lines, needle, upto - 1).push((upto - 1) as usize)
    } else {
        containing(lines, needle, upto - 1)
    }
}

/// What a log line is compared by: its cleaned text in lower case.
pub open spec fn folded(line: Seq<char>) -> Seq<char> {
    lowercase(spec_strip_ansi(line))
}

/// The numbers of the lines of a log that match a query: those whose
/// cleaned text holds the query, case not counting.
pub open spec fn matching_lines(logs: Seq<char>, query: Seq<char>) -> Seq<usize> {
    let lines = spec_lines(logs).map_values(|l: Seq<char>| folded(l));
    containing(lines, lowercase(query), lines.len() as int)
}

/// The numbers of the lines that hold `needle`, ascending.
pub fn match_indices(lines: &Vec<Vec<char>>, needle: &Vec<char>) -> (r: Vec<usize>)
    ensures
        r@ == containing(lines@.map_values(|l: Vec<char>| l@), needle@, lines.len() as int),
{
    let ghost model = lines@.map_values(|l: Vec<char>| l@);
    let mut out: Vec<usize> = Vec::new();
    let mut i: usize = 0;
    while i < lines.len()
        invariant
            i <= lines.len(),
            model == lines@.map_values(|l: Vec<char>| l@),
            out@ == containing(model, needle@, i as int),
        decreases lines.len() - i,
    {
        if contains_chars(&lines[i], needle) {
            out.push(i);
        }
        i += 1;
    }
    out
}

/// The numbers of the lines of `logs` that match `query`.
pub fn find_matches(logs: &str, query: &str) -> (r: Vec<usize>)
    ensures
        r@ == matching_lines(logs@, query@),
{
    let text = chars_of(logs);
    let raw = split_lines(&text);
    let ghost lines = spec_lines(logs@);
    let mut lowered: Vec<Vec<char>> = Vec::new();
    let mut i: usize = 0;
    while i < raw.len()
        invariant
            i <= raw.len(),
            raw@.map_values(|l: Vec<char>| l@) == lines,
            lowered@.map_values(|l: Vec<char>| l@) == lines.take(i as int).map_values(
                |l: Seq<char>| folded(l),
            ),
        decreases raw.len() - i,
    {
        let clean = crate::text::string_of(&strip_chars(&raw[i]));
        let low = chars_of(to_lowercase(clean.as_str()).as_str());
        proof {
            assert(raw@.map_values(|l: Vec<char>| l@)[i as int] == raw@[i as int]@);
            assert(low@ == folded(lines[i as int]));
            let before = lowered@.map_values(|l: Vec<char>| l@);
            assert(lowered@.push(low).map_values(|l: Vec<char>| l@) =~= before.push(low@));
            assert(lines.take(i + 1).map_values(|l: Seq<char>| folded(l)) =~= lines.take(
                i as int,
            ).map_values(|l: Seq<char>| folded(l)).push(folded(lines[i as int])));
        }
        lowered.push(low);
        i += 1;
    }
    let needle = chars_of(to_lowercase(query).as_str());
    proof {
        assert(lines.take(raw.len() as int) =~= lines);
        assert(raw@.map_values(|l: Vec<char>| l@).len() == raw.len());
    }
    match_indices(&lowered, &needle)
}

} // verus!
