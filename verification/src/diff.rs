//! A unified diff cut into blocks, one per file, each under a header.
use crate::text::{
    chars_of, is_space, is_whitespace, matches_at, spec_lines, spec_starts_with, split_lines,
    string_of, string_of_range, trim_start_at,
};
use vstd::prelude::*;
use vstd::string::*;

verus! {

/// What a line of the output is, for whoever colours it.
#[derive(Clone, Copy, PartialEq, Eq, Structural, Debug)]
pub enum DiffLineKind {
    /// The rule above and below a file's name.
    Rule,
    /// A file's name.
    FileName,
    Added,
    Removed,
    /// The `@@` line that opens a hunk.
    Hunk,
    Context,
}

/// A line of the output.
#[derive(Debug, PartialEq, Eq)]
pub struct DiffLine {
    pub kind: DiffLineKind,
    pub text: String,
}

/// The model of `DiffLine`: texts as sequences of characters, lists as sequences of
/// models.
pub struct DiffLineModel {
    pub kind: DiffLineKind,
    pub text: Seq<char>,
}

impl View for DiffLine {
    type V = DiffLineModel;

    open spec fn view(&self) -> DiffLineModel {
        DiffLineModel { kind: self.kind, text: self.text@ }
    }
}

impl Clone for DiffLine {
    fn clone(&self) -> (r: Self)
        ensures
            r@ == self@,
    {
        DiffLine { kind: self.kind, text: self.text.clone() }
    }
}

/// The models of the items of a list.
pub open spec fn diff_lines_model(v: Seq<DiffLine>) -> Seq<DiffLineModel> {
    v.map_values(|l: DiffLine| l@)
}

/// How wide the rule of a header is.
pub const RULE_WIDTH: usize = 60;

/// The rule of a header.
pub open spec fn rule_text() -> Seq<char> {
    Seq::new(RULE_WIDTH as nat, |i: int| '\u{2500}')
}

/// Position of the first white space at or after `from`, or the length of
/// `s`.
pub open spec fn word_end(s: Seq<char>, from: int) -> int
    decreases s.len() - from,
{
    if from < 0 || from >= s.len() {
        s.len() as int
    } else if is_space(s[from]) {
        from
    } else {
        word_end(s, from + 1)
    }
}

/// Where a word starts and ends lies within the text, and a word that starts on a
/// character that is no white space is not empty.
pub proof fn lemma_word_bounds(s: Seq<char>, from: int)
    requires
        0 <= from <= s.len(),
    ensures
        from <= trim_start_at(s, from) <= s.len(),
        trim_start_at(s, from) < s.len() ==> !is_space(s[trim_start_at(s, from)]),
        from <= word_end(s, from) <= s.len(),
        from < s.len() && !is_space(s[from]) ==> from < word_end(s, from),
    decreases s.len() - from,
{
    if from < s.len() {
        lemma_word_bounds(s, from + 1);
    }
}

/// The words of `s` from `from` on: its longest runs without white space.
pub open spec fn words_from(s: Seq<char>, from: int) -> Seq<Seq<char>>
    decreases s.len() + 1 - from,
{
    let start = trim_start_at(s, from);
    if from < 0 || from > s.len() || start >= s.len() {
        Seq::empty()
    } else {
        proof {
            lemma_word_bounds(s, from);
            lemma_word_bounds(s, start);
        }
        seq![s.subrange(start, word_end(s, start))] + words_from(s, word_end(s, start))
    }
}

/// The words of a line.
pub open spec fn spec_words(s: Seq<char>) -> Seq<Seq<char>> {
    words_from(s, 0)
}

/// The file that a boundary line names: the fourth word of the line,
/// without a leading `b/`. A line of fewer words names none.
pub open spec fn spec_extract_filename(line: Seq<char>) -> Option<Seq<char>> {
    let words = spec_words(line);
    if words.len() >= 4 {
        if spec_starts_with(words[3], "b/"@) {
            Some(words[3].subrange(2, words[3].len() as int))
        } else {
            Some(words[3])
        }
    } else {
        None
    }
}

/// A line that opens a file's part of the diff.
pub open spec fn is_boundary(line: Seq<char>) -> bool {
    spec_starts_with(line, "diff --git "@)
}

/// A line that, behind a boundary line, repeats what the header says: the
/// index line and the two lines with the old and the new path.
pub open spec fn is_noise(line: Seq<char>) -> bool {
    ||| spec_starts_with(line, "index "@)
    ||| spec_starts_with(line, "+++"@)
    ||| spec_starts_with(line, "---"@)
}

/// A line that opens a hunk.
pub open spec fn is_hunk(line: Seq<char>) -> bool {
    spec_starts_with(line, "@@"@)
}

/// What a line of a file's part is.
pub open spec fn content_kind(line: Seq<char>) -> DiffLineKind {
    if spec_starts_with(line, "+"@) {
        DiffLineKind::Added
    } else if spec_starts_with(line, "-"@) {
        DiffLineKind::Removed
    } else if spec_starts_with(line, "@@"@) {
        DiffLineKind::Hunk
    } else {
        DiffLineKind::Context
    }
}

/// The header of a file: a rule, the name, a rule.
pub open spec fn header(name: Seq<char>) -> Seq<DiffLineModel> {
    seq![
        DiffLineModel { kind: DiffLineKind::Rule, text: rule_text() },
        DiffLineModel { kind: DiffLineKind::FileName, text: name },
        DiffLineModel { kind: DiffLineKind::Rule, text: rule_text() },
    ]
}

/// A line of a file's part as it stands in the output: the line itself,
/// with its kind.
pub open spec fn kept_line(line: Seq<char>) -> DiffLineModel {
    DiffLineModel { kind: content_kind(line), text: line }
}

/// The output so far, and whether the scan stands in a file's header:
/// behind a boundary line and before the file's first hunk.
pub struct Scan {
    pub out: Seq<DiffLineModel>,
    pub in_header: bool,
}

/// Where a scan starts.
pub open spec fn scan_start() -> Scan {
    Scan { out: Seq::empty(), in_header: false }
}

/// What one line of the diff adds to the output. A boundary line opens a
/// file's header and gives the three lines that name the file, where it
/// names one. The header stays open up to the file's first hunk line or the
/// next boundary line; within it, noise gives nothing, wherever it stands,
/// and every other line stays with its kind. From the first hunk line on
/// every line stays, whatever it begins with.
pub open spec fn scan_line(st: Scan, line: Seq<char>) -> Scan {
    if is_boundary(line) {
        Scan {
            out: match spec_extract_filename(line) {
                Some(name) => st.out + header(name),
                None => st.out,
            },
            in_header: true,
        }
    } else if st.in_header && is_noise(line) {
        st
    } else {
        Scan { out: st.out.push(kept_line(line)), in_header: st.in_header && !is_hunk(line) }
    }
}

/// The output after the lines of a diff, taken in their order.
pub open spec fn scan(st: Scan, lines: Seq<Seq<char>>) -> Scan
    decreases lines.len(),
{
    if lines.len() == 0 {
        st
    } else {
        scan_line(scan(st, lines.drop_last()), lines.last())
    }
}

/// A diff cut into blocks.
pub open spec fn spec_segment(diff: Seq<char>) -> Seq<DiffLineModel> {
    scan(scan_start(), spec_lines(diff)).out
}

/// The part of `all` that a window of `height` lines shows from line
/// `scroll` on.
pub open spec fn spec_window<T>(all: Seq<T>, scroll: int, height: int) -> Seq<T> {
    let from = if scroll < all.len() {
        scroll
    } else {
        all.len() as int
    };
    let to = if from + height < all.len() {
        from + height
    } else {
        all.len() as int
    };
    all.subrange(from, to)
}

/// The words of a line.
pub fn split_words(v: &Vec<char>) -> (r: Vec<Vec<char>>)
    ensures
        r@.map_values(|w: Vec<char>| w@) == spec_words(v@),
{
    let ghost s = v@;
    let n = v.len();
    let mut out: Vec<Vec<char>> = Vec::new();
    let mut at: usize = 0;
    loop
        invariant
            n == v.len(),
            s == v@,
            at <= n,
            out@.map_values(|w: Vec<char>| w@) + words_from(s, at as int) == spec_words(s),
        decreases n - at,
    {
        let mut start: usize = at;
        while start < n && is_whitespace(v[start])
            invariant
                n == v.len(),
                s == v@,
                at <= start <= n,
                trim_start_at(s, at as int) == trim_start_at(s, start as int),
            decreases n - start,
        {
            start += 1;
        }
        if start >= n {
            proof {
                assert(words_from(s, at as int) =~= Seq::<Seq<char>>::empty());
                assert(out@.map_values(|w: Vec<char>| w@) + Seq::<Seq<char>>::empty()
                    =~= out@.map_values(|w: Vec<char>| w@));
            }
            return out;
        }
        let mut end: usize = start;
        let mut word: Vec<char> = Vec::new();
        while end < n && !is_whitespace(v[end])
            invariant
                n == v.len(),
                s == v@,
                start <= end <= n,
                word_end(s, start as int) == word_end(s, end as int),
                word@ == s.subrange(start as int, end as int),
            decreases n - end,
        {
            word.push(v[end]);
            end += 1;
            assert(s.subrange(start as int, end as int) == s.subrange(start as int, end - 1).push(
                s[end - 1],
            ));
        }
        proof {
            lemma_word_bounds(s, start as int);
            let before = out@.map_values(|w: Vec<char>| w@);
            assert(trim_start_at(s, at as int) == start);
            assert(word_end(s, start as int) == end);
            assert(out@.push(word).map_values(|w: Vec<char>| w@) =~= before.push(word@));
            assert(before.push(word@) + words_from(s, end as int) =~= before + words_from(
                s,
                at as int,
            ));
        }
        out.push(word);
        at = end;
    }
}

/// The file that a boundary line names.
pub fn filename_of(line: &Vec<char>) -> (r: Option<String>)
    ensures
        crate::text::opt_text(r) == spec_extract_filename(line@),
{
    let words = split_words(line);
    assert(words@.map_values(|w: Vec<char>| w@).len() == words.len());
    if words.len() >= 4 {
        let word = &words[3];
        assert(words@.map_values(|w: Vec<char>| w@)[3] == word@);
        let prefix = chars_of("b/");
        proof {
            reveal_strlit("b/");
        }
        if matches_at(word, &prefix, 0) {
            Some(string_of_range(word, 2, word.len()))
        } else {
            Some(string_of(word))
        }
    } else {
        None
    }
}

/// The file that a boundary line of a diff names: the fourth word of the
/// line, without a leading `b/`.
pub fn extract_filename_from_diff_line(line: &str) -> (r: Option<String>)
    ensures
        crate::text::opt_text(r) == spec_extract_filename(line@),
{
    let chars = chars_of(line);
    filename_of(&chars)
}

/// The rule of a header.
fn rule() -> (r: String)
    ensures
        r@ == rule_text(),
{
    let mut out = String::new();
    let mut i: usize = 0;
    while i < RULE_WIDTH
        invariant
            i <= RULE_WIDTH,
            out@ == Seq::new(i as nat, |k: int| '\u{2500}'),
        decreases RULE_WIDTH - i,
    {
        out.push('\u{2500}');
        i += 1;
        assert(out@ =~= Seq::new(i as nat, |k: int| '\u{2500}'));
    }
    out
}

/// The prefixes that decide what a line is.
struct Prefixes {
    boundary: Vec<char>,
    index: Vec<char>,
    new_path: Vec<char>,
    old_path: Vec<char>,
    added: Vec<char>,
    removed: Vec<char>,
    hunk: Vec<char>,
}

impl Prefixes {
    spec fn wf(&self) -> bool {
        &&& self.boundary@ == "diff --git "@
        &&& self.index@ == "index "@
        &&& self.new_path@ == "+++"@
        &&& self.old_path@ == "---"@
        &&& self.added@ == "+"@
        &&& self.removed@ == "-"@
        &&& self.hunk@ == "@@"@
    }

    fn new() -> (r: Prefixes)
        ensures
            r.wf(),
    {
        Prefixes {
            boundary: chars_of("diff --git "),
            index: chars_of("index "),
            new_path: chars_of("+++"),
            old_path: chars_of("---"),
            added: chars_of("+"),
            removed: chars_of("-"),
            hunk: chars_of("@@"),
        }
    }

    fn kind(&self, line: &Vec<char>) -> (r: DiffLineKind)
        requires
            self.wf(),
        ensures
            r == content_kind(line@),
    {
        if matches_at(line, &self.added, 0) {
            DiffLineKind::Added
        } else if matches_at(line, &self.removed, 0) {
            DiffLineKind::Removed
        } else if matches_at(line, &self.hunk, 0) {
            DiffLineKind::Hunk
        } else {
            DiffLineKind::Context
        }
    }

    fn noise(&self, line: &Vec<char>) -> (r: bool)
        requires
            self.wf(),
        ensures
            r == is_noise(line@),
    {
        matches_at(line, &self.index, 0) || matches_at(line, &self.new_path, 0) || matches_at(
            line,
            &self.old_path,
            0,
        )
    }
}

/// Cuts a unified diff into blocks, one per file: each boundary line
/// becomes the file's header, the lines between it and the file's first
/// hunk that repeat the paths are left out, and every other line stays with
/// its kind.
pub fn segment_diff(diff: &str) -> (r: Vec<DiffLine>)
    ensures
        diff_lines_model(r@) == spec_segment(diff@),
{
    let text = chars_of(diff);
    let lines = split_lines(&text);
    let ghost models = spec_lines(diff@);
    let prefixes = Prefixes::new();
    let mut out: Vec<DiffLine> = Vec::new();
    let mut in_header = false;
    let mut i: usize = 0;
    assert(diff_lines_model(out@) =~= scan_start().out);
    assert(models.take(0) =~= Seq::<Seq<char>>::empty());
    while i < lines.len()
        invariant
            i <= lines.len(),
            prefixes.wf(),
            lines@.map_values(|l: Vec<char>| l@) == models,
            (Scan { out: diff_lines_model(out@), in_header }) == scan(
                scan_start(),
                models.take(i as int),
            ),
        decreases lines.len() - i,
    {
        let line = &lines[i];
        let ghost before = diff_lines_model(out@);
        proof {
            assert(lines@.map_values(|l: Vec<char>| l@).len() == lines.len());
            assert(models[i as int] == line@);
            assert(models.take(i + 1).drop_last() =~= models.take(i as int));
            assert(models.take(i + 1).last() == line@);
        }
        if matches_at(line, &prefixes.boundary, 0) {
            if let Some(name) = filename_of(line) {
                out.push(DiffLine { kind: DiffLineKind::Rule, text: rule() });
                out.push(DiffLine { kind: DiffLineKind::FileName, text: name });
                out.push(DiffLine { kind: DiffLineKind::Rule, text: rule() });
                assert(diff_lines_model(out@) =~= before + header(name@));
            }
            in_header = true;
        } else if !(in_header && prefixes.noise(line)) {
            let kind = prefixes.kind(line);
            out.push(DiffLine { kind, text: string_of(line) });
            assert(diff_lines_model(out@) =~= before.push(kept_line(line@)));
            if matches_at(line, &prefixes.hunk, 0) {
                in_header = false;
            }
        }
        i += 1;
    }
    assert(models.take(lines.len() as int) =~= models);
    out
}

/// The lines that a window of `height` lines shows from line `scroll` on.
/// Scrolling cuts the output anew and never reads the diff again.
pub fn window(all: &Vec<DiffLine>, scroll: usize, height: usize) -> (r: Vec<DiffLine>)
    ensures
        diff_lines_model(r@) == spec_window(diff_lines_model(all@), scroll as int, height as int),
{
    let from = if scroll < all.len() {
        scroll
    } else {
        all.len()
    };
    let to = if height < all.len() - from {
        from + height
    } else {
        all.len()
    };
    let mut out: Vec<DiffLine> = Vec::new();
    let mut i: usize = from;
    while i < to
        invariant
            from <= i <= to <= all.len(),
            diff_lines_model(out@) == diff_lines_model(all@).subrange(from as int, i as int),
        decreases to - i,
    {
        let ghost before = diff_lines_model(out@);
        out.push(all[i].clone());
        i += 1;
        assert(diff_lines_model(out@) =~= before.push(all@[i - 1]@));
        assert(diff_lines_model(all@).subrange(from as int, i as int) =~= diff_lines_model(
            all@,
        ).subrange(from as int, i - 1).push(all@[i - 1]@));
    }
    out
}

/// The lines of a diff that a window of `height` lines shows from line
/// `scroll` on.
pub fn render_diff_lines(diff: &str, scroll: usize, height: usize) -> (r: Vec<DiffLine>)
    ensures
        diff_lines_model(r@) == spec_window(spec_segment(diff@), scroll as int, height as int),
{
    let all = segment_diff(diff);
    window(&all, scroll, height)
}

/// The lines with their kinds, in their order.
pub open spec fn tagged(lines: Seq<Seq<char>>) -> Seq<DiffLineModel> {
    Seq::new(lines.len(), |i: int| kept_line(lines[i]))
}

/// Where the header of `lines[from..]` ends: the position of the first
/// hunk line at or after `from`, or the number of lines where there is
/// none.
pub open spec fn header_end(lines: Seq<Seq<char>>, from: int) -> int
    decreases lines.len() - from,
{
    if from < 0 || from >= lines.len() {
        lines.len() as int
    } else if is_hunk(lines[from]) {
        from
    } else {
        header_end(lines, from + 1)
    }
}

/// The lines that are no noise, in their order, each with its kind.
pub open spec fn without_noise(lines: Seq<Seq<char>>) -> Seq<DiffLineModel>
    decreases lines.len(),
{
    if lines.len() == 0 {
        Seq::empty()
    } else if is_noise(lines.last()) {
        without_noise(lines.drop_last())
    } else {
        without_noise(lines.drop_last()).push(kept_line(lines.last()))
    }
}

/// What stays of the lines behind a boundary line: of those before the
/// first hunk line, the ones that are no noise; of those from the first
/// hunk line on, every one.
pub open spec fn body(lines: Seq<Seq<char>>) -> Seq<DiffLineModel> {
    without_noise(lines.subrange(0, header_end(lines, 0))) + tagged(
        lines.subrange(header_end(lines, 0), lines.len() as int),
    )
}

/// Whether no line of a block is a boundary line.
pub open spec fn no_boundary(lines: Seq<Seq<char>>) -> bool {
    forall|i: int| 0 <= i < lines.len() ==> !is_boundary(#[trigger] lines[i])
}

/// Scanning two runs of lines in a row is scanning the first and then the
/// second.
pub proof fn lemma_scan_join(st: Scan, a: Seq<Seq<char>>, b: Seq<Seq<char>>)
    ensures
        scan(st, a + b) == scan(scan(st, a), b),
    decreases b.len(),
{
    if b.len() == 0 {
        assert(a + b =~= a);
    } else {
        assert((a + b).drop_last() =~= a + b.drop_last());
        assert((a + b).last() == b.last());
        lemma_scan_join(st, a, b.drop_last());
    }
}

proof fn lemma_header_end_push(lines: Seq<Seq<char>>, line: Seq<char>, from: int)
    requires
        0 <= from <= lines.len(),
    ensures
        from <= header_end(lines, from) <= lines.len(),
        header_end(lines.push(line), from) == (if header_end(lines, from) < lines.len() {
            header_end(lines, from)
        } else if is_hunk(line) {
            lines.len() as int
        } else {
            lines.len() as int + 1
        }),
    decreases lines.len() - from,
{
    if from < lines.len() {
        assert(lines.push(line)[from] == lines[from]);
        if !is_hunk(lines[from]) {
            lemma_header_end_push(lines, line, from + 1);
        }
    } else {
        assert(lines.push(line)[from] == line);
        assert(header_end(lines.push(line), from + 1) == lines.len() + 1);
    }
}

/// A line that repeats the paths is never a hunk line.
pub proof fn lemma_noise_is_no_hunk(line: Seq<char>)
    requires
        is_noise(line),
    ensures
        !is_hunk(line),
{
    reveal_strlit("index ");
    reveal_strlit("+++");
    reveal_strlit("---");
    reveal_strlit("@@");
    if is_hunk(line) {
        assert(line.subrange(0, 2)[0] == line[0]);
        if spec_starts_with(line, "index "@) {
            assert(line.subrange(0, 6)[0] == line[0]);
        } else if spec_starts_with(line, "+++"@) {
            assert(line.subrange(0, 3)[0] == line[0]);
        } else {
            assert(line.subrange(0, 3)[0] == line[0]);
        }
    }
}

/// Lines without a boundary line among them: behind a boundary line the
/// noise before the first hunk line is left out and all the rest stays;
/// anywhere else every one of them stays. No line is dropped once a hunk
/// has begun.
pub proof fn lemma_scan_block(st: Scan, block: Seq<Seq<char>>)
    requires
        no_boundary(block),
    ensures
        st.in_header ==> scan(st, block) == (Scan {
            out: st.out + body(block),
            in_header: header_end(block, 0) == block.len(),
        }),
        !st.in_header ==> scan(st, block) == (Scan {
            out: st.out + tagged(block),
            in_header: false,
        }),
    decreases block.len(),
{
    if block.len() == 0 {
        assert(st.out + body(block) =~= st.out);
        assert(st.out + tagged(block) =~= st.out);
    } else {
        let front = block.drop_last();
        let last = block.last();
        assert forall|i: int| 0 <= i < front.len() implies !is_boundary(#[trigger] front[i]) by {
            assert(front[i] == block[i]);
        }
        lemma_scan_block(st, front);
        assert(!is_boundary(block[block.len() - 1]));
        assert(block =~= front.push(last));
        lemma_header_end_push(front, last, 0);
        let h = header_end(front, 0);
        if !st.in_header {
            assert((st.out + tagged(front)).push(kept_line(last)) =~= st.out + tagged(block));
        } else if h == front.len() {
            assert(front.subrange(0, h) =~= front);
            assert(body(front) =~= without_noise(front));
            if is_noise(last) {
                lemma_noise_is_no_hunk(last);
                assert(block.subrange(0, block.len() as int) =~= block);
                assert(body(block) =~= without_noise(front));
            } else if is_hunk(last) {
                assert(block.subrange(0, h) =~= front);
                assert(block.subrange(h, block.len() as int) =~= seq![last]);
                assert(body(block) =~= without_noise(front).push(kept_line(last)));
                assert((st.out + body(front)).push(kept_line(last)) =~= st.out + body(block));
            } else {
                assert(block.subrange(0, block.len() as int) =~= block);
                assert(body(block) =~= without_noise(front).push(kept_line(last)));
                assert((st.out + body(front)).push(kept_line(last)) =~= st.out + body(block));
            }
        } else {
            assert(block.subrange(0, h) =~= front.subrange(0, h));
            assert(block.subrange(h, block.len() as int) =~= front.subrange(
                h,
                front.len() as int,
            ).push(last));
            assert(body(block) =~= body(front).push(kept_line(last)));
            assert((st.out + body(front)).push(kept_line(last)) =~= st.out + body(block));
        }
    }
}

/// A boundary line opens a header and adds the three lines that name the
/// file, and nothing more.
pub proof fn lemma_scan_boundary(st: Scan, line: Seq<char>, name: Seq<char>)
    requires
        is_boundary(line),
        spec_extract_filename(line) == Some(name),
    ensures
        scan(st, seq![line]) == (Scan { out: st.out + header(name), in_header: true }),
{
    assert(seq![line].drop_last() =~= Seq::<Seq<char>>::empty());
    assert(seq![line].last() == line);
    assert(scan(st, seq![line].drop_last()) == st);
}

/// A diff of two files, each a boundary line that names the file and then
/// lines without a boundary line, comes out as two blocks and nothing
/// else: the three lines of the first file's header directly before what
/// stays of its lines, then the three lines of the second file's header
/// directly before what stays of its lines.
pub proof fn lemma_two_files(
    diff: Seq<char>,
    first: Seq<char>,
    first_name: Seq<char>,
    first_block: Seq<Seq<char>>,
    second: Seq<char>,
    second_name: Seq<char>,
    second_block: Seq<Seq<char>>,
)
    requires
        spec_lines(diff) == seq![first] + first_block + seq![second] + second_block,
        is_boundary(first),
        spec_extract_filename(first) == Some(first_name),
        no_boundary(first_block),
        is_boundary(second),
        spec_extract_filename(second) == Some(second_name),
        no_boundary(second_block),
    ensures
        spec_segment(diff) == header(first_name) + body(first_block) + header(second_name) + body(
            second_block,
        ),
        spec_segment(diff).len() == 2 * 3 + body(first_block).len() + body(second_block).len(),
{
    let a = seq![first];
    let ab = a + first_block;
    let abc = ab + seq![second];
    lemma_scan_join(scan_start(), abc, second_block);
    lemma_scan_join(scan_start(), ab, seq![second]);
    lemma_scan_join(scan_start(), a, first_block);
    lemma_scan_boundary(scan_start(), first, first_name);
    let s1 = scan(scan_start(), a);
    assert(s1.out =~= header(first_name));
    lemma_scan_block(s1, first_block);
    let s2 = scan(scan_start(), ab);
    lemma_scan_boundary(s2, second, second_name);
    let s3 = scan(scan_start(), abc);
    lemma_scan_block(s3, second_block);
}

proof fn lemma_header_end_bounds(lines: Seq<Seq<char>>, from: int)
    requires
        0 <= from <= lines.len(),
    ensures
        from <= header_end(lines, from) <= lines.len(),
        forall|j: int| from <= j < header_end(lines, from) ==> !is_hunk(#[trigger] lines[j]),
        header_end(lines, from) < lines.len() ==> is_hunk(lines[header_end(lines, from)]),
    decreases lines.len() - from,
{
    if from < lines.len() && !is_hunk(lines[from]) {
        lemma_header_end_bounds(lines, from + 1);
    }
}

/// The header of a block runs up to its first hunk line and no further.
pub proof fn lemma_header_ends_at_first_hunk(lines: Seq<Seq<char>>)
    ensures
        0 <= header_end(lines, 0) <= lines.len(),
        forall|j: int| 0 <= j < header_end(lines, 0) ==> !is_hunk(#[trigger] lines[j]),
        header_end(lines, 0) < lines.len() ==> is_hunk(lines[header_end(lines, 0)]),
{
    lemma_header_end_bounds(lines, 0);
}

/// What stays of a header holds no line that repeats the paths: every line
/// of it is a line of the header that is no noise, unchanged and with the
/// kind that its first characters give it.
pub proof fn lemma_header_keeps_no_noise(lines: Seq<Seq<char>>, i: int)
    requires
        0 <= i < without_noise(lines).len(),
    ensures
        !is_noise(without_noise(lines)[i].text),
        lines.contains(without_noise(lines)[i].text),
        without_noise(lines)[i] == kept_line(without_noise(lines)[i].text),
    decreases lines.len(),
{
    let front = lines.drop_last();
    if is_noise(lines.last()) || i < without_noise(front).len() {
        lemma_header_keeps_no_noise(front, i);
        let j = choose|j: int| 0 <= j < front.len() && front[j] == without_noise(lines)[i].text;
        assert(lines[j] == without_noise(lines)[i].text);
    } else {
        assert(lines[lines.len() - 1] == without_noise(lines)[i].text);
    }
}

/// Every line of a header that is no noise stays, and the lines that stay
/// keep their order: what stays is as long as the header has such lines.
pub proof fn lemma_header_keeps_the_rest(lines: Seq<Seq<char>>, j: int)
    requires
        0 <= j < lines.len(),
        !is_noise(lines[j]),
    ensures
        without_noise(lines).contains(kept_line(lines[j])),
    decreases lines.len(),
{
    let front = lines.drop_last();
    if j == lines.len() - 1 {
        let w = without_noise(lines);
        assert(w[w.len() - 1] == kept_line(lines[j]));
    } else {
        assert(front[j] == lines[j]);
        lemma_header_keeps_the_rest(front, j);
        let k = choose|k: int|
            0 <= k < without_noise(front).len() && without_noise(front)[k] == kept_line(lines[j]);
        assert(without_noise(lines)[k] == kept_line(lines[j]));
    }
}

/// From the first hunk line on every line of a block stays, unchanged, in
/// its place and with the kind that its first characters give it.
pub proof fn lemma_hunks_keep_every_line(lines: Seq<Seq<char>>, j: int)
    requires
        header_end(lines, 0) <= j < lines.len(),
    ensures
        body(lines).len() == without_noise(lines.subrange(0, header_end(lines, 0))).len() + (
        lines.len() - header_end(lines, 0)),
        body(lines)[body(lines).len() - (lines.len() - j)] == kept_line(lines[j]),
{
    lemma_header_end_bounds(lines, 0);
}

/// Where the lines that repeat the paths all stand before the first hunk
/// line of a block, none of them is in what stays of the block.
pub proof fn lemma_body_without_noise(lines: Seq<Seq<char>>, i: int)
    requires
        noise_before_hunks(lines),
        0 <= i < body(lines).len(),
    ensures
        !is_noise(body(lines)[i].text),
{
    lemma_header_end_bounds(lines, 0);
    let h = header_end(lines, 0);
    let head = without_noise(lines.subrange(0, h));
    if i < head.len() {
        lemma_header_keeps_no_noise(lines.subrange(0, h), i);
    } else {
        assert(body(lines)[i] == kept_line(lines[h + (i - head.len())]));
    }
}

/// What stays of a block is made of lines of the block, each unchanged and
/// with the kind that its first characters give it.
pub proof fn lemma_body_lines_are_block_lines(lines: Seq<Seq<char>>, i: int)
    requires
        0 <= i < body(lines).len(),
    ensures
        lines.contains(body(lines)[i].text),
        body(lines)[i] == kept_line(body(lines)[i].text),
{
    lemma_header_end_bounds(lines, 0);
    let h = header_end(lines, 0);
    let head = lines.subrange(0, h);
    if i < without_noise(head).len() {
        lemma_header_keeps_no_noise(head, i);
        let j = choose|j: int| 0 <= j < head.len() && head[j] == without_noise(head)[i].text;
        assert(lines[j] == head[j]);
    } else {
        assert(body(lines)[i] == kept_line(lines[h + (i - without_noise(head).len())]));
    }
}

/// Whether the lines of a block that repeat the paths all stand before its
/// first hunk line, as they do in what the version control writes.
pub open spec fn noise_before_hunks(lines: Seq<Seq<char>>) -> bool {
    forall|j: int| header_end(lines, 0) <= j < lines.len() ==> !is_noise(#[trigger] lines[j])
}

/// In the output of a diff of two files whose path lines stand before the
/// hunks, no line but a header's is a boundary line, an index line or a
/// line with the old or the new path.
pub proof fn lemma_two_files_show_no_path_lines(
    diff: Seq<char>,
    first: Seq<char>,
    first_name: Seq<char>,
    first_block: Seq<Seq<char>>,
    second: Seq<char>,
    second_name: Seq<char>,
    second_block: Seq<Seq<char>>,
    i: int,
)
    requires
        spec_lines(diff) == seq![first] + first_block + seq![second] + second_block,
        is_boundary(first),
        spec_extract_filename(first) == Some(first_name),
        no_boundary(first_block),
        noise_before_hunks(first_block),
        is_boundary(second),
        spec_extract_filename(second) == Some(second_name),
        no_boundary(second_block),
        noise_before_hunks(second_block),
        0 <= i < spec_segment(diff).len(),
    ensures
        spec_segment(diff)[i].kind is Rule || spec_segment(diff)[i].kind is FileName || (!is_noise(
            spec_segment(diff)[i].text,
        ) && !is_boundary(spec_segment(diff)[i].text)),
{
    lemma_two_files(diff, first, first_name, first_block, second, second_name, second_block);
    let b1 = body(first_block);
    let b2 = body(second_block);
    let out = spec_segment(diff);
    if 3 <= i < 3 + b1.len() {
        assert(out[i] == b1[i - 3]);
        lemma_body_without_noise(first_block, i - 3);
        lemma_body_lines_are_block_lines(first_block, i - 3);
        let j = choose|j: int| 0 <= j < first_block.len() && first_block[j] == b1[i - 3].text;
        assert(!is_boundary(first_block[j]));
    } else if 6 + b1.len() <= i {
        let k = i - 6 - b1.len();
        assert(out[i] == b2[k]);
        lemma_body_without_noise(second_block, k);
        lemma_body_lines_are_block_lines(second_block, k);
        let j = choose|j: int| 0 <= j < second_block.len() && second_block[j] == b2[k].text;
        assert(!is_boundary(second_block[j]));
    } else if i < 3 {
        assert(out[i] == header(first_name)[i]);
    } else {
        assert(out[i] == header(second_name)[i - 3 - b1.len()]);
    }
}

/// The kind of a line goes by its first characters: `+` is added, `-` is
/// removed, `@@` opens a hunk, anything else is context. The four kinds
/// differ from one another.
pub proof fn lemma_kind_by_first_characters(line: Seq<char>)
    ensures
        line.len() > 0 && line[0] == '+' ==> content_kind(line) == DiffLineKind::Added,
        line.len() > 0 && line[0] == '-' ==> content_kind(line) == DiffLineKind::Removed,
        line.len() > 1 && line[0] == '@' && line[1] == '@' ==> content_kind(line)
            == DiffLineKind::Hunk,
        !(line.len() > 0 && (line[0] == '+' || line[0] == '-')) && !(line.len() > 1 && line[0]
            == '@' && line[1] == '@') ==> content_kind(line) == DiffLineKind::Context,
{
    reveal_strlit("+");
    reveal_strlit("-");
    reveal_strlit("@@");
    if line.len() > 0 {
        assert(line.subrange(0, 1)[0] == line[0]);
        if line[0] == '+' {
            assert(line.subrange(0, 1) =~= "+"@);
        }
        if line[0] == '-' {
            assert(line.subrange(0, 1) =~= "-"@);
        }
    }
    if line.len() > 1 {
        assert(line.subrange(0, 2)[0] == line[0]);
        assert(line.subrange(0, 2)[1] == line[1]);
        if line[0] == '@' && line[1] == '@' {
            assert(line.subrange(0, 2) =~= "@@"@);
        }
    }
}

/// How many headers an output holds.
pub open spec fn count_names(out: Seq<DiffLineModel>) -> nat
    decreases out.len(),
{
    if out.len() == 0 {
        0
    } else {
        count_names(out.drop_last()) + (if out.last().kind is FileName {
            1nat
        } else {
            0nat
        })
    }
}

/// How many lines of a diff open a file: the boundary lines that name one.
pub open spec fn count_boundaries(lines: Seq<Seq<char>>) -> nat
    decreases lines.len(),
{
    if lines.len() == 0 {
        0
    } else {
        count_boundaries(lines.drop_last()) + (if is_boundary(lines.last())
            && spec_extract_filename(lines.last()).is_some() {
            1nat
        } else {
            0nat
        })
    }
}

proof fn lemma_count_push(out: Seq<DiffLineModel>, line: DiffLineModel)
    ensures
        count_names(out.push(line)) == count_names(out) + (if line.kind is FileName {
            1nat
        } else {
            0nat
        }),
{
    assert(out.push(line).drop_last() =~= out);
}

proof fn lemma_count_header(out: Seq<DiffLineModel>, name: Seq<char>)
    ensures
        count_names(out + header(name)) == count_names(out) + 1,
{
    let h = header(name);
    assert(out + h =~= out.push(h[0]).push(h[1]).push(h[2]));
    lemma_count_push(out, h[0]);
    lemma_count_push(out.push(h[0]), h[1]);
    lemma_count_push(out.push(h[0]).push(h[1]), h[2]);
}

proof fn lemma_scan_counts(st: Scan, lines: Seq<Seq<char>>)
    ensures
        count_names(scan(st, lines).out) == count_names(st.out) + count_boundaries(lines),
    decreases lines.len(),
{
    if lines.len() > 0 {
        let front = lines.drop_last();
        lemma_scan_counts(st, front);
        let mid = scan(st, front);
        let line = lines.last();
        if is_boundary(line) {
            match spec_extract_filename(line) {
                Some(name) => {
                    lemma_count_header(mid.out, name);
                },
                None => {},
            }
        } else if !(mid.in_header && is_noise(line)) {
            lemma_count_push(mid.out, kept_line(line));
        }
    }
}

/// The output holds one header for each line of the diff that opens a
/// file, no more and no fewer.
pub proof fn lemma_one_header_per_file(diff: Seq<char>)
    ensures
        count_names(spec_segment(diff)) == count_boundaries(spec_lines(diff)),
{
    lemma_scan_counts(scan_start(), spec_lines(diff));
}

} // verus!
