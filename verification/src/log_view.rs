//! The part of the log that the viewer shows: which lines, cut how, and in
//! which tone.
use crate::ansi::{spec_strip_ansi, strip_chars};
use crate::search::{lowercase, to_lowercase};
use crate::state::app::App;
use crate::state::model::{at_cursor, AppModel};
use crate::text::{
    chars_of, contains_chars, decimal, decimal_string, decimal_string_wide, join, join3,
    matches_at, opt_chars, spec_contains, spec_lines, spec_starts_with, split_lines, string_of,
    string_of_range,
};
use vstd::prelude::*;
use vstd::string::*;
use vstd::utf8::encode_utf8;

verus! {

/// The tone of a line of the log.
#[derive(Clone, Copy, PartialEq, Eq, Structural, Debug)]
pub enum LogTone {
    /// A line that opens or closes a group.
    Group,
    Failure,
    Warning,
    /// A line that matches the search.
    Highlight,
    Dim,
    Normal,
}

/// A line of the log as the viewer shows it.
#[derive(Debug, PartialEq, Eq)]
pub struct LogLine {
    /// The line's number in the log, from zero.
    pub number: usize,
    pub text: String,
    pub tone: LogTone,
}

/// The model of `LogLine`: texts as sequences of characters, lists as sequences of
/// models.
pub struct LogLineModel {
    pub number: usize,
    pub text: Seq<char>,
    pub tone: LogTone,
}

impl View for LogLine {
    type V = LogLineModel;

    open spec fn view(&self) -> LogLineModel {
        LogLineModel { number: self.number, text: self.text@, tone: self.tone }
    }
}

/// The models of the items of a list.
pub open spec fn log_lines_model(v: Seq<LogLine>) -> Seq<LogLineModel> {
    v.map_values(|l: LogLine| l@)
}

/// The tone of a cleaned line, given its lower-case form and whether the
/// search listed it: group markers first, then errors, then warnings, then
/// matches, then the lines that echo a command.
pub open spec fn base_tone(clean: Seq<char>, lowered: Seq<char>, is_match: bool) -> LogTone {
    if spec_contains(clean, "##[group]"@) || spec_contains(clean, "##[endgroup]"@) {
        LogTone::Group
    } else if spec_contains(clean, "##[error]"@) || spec_contains(lowered, "error"@) {
        LogTone::Failure
    } else if spec_contains(clean, "##[warning]"@) || spec_contains(lowered, "warning"@) {
        LogTone::Warning
    } else if is_match {
        LogTone::Highlight
    } else if spec_starts_with(clean, "Run "@) || spec_contains(clean, "\t"@) {
        LogTone::Dim
    } else {
        LogTone::Normal
    }
}

/// The tone of a cleaned line under a query in lower case: a line that
/// holds a query that is not empty is highlighted whatever else it is.
pub open spec fn tone_under(
    clean: Seq<char>,
    lowered: Seq<char>,
    is_match: bool,
    query: Option<Seq<char>>,
) -> LogTone {
    match query {
        Some(q) => if q.len() > 0 && spec_contains(lowered, q) {
            LogTone::Highlight
        } else {
            base_tone(clean, lowered, is_match)
        },
        None => base_tone(clean, lowered, is_match),
    }
}

/// What is shown of a cleaned line in a window `width` wide that is panned
/// `pan` to the right. The pan counts characters; a pan at or behind the
/// line's length in bytes shows nothing, and a line of no more than
/// `width` bytes is not cut at its end.
pub open spec fn shown_part(clean: Seq<char>, pan: u16, width: usize) -> Seq<char> {
    let bytes = encode_utf8(clean).len();
    let from = if pan < clean.len() {
        pan as int
    } else {
        clean.len() as int
    };
    if pan >= bytes {
        Seq::empty()
    } else if bytes > width {
        clean.subrange(
            from,
            if from + width < clean.len() {
                from + width
            } else {
                clean.len() as int
            },
        )
    } else {
        clean.subrange(from, clean.len() as int)
    }
}

/// The lower-case form of a query, where it exists and is not empty.
pub open spec fn folded_query(query: Option<Seq<char>>) -> Option<Seq<char>> {
    match query {
        Some(q) => if q.len() > 0 {
            Some(lowercase(q))
        } else {
            None
        },
        None => None,
    }
}

/// A line of the log as the viewer shows it.
pub open spec fn view_line(
    raw: Seq<char>,
    number: usize,
    pan: u16,
    width: usize,
    matches: Seq<usize>,
    query: Option<Seq<char>>,
) -> LogLineModel {
    let clean = spec_strip_ansi(raw);
    LogLineModel {
        number,
        text: shown_part(clean, pan, width),
        tone: tone_under(clean, lowercase(clean), matches.contains(number), folded_query(query)),
    }
}

/// The lines `from..upto` of the log as the viewer shows them.
pub open spec fn view_lines(
    lines: Seq<Seq<char>>,
    from: int,
    upto: int,
    pan: u16,
    width: usize,
    matches: Seq<usize>,
    query: Option<Seq<char>>,
) -> Seq<LogLineModel>
    decreases upto - from,
{
    if upto <= from || from < 0 || upto > lines.len() {
        Seq::empty()
    } else {
        view_lines(lines, from, upto - 1, pan, width, matches, query).push(
            view_line(lines[upto - 1], (upto - 1) as usize, pan, width, matches, query),
        )
    }
}

/// What a viewer of `height` lines and `width` columns shows of a log that
/// is scrolled to line `scroll` and panned `pan` to the right.
pub open spec fn spec_visible_log_lines(
    logs: Seq<char>,
    scroll: usize,
    height: usize,
    pan: u16,
    width: usize,
    matches: Seq<usize>,
    query: Option<Seq<char>>,
) -> Seq<LogLineModel> {
    let lines = spec_lines(logs);
    let from = if scroll < lines.len() {
        scroll as int
    } else {
        lines.len() as int
    };
    let upto = if from + height < lines.len() {
        from + height
    } else {
        lines.len() as int
    };
    view_lines(lines, from, upto, pan, width, matches, query)
}

/// The tone of a cleaned line, given its lower-case form, whether the
/// search listed it, and the query in lower case.
pub fn line_tone(
    clean: &Vec<char>,
    lowered: &Vec<char>,
    is_match: bool,
    query: &Option<Vec<char>>,
) -> (r: LogTone)
    ensures
        r == tone_under(clean@, lowered@, is_match, opt_chars(*query)),
{
    if let Some(q) = query {
        if q.len() > 0 && contains_chars(lowered, q) {
            return LogTone::Highlight;
        }
    }
    if contains_chars(clean, &chars_of("##[group]")) || contains_chars(
        clean,
        &chars_of("##[endgroup]"),
    ) {
        LogTone::Group
    } else if contains_chars(clean, &chars_of("##[error]")) || contains_chars(
        lowered,
        &chars_of("error"),
    ) {
        LogTone::Failure
    } else if contains_chars(clean, &chars_of("##[warning]")) || contains_chars(
        lowered,
        &chars_of("warning"),
    ) {
        LogTone::Warning
    } else if is_match {
        LogTone::Highlight
    } else if matches_at(clean, &chars_of("Run "), 0) || contains_chars(clean, &chars_of("\t")) {
        LogTone::Dim
    } else {
        LogTone::Normal
    }
}

/// What is shown of a cleaned line.
pub fn cut_line(clean: &Vec<char>, pan: u16, width: usize) -> (r: String)
    ensures
        r@ == shown_part(clean@, pan, width),
{
    let bytes = string_of(clean).as_str().as_bytes().len();
    let n = clean.len();
    let from: usize = if (pan as usize) < n {
        pan as usize
    } else {
        n
    };
    if pan as usize >= bytes {
        String::new()
    } else if bytes > width {
        let upto: usize = if width < n - from {
            from + width
        } else {
            n
        };
        string_of_range(clean, from, upto)
    } else {
        string_of_range(clean, from, n)
    }
}

fn listed(matches: &Vec<usize>, number: usize) -> (r: bool)
    ensures
        r == matches@.contains(number),
{
    let mut i: usize = 0;
    while i < matches.len()
        invariant
            i <= matches.len(),
            forall|j: int| 0 <= j < i ==> matches@[j] != number,
        decreases matches.len() - i,
    {
        if matches[i] == number {
            return true;
        }
        i += 1;
    }
    false
}

/// The lines that a viewer of `height` lines and `width` columns shows of
/// a log scrolled to line `scroll` and panned `pan` to the right, each
/// cleaned, cut, and with its tone.
pub fn visible_log_lines(
    logs: &str,
    scroll: usize,
    height: usize,
    pan: u16,
    width: usize,
    matches: &Vec<usize>,
    query: &Option<String>,
) -> (r: Vec<LogLine>)
    ensures
        log_lines_model(r@) == spec_visible_log_lines(
            logs@,
            scroll,
            height,
            pan,
            width,
            matches@,
            crate::text::opt_text(*query),
        ),
{
    let lines = split_lines(&chars_of(logs));
    let ghost models = spec_lines(logs@);
    let ghost q = crate::text::opt_text(*query);
    let n = lines.len();
    assert(lines@.map_values(|l: Vec<char>| l@).len() == n);
    let from: usize = if (scroll as usize) < n {
        scroll as usize
    } else {
        n
    };
    let upto: usize = if height < n - from {
        from + height
    } else {
        n
    };
    let needle: Option<Vec<char>> = match query {
        Some(text) => {
            if text.as_str().is_empty() {
                None
            } else {
                Some(chars_of(to_lowercase(text.as_str()).as_str()))
            }
        },
        None => None,
    };
    let mut out: Vec<LogLine> = Vec::new();
    let mut i: usize = from;
    assert(log_lines_model(out@) =~= view_lines(
        models,
        from as int,
        from as int,
        pan,
        width,
        matches@,
        q,
    ));
    while i < upto
        invariant
            from <= i <= upto <= n,
            n == lines.len(),
            lines@.map_values(|l: Vec<char>| l@) == models,
            opt_chars(needle) == folded_query(q),
            log_lines_model(out@) == view_lines(
                models,
                from as int,
                i as int,
                pan,
                width,
                matches@,
                q,
            ),
        decreases upto - i,
    {
        let ghost before = log_lines_model(out@);
        let clean = strip_chars(&lines[i]);
        let lowered = chars_of(to_lowercase(string_of(&clean).as_str()).as_str());
        let line = LogLine {
            number: i,
            text: cut_line(&clean, pan, width),
            tone: line_tone(&clean, &lowered, listed(matches, i), &needle),
        };
        proof {
            assert(lines@.map_values(|l: Vec<char>| l@).len() == n);
            assert(models[i as int] == lines@[i as int]@);
            assert(line@ == view_line(models[i as int], i, pan, width, matches@, q));
        }
        out.push(line);
        assert(log_lines_model(out@) =~= before.push(line@));
        i += 1;
    }
    out
}

impl AppModel {
    /// The title of the log viewer: the selected run with its number and,
    /// where a job is under the cursor, the job.
    pub open spec fn log_title(self) -> Seq<char> {
        match self.selected_run {
            Some(run) => " Logs: "@ + run.name + " #"@ + decimal(run.run_number as nat) + (
            match at_cursor(self.jobs, self.job_cursor) {
                Some(job) => " - "@ + job.name,
                None => Seq::empty(),
            }) + " "@,
            None => " Logs "@,
        }
    }

    /// How far the log is scrolled, in per cent of its lines.
    pub open spec fn log_percentage(self) -> nat {
        let total = spec_lines(self.logs).len();
        if total > 0 {
            (((self.log_scroll + 1) * 100) / (total as int)) as nat
        } else {
            0
        }
    }

    /// Which match the walk stands on, counted from one; zero without
    /// matches.
    pub open spec fn log_match_position(self) -> nat {
        if self.log_matches.len() == 0 {
            0
        } else {
            (self.log_match_index + 1) as nat
        }
    }

    /// The line under the log: where the log is scrolled to and, during a
    /// search, which match the walk stands on.
    pub open spec fn log_status(self) -> Seq<char> {
        let place = " Line "@ + decimal((self.log_scroll + 1) as nat) + "/"@ + decimal(
            spec_lines(self.logs).len(),
        ) + " ("@ + decimal(self.log_percentage()) + "%) | "@;
        match self.log_search {
            Some(query) => place + "Search: '"@ + query + "' ("@ + decimal(
                self.log_match_position(),
            ) + "/"@ + decimal(self.log_matches.len()) + ") | h/l:scroll "@,
            None => place + "h/l:horizontal scroll "@,
        }
    }
}

impl App {
    /// The title of the log viewer.
    pub fn log_title(&self) -> (r: String)
        ensures
            r@ == self@.log_title(),
    {
        match &self.selected_run {
            Some(run) => {
                let mut title = join3(" Logs: ", run.name.as_str(), " #");
                title.append(decimal_string(run.run_number).as_str());
                let ghost head = title@;
                match self.job_cursor {
                    Some(i) => {
                        if i < self.jobs.len() {
                            title.append(" - ");
                            title.append(self.jobs[i].name.as_str());
                            assert(title@ =~= head + (" - "@ + self@.jobs[i as int].name));
                        } else {
                            assert(title@ =~= head + Seq::<char>::empty());
                        }
                    },
                    None => {
                        assert(title@ =~= head + Seq::<char>::empty());
                    },
                }
                title.append(" ");
                title
            },
            None => " Logs ".to_string(),
        }
    }

    /// The line under the log.
    pub fn log_status(&self) -> (r: String)
        ensures
            r@ == self@.log_status(),
    {
        let total: usize = crate::text::count_lines(self.logs.as_str());
        let current: u128 = self.log_scroll as u128 + 1;
        let percentage: u128 = if total > 0 {
            (current * 100) / (total as u128)
        } else {
            0
        };
        let mut line = join(" Line ", decimal_string_wide(current).as_str());
        line.append("/");
        line.append(decimal_string_wide(total as u128).as_str());
        line.append(" (");
        line.append(decimal_string_wide(percentage).as_str());
        line.append("%) | ");
        match &self.log_search {
            Some(query) => {
                let position: u128 = if self.log_matches.len() == 0 {
                    0
                } else {
                    self.log_match_index as u128 + 1
                };
                line.append("Search: '");
                line.append(query.as_str());
                line.append("' (");
                line.append(decimal_string_wide(position).as_str());
                line.append("/");
                line.append(decimal_string_wide(self.log_matches.len() as u128).as_str());
                line.append(") | h/l:scroll ");
            },
            None => {
                line.append("h/l:horizontal scroll ");
            },
        }
        line
    }
}

} // verus!
