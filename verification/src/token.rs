//! Where the access token comes from: the environment, a local file of
//! settings, or the credential helper's file, in that order.
use crate::text::{
    chars_of, matches_at, opt_text, spec_lines, spec_strip_prefix, spec_starts_with, spec_trim,
    spec_trim_char, split_lines, string_of, strip_prefix, trim_char, trim_chars,
};
use vstd::prelude::*;
use vstd::string::*;

verus! {

/// The value after `name` in a line of settings, without white space and
/// without the quotes around it. An empty value counts as none.
pub open spec fn value_after(line: Seq<char>, name: Seq<char>) -> Option<Seq<char>> {
    match spec_strip_prefix(line, name) {
        Some(rest) => {
            let value = spec_trim_char(spec_trim_char(spec_trim(rest), '"'), '\'');
            if value.len() > 0 {
                Some(value)
            } else {
                None
            }
        },
        None => None,
    }
}

/// The token that a line of a settings file gives. Empty lines and lines
/// that begin with `#` give none.
pub open spec fn token_in_line(line: Seq<char>) -> Option<Seq<char>> {
    let text = spec_trim(line);
    if text.len() == 0 || spec_starts_with(text, "#"@) {
        None
    } else {
        match value_after(text, "GITHUB_TOKEN="@) {
            Some(token) => Some(token),
            None => value_after(text, "GH_TOKEN="@),
        }
    }
}

/// The token of the first of `lines[from..]` that gives one.
pub open spec fn first_token(
    lines: Seq<Seq<char>>,
    from: int,
    pick: spec_fn(Seq<char>) -> Option<Seq<char>>,
) -> Option<Seq<char>>
    decreases lines.len() - from,
{
    if from < 0 || from >= lines.len() {
        None
    } else {
        match pick(lines[from]) {
            Some(token) => Some(token),
            None => first_token(lines, from + 1, pick),
        }
    }
}

/// The token that a settings file gives: that of its first line that gives
/// one.
pub open spec fn spec_token_from_env_text(content: Seq<char>) -> Option<Seq<char>> {
    first_token(spec_lines(content), 0, settings_pick())
}

/// How a line of a settings file is read.
pub open spec fn settings_pick() -> spec_fn(Seq<char>) -> Option<Seq<char>> {
    |line: Seq<char>| token_in_line(line)
}

/// How a line of the credential helper's file is read.
pub open spec fn helper_pick() -> spec_fn(Seq<char>) -> Option<Seq<char>> {
    |line: Seq<char>| helper_token_in_line(line)
}

/// The token that a line of the credential helper's file gives: what
/// follows `oauth_token:`, without white space.
pub open spec fn helper_token_in_line(line: Seq<char>) -> Option<Seq<char>> {
    match spec_strip_prefix(spec_trim(line), "oauth_token:"@) {
        Some(rest) => if spec_trim(rest).len() > 0 {
            Some(spec_trim(rest))
        } else {
            None
        },
        None => None,
    }
}

/// The token that the credential helper's file gives.
pub open spec fn spec_token_from_hosts_text(content: Seq<char>) -> Option<Seq<char>> {
    first_token(spec_lines(content), 0, helper_pick())
}

fn value_of(line: &Vec<char>, name: &Vec<char>) -> (r: Option<Vec<char>>)
    ensures
        crate::text::opt_chars(r) == value_after(line@, name@),
{
    match strip_prefix(line, name) {
        Some(rest) => {
            let value = trim_char(&trim_char(&trim_chars(&rest), '"'), '\'');
            if value.len() > 0 {
                Some(value)
            } else {
                None
            }
        },
        None => None,
    }
}

fn line_token(line: &Vec<char>) -> (r: Option<Vec<char>>)
    ensures
        crate::text::opt_chars(r) == token_in_line(line@),
{
    let text = trim_chars(line);
    if text.len() == 0 || matches_at(&text, &chars_of("#"), 0) {
        None
    } else {
        match value_of(&text, &chars_of("GITHUB_TOKEN=")) {
            Some(token) => Some(token),
            None => value_of(&text, &chars_of("GH_TOKEN=")),
        }
    }
}

fn helper_line_token(line: &Vec<char>) -> (r: Option<Vec<char>>)
    ensures
        crate::text::opt_chars(r) == helper_token_in_line(line@),
{
    match strip_prefix(&trim_chars(line), &chars_of("oauth_token:")) {
        Some(rest) => {
            let token = trim_chars(&rest);
            if token.len() > 0 {
                Some(token)
            } else {
                None
            }
        },
        None => None,
    }
}

/// Finds the token in the text of a settings file: the value of the first
/// line that sets `GITHUB_TOKEN` or `GH_TOKEN` to something.
pub fn token_from_env_text(content: &str) -> (r: Option<String>)
    ensures
        opt_text(r) == spec_token_from_env_text(content@),
{
    let lines = split_lines(&chars_of(content));
    let ghost model = spec_lines(content@);
    let ghost pick = settings_pick();
    let mut i: usize = 0;
    while i < lines.len()
        invariant
            i <= lines.len(),
            lines@.map_values(|l: Vec<char>| l@) == model,
            model == spec_lines(content@),
            pick == settings_pick(),
            first_token(model, 0, pick) == first_token(model, i as int, pick),
        decreases lines.len() - i,
    {
        assert(lines@.map_values(|l: Vec<char>| l@).len() == lines.len());
        assert(model[i as int] == lines@[i as int]@);
        assert(pick(model[i as int]) == token_in_line(model[i as int]));
        if let Some(token) = line_token(&lines[i]) {
            assert(pick(model[i as int]) == Some(token@));
            assert(first_token(model, i as int, pick) == Some(token@));
            return Some(string_of(&token));
        }
        i += 1;
    }
    assert(lines@.map_values(|l: Vec<char>| l@).len() == lines.len());
    None
}

/// Finds the token in the text of the credential helper's file: what the
/// first line with `oauth_token:` sets it to.
pub fn token_from_hosts_text(content: &str) -> (r: Option<String>)
    ensures
        opt_text(r) == spec_token_from_hosts_text(content@),
{
    let lines = split_lines(&chars_of(content));
    let ghost model = spec_lines(content@);
    let ghost pick = helper_pick();
    let mut i: usize = 0;
    while i < lines.len()
        invariant
            i <= lines.len(),
            lines@.map_values(|l: Vec<char>| l@) == model,
            model == spec_lines(content@),
            pick == helper_pick(),
            first_token(model, 0, pick) == first_token(model, i as int, pick),
        decreases lines.len() - i,
    {
        assert(lines@.map_values(|l: Vec<char>| l@).len() == lines.len());
        assert(model[i as int] == lines@[i as int]@);
        assert(pick(model[i as int]) == helper_token_in_line(model[i as int]));
        if let Some(token) = helper_line_token(&lines[i]) {
            assert(pick(model[i as int]) == Some(token@));
            assert(first_token(model, i as int, pick) == Some(token@));
            return Some(string_of(&token));
        }
        i += 1;
    }
    assert(lines@.map_values(|l: Vec<char>| l@).len() == lines.len());
    None
}

/// What was found in the places where a token may be. `None` is a place
/// that does not exist.
#[derive(Debug, Clone, PartialEq, Eq)]
pub struct TokenSources {
    /// The environment variable `GITHUB_TOKEN`.
    pub github_token: Option<String>,
    /// The environment variable `GH_TOKEN`.
    pub gh_token: Option<String>,
    /// The text of `.env.local`.
    pub env_local: Option<String>,
    /// The text of `.env`.
    pub env: Option<String>,
    /// The text of the credential helper's file.
    pub hosts: Option<String>,
}

/// The token of a settings file that exists.
pub open spec fn token_in_file(content: Option<Seq<char>>) -> Option<Seq<char>> {
    match content {
        Some(text) => spec_token_from_env_text(text),
        None => None,
    }
}

impl TokenSources {
    /// The token to use: the first that the places give, in their order. A
    /// variable that is set counts even where it is empty.
    pub open spec fn spec_resolve(self) -> Option<Seq<char>> {
        if self.github_token.is_some() {
            opt_text(self.github_token)
        } else if self.gh_token.is_some() {
            opt_text(self.gh_token)
        } else if token_in_file(opt_text(self.env_local)).is_some() {
            token_in_file(opt_text(self.env_local))
        } else if token_in_file(opt_text(self.env)).is_some() {
            token_in_file(opt_text(self.env))
        } else {
            match self.hosts {
                Some(text) => spec_token_from_hosts_text(text@),
                None => None,
            }
        }
    }

    /// Picks the token to use, or `None` where no place gives one.
    pub fn resolve(self) -> (r: Option<String>)
        ensures
            opt_text(r) == self.spec_resolve(),
    {
        if let Some(token) = self.github_token {
            return Some(token);
        }
        if let Some(token) = self.gh_token {
            return Some(token);
        }
        if let Some(text) = &self.env_local {
            if let Some(token) = token_from_env_text(text.as_str()) {
                return Some(token);
            }
        }
        if let Some(text) = &self.env {
            if let Some(token) = token_from_env_text(text.as_str()) {
                return Some(token);
            }
        }
        match &self.hosts {
            Some(text) => token_from_hosts_text(text.as_str()),
            None => None,
        }
    }
}

} // verus!
