//! What the command line and the local checkout say about the repository
//! and the pull request to open.
use crate::text::{
    chars_of, join3, contains_chars, matches_at, opt_text, parse_u64, spec_contains,
    spec_parse_u64, spec_split, spec_trim, spec_trim_end_matches, spec_trim_start_matches,
    split_chars, string_of, trim_chars, trim_end_matches, trim_start_matches,
};
use vstd::prelude::*;
use vstd::string::*;

verus! {

/// The position of the first part at or after `from` that is `word`.
pub open spec fn first_part(parts: Seq<Seq<char>>, word: Seq<char>, from: int) -> Option<int>
    decreases parts.len() - from,
{
    if from < 0 || from >= parts.len() {
        None
    } else if parts[from] == word {
        Some(from)
    } else {
        first_part(parts, word, from + 1)
    }
}

/// The repository that the parts of an address name: the two parts after
/// the host.
pub open spec fn repo_in_parts(parts: Seq<Seq<char>>) -> Option<Seq<char>> {
    match first_part(parts, "github.com"@, 0) {
        Some(host) => if host + 2 < parts.len() {
            Some(parts[host + 1] + "/"@ + parts[host + 2])
        } else {
            None
        },
        None => None,
    }
}

/// What the address of a pull request says: the number after the part
/// `pull`, and the repository after the host.
pub open spec fn parse_pr_url(url: Seq<char>) -> (Option<Seq<char>>, Option<u64>) {
    let parts = spec_split(url, '/');
    match first_part(parts, "pull"@, 0) {
        Some(at) => if at + 1 < parts.len() {
            match spec_parse_u64(parts[at + 1]) {
                Some(number) => (repo_in_parts(parts), Some(number)),
                None => (None, None),
            }
        } else {
            (None, None)
        },
        None => (None, None),
    }
}

/// What the argument for the pull request to open says: a number is the
/// pull request's number; an address of the provider with `/pull/` in it
/// gives the number and, where it can be read, the repository; anything
/// else says nothing.
pub open spec fn spec_parse_pr_arg(arg: Option<Seq<char>>) -> (Option<Seq<char>>, Option<u64>) {
    match arg {
        None => (None, None),
        Some(text) => match spec_parse_u64(text) {
            Some(number) => (None, Some(number)),
            None => if spec_contains(text, "github.com"@) && spec_contains(text, "/pull/"@) {
                parse_pr_url(text)
            } else {
                (None, None)
            },
        },
    }
}

/// Whether two runs of characters are the same.
fn same_chars(a: &Vec<char>, b: &Vec<char>) -> (r: bool)
    ensures
        r == (a@ == b@),
{
    if a.len() != b.len() {
        return false;
    }
    let r = matches_at(a, b, 0);
    assert(a@.subrange(0, a.len() as int) =~= a@);
    r
}

fn find_part(parts: &Vec<Vec<char>>, word: &Vec<char>) -> (r: Option<usize>)
    ensures
        match r {
            Some(at) => first_part(parts@.map_values(|p: Vec<char>| p@), word@, 0) == Some(
                at as int,
            ) && at < parts.len(),
            None => first_part(parts@.map_values(|p: Vec<char>| p@), word@, 0).is_none(),
        },
{
    let ghost model = parts@.map_values(|p: Vec<char>| p@);
    let mut i: usize = 0;
    while i < parts.len()
        invariant
            i <= parts.len(),
            model == parts@.map_values(|p: Vec<char>| p@),
            first_part(model, word@, 0) == first_part(model, word@, i as int),
        decreases parts.len() - i,
    {
        assert(model[i as int] == parts@[i as int]@);
        if same_chars(&parts[i], word) {
            return Some(i);
        }
        i += 1;
    }
    None
}

fn repo_of_parts(parts: &Vec<Vec<char>>) -> (r: Option<String>)
    ensures
        opt_text(r) == repo_in_parts(parts@.map_values(|p: Vec<char>| p@)),
{
    let ghost model = parts@.map_values(|p: Vec<char>| p@);
    let host = chars_of("github.com");
    match find_part(parts, &host) {
        Some(at) => {
            if parts.len() - at > 2 {
                assert(model[at + 1] == parts@[at + 1]@);
                assert(model[at + 2] == parts@[at + 2]@);
                let owner = string_of(&parts[at + 1]);
                let name = string_of(&parts[at + 2]);
                Some(join3(owner.as_str(), "/", name.as_str()))
            } else {
                None
            }
        },
        None => None,
    }
}

/// Reads the argument for the pull request to open: the repository it
/// names, if any, and the pull request's number, if any.
pub fn parse_pr_arg(pr_arg: &Option<String>) -> (r: (Option<String>, Option<u64>))
    ensures
        (opt_text(r.0), r.1) == spec_parse_pr_arg(opt_text(*pr_arg)),
{
    let text = match pr_arg {
        Some(text) => chars_of(text.as_str()),
        None => {
            return (None, None);
        },
    };
    if let Some(number) = parse_u64(&text) {
        return (None, Some(number));
    }
    if !(contains_chars(&text, &chars_of("github.com")) && contains_chars(
        &text,
        &chars_of("/pull/"),
    )) {
        return (None, None);
    }
    let parts = split_chars(&text, '/');
    let ghost model = parts@.map_values(|p: Vec<char>| p@);
    assert(model.len() == parts.len());
    match find_part(&parts, &chars_of("pull")) {
        Some(at) => {
            if parts.len() - at > 1 {
                assert(model[at + 1] == parts@[at + 1]@);
                match parse_u64(&parts[at + 1]) {
                    Some(number) => (repo_of_parts(&parts), Some(number)),
                    None => (None, None),
                }
            } else {
                (None, None)
            }
        },
        None => (None, None),
    }
}

/// The repository that the address of a remote names, as the version
/// control prints it: an address of the provider without what stands before
/// the owner and without the `.git` at its end. Another address names none.
pub open spec fn spec_repo_of_remote(output: Seq<char>) -> Option<Seq<char>> {
    let url = spec_trim(output);
    if spec_contains(url, "github.com"@) {
        Some(
            spec_trim_end_matches(
                spec_trim_start_matches(
                    spec_trim_start_matches(url, "git@github.com:"@),
                    "https://github.com/"@,
                ),
                ".git"@,
            ),
        )
    } else {
        None
    }
}

/// Reads the repository out of the address of the remote.
pub fn repo_of_remote(output: &str) -> (r: Option<String>)
    ensures
        opt_text(r) == spec_repo_of_remote(output@),
{
    let url = trim_chars(&chars_of(output));
    if contains_chars(&url, &chars_of("github.com")) {
        let a = trim_start_matches(&url, &chars_of("git@github.com:"));
        let b = trim_start_matches(&a, &chars_of("https://github.com/"));
        let c = trim_end_matches(&b, &chars_of(".git"));
        Some(string_of(&c))
    } else {
        None
    }
}

/// The repository when nothing names one.
pub open spec fn default_repo() -> Seq<char> {
    "shopsys/shopsys"@
}

/// The repository to show: the one given, else the one in the pull
/// request's address, else the one of the local checkout, else the default.
pub open spec fn spec_choose_repo(
    given: Option<Seq<char>>,
    from_pr: Option<Seq<char>>,
    detected: Option<Seq<char>>,
) -> Seq<char> {
    match given {
        Some(repo) => repo,
        None => match from_pr {
            Some(repo) => repo,
            None => match detected {
                Some(repo) => repo,
                None => default_repo(),
            },
        },
    }
}

/// Picks the repository to show.
pub fn choose_repo(given: Option<String>, from_pr: Option<String>, detected: Option<String>) -> (r:
    String)
    ensures
        r@ == spec_choose_repo(opt_text(given), opt_text(from_pr), opt_text(detected)),
{
    match given {
        Some(repo) => repo,
        None => match from_pr {
            Some(repo) => repo,
            None => match detected {
                Some(repo) => repo,
                None => "shopsys/shopsys".to_string(),
            },
        },
    }
}

} // verus!
