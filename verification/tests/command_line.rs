use github_tui::cli::{choose_repo, parse_pr_arg, repo_of_remote};
use github_tui::token::{token_from_env_text, token_from_hosts_text, TokenSources};

fn arg(s: &str) -> Option<String> {
    Some(s.to_string())
}

#[test]
fn pr_argument_as_a_number() {
    assert_eq!(parse_pr_arg(&None), (None, None));
    assert_eq!(parse_pr_arg(&arg("123")), (None, Some(123)));
    assert_eq!(parse_pr_arg(&arg("+7")), (None, Some(7)));
    assert_eq!(parse_pr_arg(&arg("abc")), (None, None));
    assert_eq!(parse_pr_arg(&arg("")), (None, None));
}

#[test]
fn pr_argument_as_an_address() {
    assert_eq!(
        parse_pr_arg(&arg("https://github.com/octo/cat/pull/42")),
        (arg("octo/cat"), Some(42))
    );
    assert_eq!(
        parse_pr_arg(&arg("https://github.com/octo/cat/pull/42/files")),
        (arg("octo/cat"), Some(42))
    );
    assert_eq!(parse_pr_arg(&arg("https://www.github.com/octo/cat/pull/42")), (None, Some(42)));
    assert_eq!(parse_pr_arg(&arg("https://github.com/octo/cat/pull/x")), (None, None));
    assert_eq!(parse_pr_arg(&arg("https://github.com/octo/cat/pull/")), (None, None));
    assert_eq!(parse_pr_arg(&arg("https://gitlab.com/octo/cat/pull/42")), (None, None));
    assert_eq!(parse_pr_arg(&arg("https://github.com/octo/cat/issues/42")), (None, None));
}

#[test]
fn repository_of_a_remote() {
    assert_eq!(repo_of_remote("git@github.com:octo/cat.git\n"), arg("octo/cat"));
    assert_eq!(repo_of_remote("https://github.com/octo/cat.git\n"), arg("octo/cat"));
    assert_eq!(repo_of_remote("  https://github.com/octo/cat  "), arg("octo/cat"));
    assert_eq!(repo_of_remote("https://github.com/octo/cat.git.git"), arg("octo/cat"));
    assert_eq!(repo_of_remote("ssh://git@github.com/octo/cat.git"), arg("ssh://git@github.com/octo/cat"));
    assert_eq!(repo_of_remote("https://example.org/octo/cat.git"), None);
    assert_eq!(repo_of_remote(""), None);
}

#[test]
fn repository_is_chosen_in_order() {
    assert_eq!(choose_repo(arg("a/b"), arg("c/d"), arg("e/f")), "a/b");
    assert_eq!(choose_repo(None, arg("c/d"), arg("e/f")), "c/d");
    assert_eq!(choose_repo(None, None, arg("e/f")), "e/f");
    assert_eq!(choose_repo(None, None, None), "shopsys/shopsys");
}

#[test]
fn token_in_a_settings_file() {
    let text = "# comment\n\nOTHER=1\n  GITHUB_TOKEN = nope\nGITHUB_TOKEN=\"ghp_abc\"  \nGH_TOKEN=later\n";
    assert_eq!(token_from_env_text(text), arg("ghp_abc"));
    assert_eq!(token_from_env_text("GH_TOKEN='tok'\n"), arg("tok"));
    assert_eq!(token_from_env_text("GITHUB_TOKEN=\nGH_TOKEN= x \n"), arg("x"));
    assert_eq!(token_from_env_text("#GITHUB_TOKEN=abc\n"), None);
    assert_eq!(token_from_env_text("GITHUB_TOKEN=\"\"\n"), None);
    assert_eq!(token_from_env_text(""), None);
}

#[test]
fn token_in_the_helper_file() {
    let text = "github.com:\n    user: ada\n    oauth_token: gho_xyz\n    git_protocol: ssh\n";
    assert_eq!(token_from_hosts_text(text), arg("gho_xyz"));
    assert_eq!(token_from_hosts_text("oauth_token:\noauth_token:  second  \n"), arg("second"));
    assert_eq!(token_from_hosts_text("user: ada\n"), None);
}

#[test]
fn token_places_are_asked_in_order() {
    let all = TokenSources {
        github_token: arg("env1"),
        gh_token: arg("env2"),
        env_local: arg("GITHUB_TOKEN=local"),
        env: arg("GITHUB_TOKEN=file"),
        hosts: arg("oauth_token: helper"),
    };
    assert_eq!(all.clone().resolve(), arg("env1"));
    let mut s = all.clone();
    s.github_token = None;
    assert_eq!(s.clone().resolve(), arg("env2"));
    s.gh_token = None;
    assert_eq!(s.clone().resolve(), arg("local"));
    s.env_local = arg("nothing here");
    assert_eq!(s.clone().resolve(), arg("file"));
    s.env = None;
    assert_eq!(s.clone().resolve(), arg("helper"));
    s.hosts = None;
    assert_eq!(s.clone().resolve(), None);
    let empty = TokenSources { github_token: arg(""), ..all };
    assert_eq!(empty.resolve(), arg(""));
}
