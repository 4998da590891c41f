use growse::branch::{default_branch, default_remote, remote_head_ref, select_branch};
use growse::config::{config_for, config_from_cli, merge_config_cli, CliOptions, GrowseConfig};
use growse::error::{Field, LinkError};
use growse::state::split_path_line;
use growse::text::{contains_str, decimal_string, first_path_segment, parse_digits, strip_prefix_str};

fn cli() -> CliOptions {
    CliOptions {
        path: None,
        no_show: None,
        verbose: None,
        branch: None,
        remote: None,
        config_file: None,
        current_branch: None,
    }
}

#[test]
fn path_with_line_number() {
    assert_eq!(split_path_line("src/main.rs:10"), Ok(("src/main.rs".to_string(), Some(10))));
}

#[test]
fn path_without_line_number() {
    assert_eq!(split_path_line("src/main.rs"), Ok(("src/main.rs".to_string(), None)));
    assert_eq!(split_path_line("a:b"), Ok(("a:b".to_string(), None)));
    assert_eq!(split_path_line("file:"), Ok(("file:".to_string(), None)));
    assert_eq!(split_path_line(""), Ok(("".to_string(), None)));
}

#[test]
fn only_last_colon_splits() {
    assert_eq!(split_path_line("a:1:2"), Ok(("a:1".to_string(), Some(2))));
    assert_eq!(split_path_line(":7"), Ok(("".to_string(), Some(7))));
}

#[test]
fn line_number_out_of_range() {
    assert_eq!(split_path_line("x:4294967295"), Ok(("x".to_string(), Some(4294967295))));
    assert_eq!(split_path_line("x:4294967296"), Err(LinkError::LineNumberOutOfRange));
}

#[test]
fn default_branch_fallbacks() {
    assert_eq!(default_branch("origin", Some("trunk".to_string()), None), "trunk");
    assert_eq!(
        default_branch("origin", Some("refs/heads/main".to_string()), Some("refs/remotes/origin/dev".to_string())),
        "main"
    );
    assert_eq!(
        default_branch("origin", None, Some("refs/remotes/origin/main".to_string())),
        "main"
    );
    assert_eq!(
        default_branch("origin", None, Some("refs/remotes/origin/HEAD".to_string())),
        "master"
    );
    assert_eq!(
        default_branch("origin", None, Some("refs/remotes/upstream/main".to_string())),
        "master"
    );
    assert_eq!(default_branch("origin", None, None), "master");
}

#[test]
fn remote_head_reference() {
    assert_eq!(remote_head_ref("origin"), "refs/remotes/origin/HEAD");
}

#[test]
fn default_remote_is_first() {
    assert_eq!(default_remote(&vec!["origin".to_string(), "up".to_string()]), Ok("origin".to_string()));
    assert_eq!(default_remote(&vec![]), Err(LinkError::NoRemotes));
}

#[test]
fn branch_selection() {
    let plain = GrowseConfig { use_branch: false, no_show: false, verbose: false, current_branch: false };
    let named = GrowseConfig { use_branch: true, ..plain };
    let current = GrowseConfig { use_branch: true, current_branch: true, ..plain };
    let s = |x: &str| Some(x.to_string());
    assert_eq!(select_branch(&plain, s("a"), s("b"), s("c")), Ok("c".to_string()));
    assert_eq!(select_branch(&named, s("a"), s("b"), s("c")), Ok("a".to_string()));
    assert_eq!(select_branch(&current, s("a"), s("b"), s("c")), Ok("b".to_string()));
    assert_eq!(select_branch(&named, None, s("b"), s("c")), Err(LinkError::MissingField(Field::Branch)));
}

#[test]
fn command_line_overrides_file() {
    let file = GrowseConfig { use_branch: true, no_show: true, verbose: true, current_branch: true };
    let merged = merge_config_cli(&CliOptions { verbose: Some(false), ..cli() }, &file);
    assert_eq!(merged, GrowseConfig { use_branch: false, no_show: true, verbose: false, current_branch: false });
    let merged = merge_config_cli(&CliOptions { branch: Some("dev".to_string()), ..cli() }, &file);
    assert!(merged.use_branch);
    assert!(!merged.current_branch);
}

#[test]
fn config_without_file() {
    assert_eq!(
        config_from_cli(&cli()),
        GrowseConfig { use_branch: false, no_show: false, verbose: false, current_branch: false }
    );
    let c = config_from_cli(&CliOptions { current_branch: Some(true), no_show: Some(true), ..cli() });
    assert_eq!(c, GrowseConfig { use_branch: true, no_show: true, verbose: false, current_branch: true });
}

#[test]
fn text_helpers() {
    assert!(contains_str("bitbucket.company.com", "bitbucket"));
    assert!(!contains_str("example.org", "gitlab"));
    assert!(contains_str("x", ""));
    assert_eq!(strip_prefix_str("/r/src", "/r/"), Some("src"));
    assert_eq!(strip_prefix_str("/rs", "/r/"), None);
    assert_eq!(first_path_segment("/a/b/c.git"), "a");
    assert_eq!(first_path_segment("a"), "a");
    assert_eq!(first_path_segment("///"), "");
    assert_eq!(decimal_string(0), "0");
    assert_eq!(decimal_string(4294967295), "4294967295");
    assert_eq!(parse_digits("0042"), Some(42));
    assert_eq!(parse_digits("99999999999"), None);
    assert_eq!(parse_digits("12a"), None);
}

#[test]
fn file_settings_only_where_a_file_was_found() {
    let file = GrowseConfig { use_branch: false, no_show: true, verbose: true, current_branch: false };
    let options = CliOptions { verbose: Some(false), ..cli() };
    assert_eq!(
        config_for(&options, Some(file)),
        GrowseConfig { use_branch: false, no_show: true, verbose: false, current_branch: false }
    );
    assert_eq!(
        config_for(&options, None),
        GrowseConfig { use_branch: false, no_show: false, verbose: false, current_branch: false }
    );
}
