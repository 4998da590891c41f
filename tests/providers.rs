use growse::config::GrowseConfig;
use growse::error::{Field, LinkError};
use growse::link::{descriptor_to_repo_url, remote_url_to_repo_url};
use growse::provider::{classify_remote, select_operation, Operation, Provider, RepoLink};
use growse::remote::RemoteDescriptor;
use growse::state::GrowseState;

fn plain_config() -> GrowseConfig {
    GrowseConfig { use_branch: false, no_show: true, verbose: false, current_branch: false }
}

fn branch_config() -> GrowseConfig {
    GrowseConfig { use_branch: true, ..plain_config() }
}

fn state(branch: &str, path: Option<&str>, line: Option<u32>) -> GrowseState {
    GrowseState {
        path: path.map(|p| p.to_string()),
        line_number: line,
        branch: branch.to_string(),
        current_dir: "/r".to_string(),
        repo_dir: "/r".to_string(),
    }
}

fn descriptor(host: Option<&str>, port: Option<u16>, owner: Option<&str>, name: &str, path: &str) -> RemoteDescriptor {
    RemoteDescriptor {
        host: host.map(|h| h.to_string()),
        port,
        owner: owner.map(|o| o.to_string()),
        name: name.to_string(),
        fullname: format!("{}/{}", owner.unwrap_or(""), name),
        path: path.to_string(),
    }
}

#[test]
fn example_github_base() {
    let r = remote_url_to_repo_url("git@github.com:takac/git-open.git", &state("master", None, None), &plain_config());
    assert_eq!(r, Ok("https://github.com/takac/git-open".to_string()));
}

#[test]
fn example_github_branch() {
    let r = remote_url_to_repo_url("git@github.com:takac/git-open.git", &state("master", None, None), &branch_config());
    assert_eq!(r, Ok("https://github.com/takac/git-open/tree/master".to_string()));
}

#[test]
fn example_github_path_branch_line() {
    let r = remote_url_to_repo_url(
        "git@github.com:takac/git-open.git",
        &state("main", Some("src/main.rs"), Some(10)),
        &branch_config(),
    );
    assert_eq!(r, Ok("https://github.com/takac/git-open/blob/main/src/main.rs#L10".to_string()));
}

#[test]
fn example_bitbucket_branch() {
    let r = remote_url_to_repo_url(
        "ssh://git@bitbucket.company.com:7999/takac/git-open.git",
        &state("master", None, None),
        &branch_config(),
    );
    assert_eq!(
        r,
        Ok("https://bitbucket.company.com/projects/takac/repos/git-open/browse?at=refs%2Fheads%2Fmaster".to_string())
    );
}

#[test]
fn example_gitlab_base() {
    let r = remote_url_to_repo_url(
        "git@gitlab.com:takac/side-project/git-open.git",
        &state("master", None, None),
        &plain_config(),
    );
    assert_eq!(r, Ok("https://gitlab.com/takac/side-project/git-open".to_string()));
}

#[test]
fn suffix_does_not_change_base_on_any_provider() {
    for url in [
        "git@github.com:takac/git-open",
        "ssh://git@bitbucket.company.com:7999/takac/git-open",
        "git@gitlab.com:takac/side-project/git-open",
    ] {
        let st = state("master", None, None);
        let plain = remote_url_to_repo_url(url, &st, &plain_config());
        let suffixed = remote_url_to_repo_url(&format!("{}.git", url), &st, &plain_config());
        assert!(plain.is_ok());
        assert_eq!(plain, suffixed);
    }
}

#[test]
fn scheme_does_not_change_bitbucket_base() {
    let st = state("master", None, None);
    let expected = Ok("https://bitbucket.company.com/projects/takac/repos/git-open".to_string());
    for url in [
        "ssh://git@bitbucket.company.com:7999/takac/git-open.git",
        "https://bitbucket.company.com/takac/git-open.git",
        "git@bitbucket.company.com:takac/git-open.git",
    ] {
        assert_eq!(remote_url_to_repo_url(url, &st, &plain_config()), expected);
    }
}

#[test]
fn scheme_does_not_change_gitlab_base() {
    let st = state("master", None, None);
    let expected = Ok("https://gitlab.com/takac/side-project/git-open".to_string());
    for url in [
        "ssh://git@gitlab.com/takac/side-project/git-open.git",
        "https://gitlab.com/takac/side-project/git-open.git",
        "git@gitlab.com:takac/side-project/git-open.git",
    ] {
        assert_eq!(remote_url_to_repo_url(url, &st, &plain_config()), expected);
    }
}

#[test]
fn port_7999_is_bitbucket_whatever_the_host() {
    let d = descriptor(Some("code.example.org"), Some(7999), Some("team"), "repo", "team/repo.git");
    assert_eq!(classify_remote(&d), Ok(Provider::BitBucket));
    let r = remote_url_to_repo_url(
        "ssh://git@code.example.org:7999/team/repo.git",
        &state("master", None, None),
        &plain_config(),
    );
    assert_eq!(r, Ok("https://code.example.org/projects/team/repos/repo".to_string()));
}

#[test]
fn host_name_wins_over_port() {
    let d = descriptor(Some("github.example.org"), Some(7999), Some("team"), "repo", "team/repo.git");
    assert_eq!(classify_remote(&d), Ok(Provider::GitHub));
}

#[test]
fn unknown_host_is_an_error() {
    let r = remote_url_to_repo_url("git@example.org:team/repo.git", &state("master", None, None), &plain_config());
    assert_eq!(r, Err(LinkError::UnknownHost));
}

#[test]
fn missing_host_is_an_error() {
    let d = descriptor(None, None, Some("team"), "repo", "team/repo");
    assert_eq!(classify_remote(&d), Err(LinkError::MissingField(Field::Host)));
}

#[test]
fn bitbucket_branch_ref_is_encoded() {
    let r = remote_url_to_repo_url(
        "ssh://git@bitbucket.company.com:7999/takac/git-open.git",
        &state("feature/login", None, None),
        &branch_config(),
    );
    assert_eq!(
        r,
        Ok("https://bitbucket.company.com/projects/takac/repos/git-open/browse?at=refs%2Fheads%2Ffeature%2Flogin".to_string())
    );
}

#[test]
fn bitbucket_path_operations() {
    let url = "ssh://git@bitbucket.company.com:7999/takac/git-open.git";
    let base = "https://bitbucket.company.com/projects/takac/repos/git-open/browse/src/main.rs";
    let r = remote_url_to_repo_url(url, &state("master", Some("src/main.rs"), None), &plain_config());
    assert_eq!(r, Ok(base.to_string()));
    let r = remote_url_to_repo_url(url, &state("master", Some("src/main.rs"), None), &branch_config());
    assert_eq!(r, Ok(format!("{}?at=refs%2Fheads%2Fmaster", base)));
    let r = remote_url_to_repo_url(url, &state("master", Some("src/main.rs"), Some(10)), &plain_config());
    assert_eq!(r, Ok(format!("{}#10", base)));
    let r = remote_url_to_repo_url(url, &state("master", Some("src/main.rs"), Some(10)), &branch_config());
    assert_eq!(r, Ok(format!("{}?at=refs%2Fheads%2Fmaster#10", base)));
}

#[test]
fn bitbucket_query_link_is_normalised_as_a_url() {
    let url = "ssh://git@bitbucket.company.com:7999/takac/git-open.git";
    let r = remote_url_to_repo_url(url, &state("master", Some("my file.rs"), None), &branch_config());
    assert_eq!(
        r,
        Ok("https://bitbucket.company.com/projects/takac/repos/git-open/browse/my%20file.rs?at=refs%2Fheads%2Fmaster".to_string())
    );
}

#[test]
fn gitlab_branch_link() {
    let r = remote_url_to_repo_url(
        "git@gitlab.com:takac/side-project/git-open.git",
        &state("main", None, None),
        &branch_config(),
    );
    assert_eq!(
        r,
        Ok("https://gitlab.com/takac/side-project/git-open/-/tree/main?at=refs%2Fheads%2Fmain".to_string())
    );
}

#[test]
fn gitlab_path_is_not_implemented() {
    let r = remote_url_to_repo_url(
        "git@gitlab.com:takac/side-project/git-open.git",
        &state("main", Some("src/main.rs"), Some(3)),
        &plain_config(),
    );
    assert_eq!(r, Err(LinkError::NotImplemented));
}

#[test]
fn github_path_from_subdirectory() {
    let st = GrowseState {
        current_dir: "/r/src".to_string(),
        repo_dir: "/r".to_string(),
        ..state("main", Some("main.rs"), None)
    };
    let r = remote_url_to_repo_url("git@github.com:takac/git-open.git", &st, &plain_config());
    assert_eq!(r, Ok("https://github.com/takac/git-open/blob/main/src/main.rs".to_string()));
}

#[test]
fn github_path_outside_repository() {
    let st = GrowseState {
        current_dir: "/elsewhere".to_string(),
        repo_dir: "/r".to_string(),
        ..state("main", Some("main.rs"), None)
    };
    let r = remote_url_to_repo_url("git@github.com:takac/git-open.git", &st, &plain_config());
    assert_eq!(r, Err(LinkError::OutsideRepository));
}

#[test]
fn missing_fields_are_named() {
    let gh = RepoLink {
        provider: Provider::GitHub,
        url: descriptor(Some("github.com"), None, Some("takac"), "git-open", "takac/git-open"),
        config: plain_config(),
        state: state("main", Some("a.rs"), None),
    };
    assert_eq!(gh.to_repo_url_with_path_and_line_number(), Err(LinkError::MissingField(Field::LineNumber)));
    let no_path = RepoLink { state: state("main", None, None), ..gh.clone() };
    assert_eq!(no_path.to_repo_url_with_path(), Err(LinkError::MissingField(Field::Path)));
    let bb = RepoLink {
        provider: Provider::BitBucket,
        url: descriptor(Some("bitbucket.org"), None, None, "repo", "repo"),
        ..gh.clone()
    };
    assert_eq!(bb.to_repo_url(), Err(LinkError::MissingField(Field::Owner)));
    assert_eq!(LinkError::MissingField(Field::Owner).message(), "No owner found");
}

#[test]
fn repo_link_operations_on_github() {
    let gh = RepoLink {
        provider: Provider::GitHub,
        url: descriptor(Some("github.com"), None, Some("takac"), "git-open", "takac/git-open"),
        config: plain_config(),
        state: state("dev", Some("a.rs"), Some(7)),
    };
    assert!(gh.is_host());
    assert_eq!(gh.to_repo_url(), Ok("https://github.com/takac/git-open".to_string()));
    assert_eq!(gh.to_repo_url_with_branch(), Ok("https://github.com/takac/git-open/tree/dev".to_string()));
    assert_eq!(gh.to_repo_url_with_path_and_branch(), Ok("https://github.com/takac/git-open/blob/dev/a.rs".to_string()));
    assert_eq!(
        gh.to_repo_url_with_path_and_branch_and_line_number(),
        Ok("https://github.com/takac/git-open/blob/dev/a.rs#L7".to_string())
    );
    assert_eq!(gh.to_url(), Ok("https://github.com/takac/git-open/blob/dev/a.rs#L7".to_string()));
}

#[test]
fn dispatcher_table() {
    assert_eq!(select_operation(true, false, false), Operation::WithBranch);
    assert_eq!(select_operation(true, true, false), Operation::WithPathAndBranch);
    assert_eq!(select_operation(true, true, true), Operation::WithPathAndBranchAndLineNumber);
    assert_eq!(select_operation(false, false, false), Operation::Base);
    assert_eq!(select_operation(false, true, false), Operation::WithPath);
    assert_eq!(select_operation(false, true, true), Operation::WithPathAndLineNumber);
}

#[test]
fn descriptor_link_without_parsing() {
    let d = descriptor(Some("gitlab.example.com"), None, Some("team"), "tool", "/group/team/tool.git");
    let r = descriptor_to_repo_url(&d, &state("main", None, None), &plain_config());
    assert_eq!(r, Ok("https://gitlab.example.com/group/team/tool".to_string()));
}

#[test]
fn remotes_the_parser_is_not_given() {
    let st = state("main", None, None);
    for url in [
        "ssh:x",
        "SSH:x/",
        "git@ssh.dev.azure.com:v3/a",
        "https://DEV.AZURE.COM/a/b",
        "https://dev.azure%2Ecom/a/b",
        "ssh://host/.",
        "ssh://host/a/%2E%2e",
        "ssh://host/?x",
        "git@host:#x",
        "git@host/.:",
        "git@host:22/.:",
        "ssh://host/a/../?q",
        " git@github.com:takac/git-open.git",
    ] {
        assert_eq!(remote_url_to_repo_url(url, &st, &plain_config()), Err(LinkError::UnsupportedRemote), "{}", url);
    }
}

#[test]
fn azure_named_repository_on_github() {
    let r = remote_url_to_repo_url("git@github.com:Azure/azure-cli.git", &state("main", None, None), &plain_config());
    assert_eq!(r, Ok("https://github.com/Azure/azure-cli".to_string()));
}

#[test]
fn query_and_escapes_in_remotes_are_accepted() {
    let st = state("main", None, None);
    let r = remote_url_to_repo_url("https://github.com/a/b?x=1", &st, &plain_config());
    assert_eq!(r, Ok("https://github.com/a/b".to_string()));
    let r = remote_url_to_repo_url("git@github.com:takac/git%2Dopen.git", &st, &plain_config());
    assert_eq!(r, Ok("https://github.com/takac/git%2Dopen".to_string()));
    let r = remote_url_to_repo_url("git@github.com:takac/caf\u{e9}.git", &st, &plain_config());
    assert_eq!(r, Ok("https://github.com/takac/caf%C3%A9".to_string()));
    let r = remote_url_to_repo_url("ssh://git@github.com/./o/r", &st, &plain_config());
    assert_eq!(r, Ok("https://github.com/o/r".to_string()));
    let r = remote_url_to_repo_url("git@github.com:org/.github.git", &st, &plain_config());
    assert_eq!(r, Ok("https://github.com/org/.github".to_string()));
}

#[test]
fn remote_without_path_is_unparsable() {
    let r = remote_url_to_repo_url("ssh://github.com", &state("main", None, None), &plain_config());
    assert_eq!(r, Err(LinkError::UnparsableRemote));
}
