use growse::config::GrowseConfig;
use growse::link::remote_url_to_repo_url;
use growse::state::GrowseState;

fn test_config() -> GrowseConfig {
    GrowseConfig {
        verbose: true,
        no_show: false,
        use_branch: false,
        current_branch: false,
    }
}

fn generate_test_state() -> GrowseState {
    GrowseState {
        branch: "master".to_string(),
        line_number: None,
        path: None,
        current_dir: "/work/git-open".to_string(),
        repo_dir: "/work/git-open".to_string(),
    }
}

fn default_test(expected_to_input: &[(&str, &str)]) {
    for (expected, input) in expected_to_input {
        assert_eq!(
            *expected,
            remote_url_to_repo_url(input, &generate_test_state(), &test_config()).unwrap()
        );
    }
}

#[test]
fn test_simple_repo_link() {
    let remote_urls = &[
        "ssh://git@github.com/takac/git-open",
        "https://github.com/takac/git-open",
        "git@github.com:takac/git-open",
    ];
    let test_state = generate_test_state();
    for url in remote_urls {
        let expected = "https://github.com/takac/git-open";
        assert_eq!(
            expected,
            remote_url_to_repo_url(url, &test_state, &test_config()).unwrap()
        );
        assert_eq!(
            expected,
            remote_url_to_repo_url(&format!("{}.git", url), &test_state, &test_config()).unwrap()
        );
    }
}

#[test]
fn test_bb_repo_link() {
    default_test(&[
        (
            "https://bitbucket.company.com/projects/takac/repos/git-open",
            "ssh://git@bitbucket.company.com:7999/takac/git-open.git",
        ),
        (
            "https://bitbucket.gi.de/projects/dig/repos/frontend",
            "https://bitbucket.gi.de/scm/dig/frontend.git",
        ),
    ]);
}

#[test]
fn test_gitlab_repo_link() {
    default_test(&[(
        "https://gitlab.com/takac/side-project/git-open",
        "git@gitlab.com:takac/side-project/git-open.git",
    )]);
}

#[test]
fn test_simple_repo_link_with_branch() {
    let remote_urls = &[
        "ssh://git@github.com/takac/git-open",
        "https://github.com/takac/git-open",
        "git@github.com:takac/git-open",
    ];
    let state = GrowseState {
        branch: "master".to_string(),
        ..generate_test_state()
    };
    let config = GrowseConfig {
        use_branch: true,
        ..test_config()
    };
    for url in remote_urls {
        let expected = "https://github.com/takac/git-open/tree/master";
        assert_eq!(expected, remote_url_to_repo_url(url, &state, &config).unwrap());
        assert_eq!(
            expected,
            remote_url_to_repo_url(&format!("{}.git", url), &state, &config).unwrap()
        );
    }
}

#[test]
fn test_bb_repo_link_with_branch() {
    let state = GrowseState {
        branch: "master".to_string(),
        ..generate_test_state()
    };
    let config = GrowseConfig {
        use_branch: true,
        ..test_config()
    };
    let expected = "https://bitbucket.company.com/projects/takac/repos/git-open/browse?at=refs%2Fheads%2Fmaster";
    let url = "ssh://git@bitbucket.company.com:7999/takac/git-open.git";
    assert_eq!(expected, remote_url_to_repo_url(url, &state, &config).unwrap());
}

#[test]
fn test_simple_repo_link_with_path() {
    let remote_urls = &[
        "ssh://git@github.com/takac/git-open",
        "https://github.com/takac/git-open",
        "git@github.com:takac/git-open",
    ];
    let state = GrowseState {
        branch: "main".to_string(),
        path: Some("src/main.rs".to_string()),
        ..generate_test_state()
    };
    for url in remote_urls {
        let expected = "https://github.com/takac/git-open/blob/main/src/main.rs";
        assert_eq!(expected, remote_url_to_repo_url(url, &state, &test_config()).unwrap());
        assert_eq!(
            expected,
            remote_url_to_repo_url(&format!("{}.git", url), &state, &test_config()).unwrap()
        );
    }
}

#[test]
fn test_simple_repo_link_with_path_not_at_root() {
    let remote_urls = &[
        "ssh://git@github.com/takac/git-open",
        "https://github.com/takac/git-open",
        "git@github.com:takac/git-open",
    ];
    let state = GrowseState {
        branch: "main".to_string(),
        path: Some("src/main.rs".to_string()),
        ..generate_test_state()
    };
    for url in remote_urls {
        let expected = "https://github.com/takac/git-open/blob/main/src/main.rs";
        assert_eq!(expected, remote_url_to_repo_url(url, &state, &test_config()).unwrap());
        assert_eq!(
            expected,
            remote_url_to_repo_url(&format!("{}.git", url), &state, &test_config()).unwrap()
        );
    }
}

#[test]
fn test_simple_repo_link_with_path_line_nos() {
    let remote_urls = &[
        "ssh://git@github.com/takac/git-open",
        "https://github.com/takac/git-open",
        "git@github.com:takac/git-open",
    ];
    let state = GrowseState {
        branch: "main".to_string(),
        path: Some("src/main.rs".to_string()),
        line_number: Some(10),
        ..generate_test_state()
    };
    for url in remote_urls {
        let expected = "https://github.com/takac/git-open/blob/main/src/main.rs#L10";
        assert_eq!(expected, remote_url_to_repo_url(url, &state, &test_config()).unwrap());
    }
}

#[test]
fn test_repo_link_with_remote() {
    let remote_urls = &[
        "ssh://git@github.com/takac/git-open",
        "https://github.com/takac/git-open",
        "git@github.com:takac/git-open",
    ];
    let state = GrowseState {
        branch: "main".to_string(),
        path: Some("src/main.rs".to_string()),
        line_number: Some(10),
        ..generate_test_state()
    };
    for url in remote_urls {
        let expected = "https://github.com/takac/git-open/blob/main/src/main.rs#L10";
        assert_eq!(expected, remote_url_to_repo_url(url, &state, &test_config()).unwrap());
    }
}
