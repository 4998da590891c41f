//! The hosting providers, which of them owns a remote, and the web address each of
//! them gives a repository, a branch, a file and a line.

use vstd::prelude::*;
use vstd::string::*;
use crate::config::GrowseConfig;
use crate::error::{result_view, Field, LinkError};
use crate::remote::{RemoteDescriptor, RemoteView};
use crate::state::{GrowseState, StateView};
use crate::text::{contains_str, decimal, lemma_decimal_digits, decimal_string, first_path_segment, first_segment, has_infix, has_prefix, strip_prefix_str};
use crate::weburl::{encoded_ref_query, has_suffix, lemma_no_query_or_fragment_concat, lemma_ref_query, no_query_or_fragment, parse_with_fragment, parse_with_query_pair, url_with_fragment, url_with_query_pair, URL_LIMIT};

verus! {

/// A hosting provider with a web address grammar of its own.
#[derive(Debug, Clone, Copy, PartialEq, Eq, Structural)]
pub enum Provider {
    GitHub,
    GitLab,
    BitBucket,
}

/// What a link shows beyond the repository itself.
#[derive(Debug, Clone, Copy, PartialEq, Eq, Structural)]
pub enum Operation {
    Base,
    WithBranch,
    WithPath,
    WithPathAndBranch,
    WithPathAndLineNumber,
    WithPathAndBranchAndLineNumber,
}

/// The port that BitBucket Server conventionally serves SSH on.
pub const BITBUCKET_SSH_PORT: u16 = 7999;

/// `p` claims the remote `d`: GitHub and GitLab by their name in the host, BitBucket by
/// its name in the host or by the BitBucket Server SSH port.
pub open spec fn claims(p: Provider, d: RemoteView) -> bool {
    match p {
        Provider::GitHub => d.host matches Some(h) && has_infix(h, "github"@),
        Provider::GitLab => d.host matches Some(h) && has_infix(h, "gitlab"@),
        Provider::BitBucket => (d.host matches Some(h) && has_infix(h, "bitbucket"@)) || d.port
            == Some(BITBUCKET_SSH_PORT),
    }
}

/// The provider of `d`: the first of GitHub, GitLab and BitBucket that claims it. A
/// remote without a host, or one that none claims, has none.
pub open spec fn classify(d: RemoteView) -> Result<Provider, LinkError> {
    if d.host is None {
        Err(LinkError::MissingField(Field::Host))
    } else if claims(Provider::GitHub, d) {
        Ok(Provider::GitHub)
    } else if claims(Provider::GitLab, d) {
        Ok(Provider::GitLab)
    } else if claims(Provider::BitBucket, d) {
        Ok(Provider::BitBucket)
    } else {
        Err(LinkError::UnknownHost)
    }
}

/// The operation that the settings and the request select: branch mode or not, and
/// whether a file, and a line of it, are asked for.
pub open spec fn operation_for(use_branch: bool, has_path: bool, has_line: bool) -> Operation {
    if use_branch {
        if !has_path {
            Operation::WithBranch
        } else if has_line {
            Operation::WithPathAndBranchAndLineNumber
        } else {
            Operation::WithPathAndBranch
        }
    } else {
        if !has_path {
            Operation::Base
        } else if has_line {
            Operation::WithPathAndLineNumber
        } else {
            Operation::WithPath
        }
    }
}

/// The full reference of the branch `b`.
pub open spec fn branch_ref(b: Seq<char>) -> Seq<char> {
    "refs/heads/"@ + b
}

/// `target` with the query pair `at=refs/heads/<branch>` added.
pub open spec fn with_branch_query(target: Seq<char>, branch: Seq<char>) -> Result<Seq<char>, LinkError> {
    if target.len() + "at"@.len() + branch_ref(branch).len() >= URL_LIMIT {
        Err(LinkError::TooLong)
    } else {
        match url_with_query_pair(target, "at"@, branch_ref(branch)) {
            Some(t) => Ok(t),
            None => Err(LinkError::InvalidUrl),
        }
    }
}

/// `url` with its fragment set to the line number `n`.
pub open spec fn with_line_fragment(url: Seq<char>, n: u32) -> Result<Seq<char>, LinkError> {
    if url.len() + decimal(n as nat).len() >= URL_LIMIT {
        Err(LinkError::TooLong)
    } else {
        match url_with_fragment(url, decimal(n as nat)) {
            Some(t) => Ok(t),
            None => Err(LinkError::InvalidUrl),
        }
    }
}

/// The file's path from the repository root: the requested path, behind the working
/// directory's offset from the root where the two differ.
pub open spec fn github_file_path(st: StateView) -> Result<Seq<char>, LinkError> {
    match st.path {
        None => Err(LinkError::MissingField(Field::Path)),
        Some(p) => if st.current_dir == st.repo_dir {
            Ok(p)
        } else if has_prefix(st.current_dir, st.repo_dir + "/"@) {
            Ok(st.current_dir.skip(st.repo_dir.len() + 1int) + "/"@ + p)
        } else {
            Err(LinkError::OutsideRepository)
        },
    }
}

/// GitHub's link for `op`.
pub open spec fn github_link(op: Operation, d: RemoteView, st: StateView) -> Result<Seq<char>, LinkError> {
    match d.host {
        None => Err(LinkError::MissingField(Field::Host)),
        Some(h) => {
            let base = "https://"@ + h + "/"@ + d.fullname;
            match op {
                Operation::Base => Ok(base),
                Operation::WithBranch => Ok(base + "/tree/"@ + st.branch),
                _ => match github_file_path(st) {
                    Err(e) => Err(e),
                    Ok(p) => {
                        let file = base + "/blob/"@ + st.branch + "/"@ + p;
                        if op == Operation::WithPath || op == Operation::WithPathAndBranch {
                            Ok(file)
                        } else {
                            match st.line_number {
                                None => Err(LinkError::MissingField(Field::LineNumber)),
                                Some(n) => Ok(file + "#L"@ + decimal(n as nat)),
                            }
                        }
                    },
                },
            }
        },
    }
}

/// GitLab's link for `op`: the repository is addressed by the first segment of the
/// remote's path, then the owner and the name. That reconstruction misses the groups
/// between the first segment and the owner in deeper group paths.
pub open spec fn gitlab_link(op: Operation, d: RemoteView, st: StateView) -> Result<Seq<char>, LinkError> {
    if op != Operation::Base && op != Operation::WithBranch {
        Err(LinkError::NotImplemented)
    } else {
        match d.host {
            None => Err(LinkError::MissingField(Field::Host)),
            Some(h) => match d.owner {
                None => Err(LinkError::MissingField(Field::Owner)),
                Some(o) => {
                    let base = "https://"@ + h + "/"@ + first_segment(d.path) + "/"@ + o + "/"@
                        + d.name;
                    if op == Operation::Base {
                        Ok(base)
                    } else {
                        with_branch_query(base + "/-/tree/"@ + st.branch, st.branch)
                    }
                },
            },
        }
    }
}

/// BitBucket's link for `op`.
pub open spec fn bitbucket_link(op: Operation, d: RemoteView, st: StateView) -> Result<Seq<char>, LinkError> {
    match d.host {
        None => Err(LinkError::MissingField(Field::Host)),
        Some(h) => match d.owner {
            None => Err(LinkError::MissingField(Field::Owner)),
            Some(o) => {
                let base = "https://"@ + h + "/projects/"@ + o + "/repos/"@ + d.name;
                if op == Operation::Base {
                    Ok(base)
                } else if op == Operation::WithBranch {
                    with_branch_query(base + "/browse"@, st.branch)
                } else {
                    match st.path {
                        None => Err(LinkError::MissingField(Field::Path)),
                        Some(p) => bitbucket_file_link(op, base + "/browse/"@ + p, st),
                    }
                }
            },
        },
    }
}

/// BitBucket's link to the file whose plain address is `file`.
pub open spec fn bitbucket_file_link(op: Operation, file: Seq<char>, st: StateView) -> Result<Seq<char>, LinkError> {
    if op == Operation::WithPath {
        Ok(file)
    } else if op == Operation::WithPathAndBranch {
        with_branch_query(file, st.branch)
    } else {
        match st.line_number {
            None => Err(LinkError::MissingField(Field::LineNumber)),
            Some(n) => if op == Operation::WithPathAndLineNumber {
                with_line_fragment(file, n)
            } else {
                match with_branch_query(file, st.branch) {
                    Ok(t) => with_line_fragment(t, n),
                    Err(e) => Err(e),
                }
            },
        }
    }
}

/// The host, owner and name of `d` hold no `?` and no `#`.
pub open spec fn remote_parts_plain(d: RemoteView) -> bool {
    &&& (d.host matches Some(h) ==> no_query_or_fragment(h))
    &&& (d.owner matches Some(o) ==> no_query_or_fragment(o))
    &&& no_query_or_fragment(d.name)
}

/// The parts that BitBucket's link for `op` is built from hold no `?` and no `#`, so
/// that the branch query is the last thing in the link: the remote's host, owner and
/// name, and the file's path where `op` shows a file.
pub open spec fn bitbucket_parts_plain(op: Operation, d: RemoteView, st: StateView) -> bool {
    &&& remote_parts_plain(d)
    &&& (op == Operation::WithPathAndBranch ==> (st.path matches Some(p) ==> no_query_or_fragment(
        p,
    )))
}

/// The parts that GitLab's branch link is built from hold no `?` and no `#`: the
/// remote's host, owner and name, the first segment of its path, and the branch.
pub open spec fn gitlab_parts_plain(d: RemoteView, st: StateView) -> bool {
    &&& remote_parts_plain(d)
    &&& no_query_or_fragment(first_segment(d.path))
    &&& no_query_or_fragment(st.branch)
}

/// The branch query `at=refs%2Fheads%2F<branch>` ends the link that `p` gives for `op`:
/// BitBucket's links to a branch or to a file on it, and GitLab's link to a branch, where
/// their parts are plain.
pub open spec fn ends_in_branch_query(p: Provider, op: Operation, d: RemoteView, st: StateView) -> bool {
    ||| p == Provider::BitBucket && branch_without_line(op) && bitbucket_parts_plain(op, d, st)
    ||| p == Provider::GitLab && op == Operation::WithBranch && gitlab_parts_plain(d, st)
}

/// `op` asks for a line of a file.
pub open spec fn with_line(op: Operation) -> bool {
    op == Operation::WithPathAndLineNumber || op == Operation::WithPathAndBranchAndLineNumber
}

/// The fragment that points at line `n`.
pub open spec fn line_suffix(n: u32) -> Seq<char> {
    seq!['#'] + decimal(n as nat)
}

/// `op` asks for a branch and no line.
pub open spec fn branch_without_line(op: Operation) -> bool {
    op == Operation::WithBranch || op == Operation::WithPathAndBranch
}

/// The link that provider `p` gives for `op`.
pub open spec fn link_of(p: Provider, op: Operation, d: RemoteView, st: StateView) -> Result<Seq<char>, LinkError> {
    match p {
        Provider::GitHub => github_link(op, d, st),
        Provider::GitLab => gitlab_link(op, d, st),
        Provider::BitBucket => bitbucket_link(op, d, st),
    }
}

impl Provider {
    /// Whether this provider claims the remote `url`, as `claims` states.
    pub fn is_host(self, url: &RemoteDescriptor) -> (r: bool)
        ensures
            r == claims(self, url@),
    {
        let host_has = |word: &str| -> (b: bool)
            ensures
                b == (url@.host matches Some(h) && has_infix(h, word@)),
            {
                match &url.host {
                    Some(h) => contains_str(h.as_str(), word),
                    None => false,
                }
            };
        match self {
            Provider::GitHub => host_has("github"),
            Provider::GitLab => host_has("gitlab"),
            Provider::BitBucket => {
                let by_port = match url.port {
                    Some(p) => p == BITBUCKET_SSH_PORT,
                    None => false,
                };
                host_has("bitbucket") || by_port
            },
        }
    }
}

/// The provider of the remote `url`, as `classify` states.
pub fn classify_remote(url: &RemoteDescriptor) -> (r: Result<Provider, LinkError>)
    ensures
        r == classify(url@),
{
    if url.host.is_none() {
        Err(LinkError::MissingField(Field::Host))
    } else if Provider::GitHub.is_host(url) {
        Ok(Provider::GitHub)
    } else if Provider::GitLab.is_host(url) {
        Ok(Provider::GitLab)
    } else if Provider::BitBucket.is_host(url) {
        Ok(Provider::BitBucket)
    } else {
        Err(LinkError::UnknownHost)
    }
}

/// The operation that the settings and the request select, as `operation_for` states.
pub fn select_operation(use_branch: bool, has_path: bool, has_line: bool) -> (r: Operation)
    ensures
        r == operation_for(use_branch, has_path, has_line),
{
    if use_branch {
        if !has_path {
            Operation::WithBranch
        } else if has_line {
            Operation::WithPathAndBranchAndLineNumber
        } else {
            Operation::WithPathAndBranch
        }
    } else {
        if !has_path {
            Operation::Base
        } else if has_line {
            Operation::WithPathAndLineNumber
        } else {
            Operation::WithPath
        }
    }
}

/// `target` with the query pair `at=refs/heads/<branch>` added.
fn branch_query(target: &str, branch: &str) -> (r: Result<String, LinkError>)
    ensures
        result_view(r) == with_branch_query(target@, branch@),
        r matches Ok(t) ==> no_query_or_fragment(target@) ==> has_suffix(
            t@,
            encoded_ref_query(branch@),
        ),
{
    proof {
        lemma_ref_query(branch@);
    }
    let mut at = String::from_str("refs/heads/");
    at.append(branch);
    proof {
        reveal_strlit("at");
    }
    let tl = target.unicode_len();
    let al = at.as_str().unicode_len();
    if tl >= URL_LIMIT || al >= URL_LIMIT || tl + 2 + al >= URL_LIMIT {
        return Err(LinkError::TooLong);
    }
    match parse_with_query_pair(target, "at", at.as_str()) {
        Ok(t) => Ok(t),
        Err(_) => Err(LinkError::InvalidUrl),
    }
}

/// `url` with its fragment set to the line number `n`.
fn line_fragment(url: &str, n: u32) -> (r: Result<String, LinkError>)
    ensures
        result_view(r) == with_line_fragment(url@, n),
        r matches Ok(t) ==> has_suffix(t@, line_suffix(n)),
{
    proof {
        lemma_decimal_digits(n as nat);
    }
    let digits = decimal_string(n);
    let ul = url.unicode_len();
    let dl = digits.as_str().unicode_len();
    if ul >= URL_LIMIT || dl >= URL_LIMIT || ul + dl >= URL_LIMIT {
        return Err(LinkError::TooLong);
    }
    match parse_with_fragment(url, digits.as_str()) {
        Ok(t) => Ok(t),
        Err(_) => Err(LinkError::InvalidUrl),
    }
}

/// The file's path from the repository root, as `github_file_path` states.
fn file_path_from_root(st: &GrowseState) -> (r: Result<String, LinkError>)
    ensures
        result_view(r) == github_file_path(st@),
{
    let p = match &st.path {
        Some(p) => p,
        None => return Err(LinkError::MissingField(Field::Path)),
    };
    if st.current_dir == st.repo_dir {
        return Ok(p.clone());
    }
    let mut root = st.repo_dir.clone();
    proof {
        reveal_strlit("/");
    }
    root.append("/");
    match strip_prefix_str(st.current_dir.as_str(), root.as_str()) {
        Some(offset) => {
            let mut r = String::from_str(offset);
            r.append("/");
            r.append(p.as_str());
            Ok(r)
        },
        None => Err(LinkError::OutsideRepository),
    }
}

/// GitHub's link for `op`, as `github_link` states.
fn github_url(op: Operation, d: &RemoteDescriptor, st: &GrowseState) -> (r: Result<String, LinkError>)
    ensures
        result_view(r) == github_link(op, d@, st@),
{
    let host = match &d.host {
        Some(h) => h,
        None => return Err(LinkError::MissingField(Field::Host)),
    };
    let mut url = String::from_str("https://");
    url.append(host.as_str());
    url.append("/");
    url.append(d.fullname.as_str());
    match op {
        Operation::Base => Ok(url),
        Operation::WithBranch => {
            url.append("/tree/");
            url.append(st.branch.as_str());
            Ok(url)
        },
        _ => {
            let path = match file_path_from_root(st) {
                Ok(p) => p,
                Err(e) => return Err(e),
            };
            url.append("/blob/");
            url.append(st.branch.as_str());
            url.append("/");
            url.append(path.as_str());
            if op == Operation::WithPath || op == Operation::WithPathAndBranch {
                Ok(url)
            } else {
                match st.line_number {
                    None => Err(LinkError::MissingField(Field::LineNumber)),
                    Some(n) => {
                        url.append("#L");
                        let digits = decimal_string(n);
                        url.append(digits.as_str());
                        Ok(url)
                    },
                }
            }
        },
    }
}

/// GitLab's link for `op`, as `gitlab_link` states.
fn gitlab_url(op: Operation, d: &RemoteDescriptor, st: &GrowseState) -> (r: Result<String, LinkError>)
    ensures
        result_view(r) == gitlab_link(op, d@, st@),
        op == Operation::WithBranch && gitlab_parts_plain(d@, st@) ==> (r matches Ok(t)
            ==> has_suffix(t@, encoded_ref_query(st.branch@))),
{
    proof {
        reveal_strlit("https://");
        reveal_strlit("/");
        reveal_strlit("/-/tree/");
    }
    if op != Operation::Base && op != Operation::WithBranch {
        return Err(LinkError::NotImplemented);
    }
    let host = match &d.host {
        Some(h) => h,
        None => return Err(LinkError::MissingField(Field::Host)),
    };
    let owner = match &d.owner {
        Some(o) => o,
        None => return Err(LinkError::MissingField(Field::Owner)),
    };
    let segment = first_path_segment(d.path.as_str());
    let mut url = String::from_str("https://");
    url.append(host.as_str());
    url.append("/");
    url.append(segment);
    url.append("/");
    url.append(owner.as_str());
    url.append("/");
    url.append(d.name.as_str());
    if op == Operation::Base {
        Ok(url)
    } else {
        url.append("/-/tree/");
        url.append(st.branch.as_str());
        proof {
            lemma_no_query_or_fragment_concat("https://"@, host@);
            lemma_no_query_or_fragment_concat("https://"@ + host@, "/"@);
            lemma_no_query_or_fragment_concat("https://"@ + host@ + "/"@, segment@);
            lemma_no_query_or_fragment_concat("https://"@ + host@ + "/"@ + segment@, "/"@);
            lemma_no_query_or_fragment_concat("https://"@ + host@ + "/"@ + segment@ + "/"@, owner@);
            lemma_no_query_or_fragment_concat(
                "https://"@ + host@ + "/"@ + segment@ + "/"@ + owner@,
                "/"@,
            );
            lemma_no_query_or_fragment_concat(
                "https://"@ + host@ + "/"@ + segment@ + "/"@ + owner@ + "/"@,
                d.name@,
            );
            lemma_no_query_or_fragment_concat(
                "https://"@ + host@ + "/"@ + segment@ + "/"@ + owner@ + "/"@ + d.name@,
                "/-/tree/"@,
            );
            lemma_no_query_or_fragment_concat(
                "https://"@ + host@ + "/"@ + segment@ + "/"@ + owner@ + "/"@ + d.name@ + "/-/tree/"@,
                st.branch@,
            );
        }
        branch_query(url.as_str(), st.branch.as_str())
    }
}

/// BitBucket's link to the file whose plain address is `file`, as
/// `bitbucket_file_link` states.
fn bitbucket_file_url(op: Operation, file: String, st: &GrowseState) -> (r: Result<String, LinkError>)
    ensures
        result_view(r) == bitbucket_file_link(op, file@, st@),
        op == Operation::WithPathAndBranch && no_query_or_fragment(file@) ==> (r matches Ok(t)
            ==> has_suffix(t@, encoded_ref_query(st.branch@))),
        r matches Ok(t) ==> (with_line(op) && st.line_number is Some ==> has_suffix(
            t@,
            line_suffix(st.line_number->0),
        )),
{
    if op == Operation::WithPath {
        return Ok(file);
    }
    if op == Operation::WithPathAndBranch {
        return branch_query(file.as_str(), st.branch.as_str());
    }
    let n = match st.line_number {
        Some(n) => n,
        None => return Err(LinkError::MissingField(Field::LineNumber)),
    };
    if op == Operation::WithPathAndLineNumber {
        line_fragment(file.as_str(), n)
    } else {
        match branch_query(file.as_str(), st.branch.as_str()) {
            Ok(t) => line_fragment(t.as_str(), n),
            Err(e) => Err(e),
        }
    }
}

/// BitBucket's link for `op`, as `bitbucket_link` states.
fn bitbucket_url(op: Operation, d: &RemoteDescriptor, st: &GrowseState) -> (r: Result<String, LinkError>)
    ensures
        result_view(r) == bitbucket_link(op, d@, st@),
        branch_without_line(op) && bitbucket_parts_plain(op, d@, st@) ==> (r matches Ok(t)
            ==> has_suffix(t@, encoded_ref_query(st.branch@))),
        r matches Ok(t) ==> (with_line(op) && st.line_number is Some ==> has_suffix(
            t@,
            line_suffix(st.line_number->0),
        )),
{
    proof {
        reveal_strlit("https://");
        reveal_strlit("/projects/");
        reveal_strlit("/repos/");
        reveal_strlit("/browse");
        reveal_strlit("/browse/");
    }
    let host = match &d.host {
        Some(h) => h,
        None => return Err(LinkError::MissingField(Field::Host)),
    };
    let owner = match &d.owner {
        Some(o) => o,
        None => return Err(LinkError::MissingField(Field::Owner)),
    };
    let mut url = String::from_str("https://");
    url.append(host.as_str());
    proof {
        lemma_no_query_or_fragment_concat("https://"@, host@);
    }
    url.append("/projects/");
    proof {
        lemma_no_query_or_fragment_concat(url@, "/projects/"@);
    }
    let ghost u1 = url@;
    url.append(owner.as_str());
    proof {
        lemma_no_query_or_fragment_concat(u1, owner@);
    }
    let ghost u2 = url@;
    url.append("/repos/");
    proof {
        lemma_no_query_or_fragment_concat(u2, "/repos/"@);
    }
    let ghost u3 = url@;
    url.append(d.name.as_str());
    proof {
        lemma_no_query_or_fragment_concat(u3, d.name@);
    }
    if op == Operation::Base {
        return Ok(url);
    }
    if op == Operation::WithBranch {
        let ghost u4 = url@;
        url.append("/browse");
        proof {
            lemma_no_query_or_fragment_concat(u4, "/browse"@);
        }
        return branch_query(url.as_str(), st.branch.as_str());
    }
    let path = match &st.path {
        Some(p) => p,
        None => return Err(LinkError::MissingField(Field::Path)),
    };
    let ghost u5 = url@;
    url.append("/browse/");
    proof {
        lemma_no_query_or_fragment_concat(u5, "/browse/"@);
    }
    let ghost u6 = url@;
    url.append(path.as_str());
    proof {
        lemma_no_query_or_fragment_concat(u6, path@);
    }
    bitbucket_file_url(op, url, st)
}

/// The link that provider `p` gives for `op`, as `link_of` states.
pub fn provider_link(p: Provider, op: Operation, d: &RemoteDescriptor, st: &GrowseState) -> (r: Result<String, LinkError>)
    ensures
        result_view(r) == link_of(p, op, d@, st@),
        ends_in_branch_query(p, op, d@, st@) ==> (r matches Ok(t) ==> has_suffix(
            t@,
            encoded_ref_query(st.branch@),
        )),
        r matches Ok(t) ==> (p == Provider::BitBucket && with_line(op) && st.line_number is Some
            ==> has_suffix(t@, line_suffix(st.line_number->0))),
{
    match p {
        Provider::GitHub => github_url(op, d, st),
        Provider::GitLab => gitlab_url(op, d, st),
        Provider::BitBucket => bitbucket_url(op, d, st),
    }
}

/// A remote, its provider, the settings and the request: all that a link is built from.
#[derive(Debug, Clone)]
pub struct RepoLink {
    pub provider: Provider,
    pub url: RemoteDescriptor,
    pub config: GrowseConfig,
    pub state: GrowseState,
}

impl RepoLink {
    /// Whether the provider claims the remote.
    pub fn is_host(&self) -> (r: bool)
        ensures
            r == claims(self.provider, self.url@),
    {
        self.provider.is_host(&self.url)
    }

    /// The provider's link for `op`, as `link_of` states.
    pub fn build(&self, op: Operation) -> (r: Result<String, LinkError>)
        ensures
            result_view(r) == link_of(self.provider, op, self.url@, self.state@),
            ends_in_branch_query(self.provider, op, self.url@, self.state@) ==> (r matches Ok(t)
                ==> has_suffix(t@, encoded_ref_query(self.state.branch@))),
            r matches Ok(t) ==> (self.provider == Provider::BitBucket && with_line(op)
                && self.state.line_number is Some ==> has_suffix(
                t@,
                line_suffix(self.state.line_number->0),
            )),
    {
        provider_link(self.provider, op, &self.url, &self.state)
    }

    /// The repository's own page.
    pub fn to_repo_url(&self) -> (r: Result<String, LinkError>)
        ensures
            result_view(r) == link_of(self.provider, Operation::Base, self.url@, self.state@),
    {
        self.build(Operation::Base)
    }

    /// The page of the state's branch. On BitBucket and GitLab the branch travels as the
    /// query `at=refs%2Fheads%2F<branch>`, form-urlencoded.
    pub fn to_repo_url_with_branch(&self) -> (r: Result<String, LinkError>)
        ensures
            result_view(r) == link_of(self.provider, Operation::WithBranch, self.url@, self.state@),
            ends_in_branch_query(self.provider, Operation::WithBranch, self.url@, self.state@) ==> (r
                matches Ok(t) ==> has_suffix(t@, encoded_ref_query(self.state.branch@))),
    {
        self.build(Operation::WithBranch)
    }

    /// The page of the requested file.
    pub fn to_repo_url_with_path(&self) -> (r: Result<String, LinkError>)
        ensures
            result_view(r) == link_of(self.provider, Operation::WithPath, self.url@, self.state@),
    {
        self.build(Operation::WithPath)
    }

    /// The page of the requested file on the state's branch. On BitBucket the branch
    /// travels as the query `at=refs%2Fheads%2F<branch>`, form-urlencoded.
    pub fn to_repo_url_with_path_and_branch(&self) -> (r: Result<String, LinkError>)
        ensures
            result_view(r) == link_of(
                self.provider,
                Operation::WithPathAndBranch,
                self.url@,
                self.state@,
            ),
            ends_in_branch_query(self.provider, Operation::WithPathAndBranch, self.url@, self.state@)
                ==> (r matches Ok(t) ==> has_suffix(t@, encoded_ref_query(self.state.branch@))),
    {
        self.build(Operation::WithPathAndBranch)
    }

    /// The requested line of the requested file. On BitBucket the link ends in the
    /// fragment `#<line>`.
    pub fn to_repo_url_with_path_and_line_number(&self) -> (r: Result<String, LinkError>)
        ensures
            result_view(r) == link_of(
                self.provider,
                Operation::WithPathAndLineNumber,
                self.url@,
                self.state@,
            ),
            r matches Ok(t) ==> (self.provider == Provider::BitBucket
                && self.state.line_number is Some ==> has_suffix(
                t@,
                line_suffix(self.state.line_number->0),
            )),
    {
        self.build(Operation::WithPathAndLineNumber)
    }

    /// The requested line of the requested file on the state's branch. On BitBucket the
    /// link ends in the fragment `#<line>`.
    pub fn to_repo_url_with_path_and_branch_and_line_number(&self) -> (r: Result<String, LinkError>)
        ensures
            result_view(r) == link_of(
                self.provider,
                Operation::WithPathAndBranchAndLineNumber,
                self.url@,
                self.state@,
            ),
            r matches Ok(t) ==> (self.provider == Provider::BitBucket
                && self.state.line_number is Some ==> has_suffix(
                t@,
                line_suffix(self.state.line_number->0),
            )),
    {
        self.build(Operation::WithPathAndBranchAndLineNumber)
    }

    /// The link that the settings and the request select.
    pub fn to_url(&self) -> (r: Result<String, LinkError>)
        ensures
            result_view(r) == link_of(
                self.provider,
                operation_for(
                    self.config.use_branch,
                    self.state.path is Some,
                    self.state.line_number is Some,
                ),
                self.url@,
                self.state@,
            ),
    {
        let op = select_operation(
            self.config.use_branch,
            self.state.path.is_some(),
            self.state.line_number.is_some(),
        );
        self.build(op)
    }
}

} // verus!
