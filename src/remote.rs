//! A git remote split into the parts that the link builders read, and the call that
//! splits it.

use vstd::prelude::*;
use vstd::string::*;
use crate::text::chars_of;

verus! {

/// A remote, split into its parts: the host, the port where one is written, the owner,
/// the repository's name, its full name (`owner/name`) and the path of the remote URL.
#[derive(Debug, Clone)]
pub struct RemoteDescriptor {
    pub host: Option<String>,
    pub port: Option<u16>,
    pub owner: Option<String>,
    pub name: String,
    pub fullname: String,
    pub path: String,
}

/// The mathematical value of a `RemoteDescriptor`.
pub struct RemoteView {
    pub host: Option<Seq<char>>,
    pub port: Option<u16>,
    pub owner: Option<Seq<char>>,
    pub name: Seq<char>,
    pub fullname: Seq<char>,
    pub path: Seq<char>,
}

/// The view of an optional string.
pub open spec fn opt_view(o: Option<String>) -> Option<Seq<char>> {
    match o {
        Some(s) => Some(s@),
        None => None,
    }
}

impl View for RemoteDescriptor {
    type V = RemoteView;

    open spec fn view(&self) -> RemoteView {
        RemoteView {
            host: opt_view(self.host),
            port: self.port,
            owner: opt_view(self.owner),
            name: self.name@,
            fullname: self.fullname@,
            path: self.path@,
        }
    }
}

/// `c` matches the lower-case character `w` in either case.
pub open spec fn ci_char(c: char, w: char) -> bool {
    c == w || ('a' <= w <= 'z' && c as u32 == (w as u32) - 32)
}

/// The word `w` (written in lower case) stands in `s` at `i`, in any case.
pub open spec fn ci_occurs_at(s: Seq<char>, w: Seq<char>, i: int) -> bool {
    &&& 0 <= i && i + w.len() <= s.len()
    &&& forall|j: int| 0 <= j < w.len() ==> ci_char(#[trigger] s[i + j], w[j])
}

/// Whether the word `w` stands in `c` at `i`, in any case.
fn ci_matches_at(c: &Vec<char>, w: &Vec<char>, i: usize) -> (r: bool)
    requires
        i + w@.len() <= c@.len(),
    ensures
        r == ci_occurs_at(c@, w@, i as int),
{
    let n = c.len();
    let mut j: usize = 0;
    while j < w.len()
        invariant
            n == c@.len(),
            i + w@.len() <= n,
            j <= w@.len(),
            forall|k: int| 0 <= k < j ==> ci_char(#[trigger] c@[i + k], w@[k]),
        decreases w@.len() - j,
    {
        let x = c[i + j];
        let y = w[j];
        if !(x == y || ('a' <= y && y <= 'z' && x as u32 == (y as u32) - 32)) {
            assert(!ci_char(c@[i + j], w@[j as int]));
            return false;
        }
        j = j + 1;
    }
    true
}

/// One dot of a dot segment starts at `i`: `.` (`w == 1`) or `%2e` in either case
/// (`w == 3`).
pub open spec fn dot_unit(s: Seq<char>, i: int, w: int) -> bool {
    ||| w == 1 && 0 <= i < s.len() && s[i] == '.'
    ||| w == 3 && 0 <= i && i + 3 <= s.len() && s[i] == '%' && s[i + 1] == '2' && (s[i + 2] == 'e'
        || s[i + 2] == 'E')
}

/// From `j` on, the path holds no further segment: nothing but `/` and `:` up to the
/// end or to a query or fragment. A `:` counts as a separator, since the colon of an
/// SCP-like remote becomes a `/`.
pub open spec fn path_rest_empty(s: Seq<char>, j: int) -> bool
    decreases s.len() - j,
{
    if 0 <= j < s.len() {
        if s[j] == '?' || s[j] == '#' {
            true
        } else if s[j] == '/' || s[j] == ':' {
            path_rest_empty(s, j + 1)
        } else {
            false
        }
    } else {
        j == s.len()
    }
}

/// A dot of width `w` starts at `i`, and one more dot may follow, after which the path
/// holds no further segment.
pub open spec fn dots_from(s: Seq<char>, i: int, w: int) -> bool {
    &&& dot_unit(s, i, w)
    &&& {
        ||| path_rest_empty(s, i + w)
        ||| dot_unit(s, i + w, 1) && path_rest_empty(s, i + w + 1)
        ||| dot_unit(s, i + w, 3) && path_rest_empty(s, i + w + 3)
    }
}

/// The last segment of the path, a `.` or `..` (the dots plain or percent-encoded),
/// starts at `i`. Only such a segment can leave nothing of the path but `/`: an earlier
/// one is followed by a named segment that stays.
pub open spec fn final_dot_segment_at(s: Seq<char>, i: int) -> bool {
    dots_from(s, i, 1) || dots_from(s, i, 3)
}

/// A query or fragment starts at `i`.
pub open spec fn query_at(s: Seq<char>, i: int) -> bool {
    0 <= i < s.len() && (s[i] == '?' || s[i] == '#')
}

/// `s` names the scheme `ssh:` with something other than `/` after it: an opaque path.
pub open spec fn opaque_ssh(s: Seq<char>) -> bool {
    ci_occurs_at(s, "ssh:"@, 0) && (s.len() == "ssh:"@.len() || s["ssh:"@.len() as int] != '/')
}

/// The first index at or after `i` that holds neither `/` nor `\`.
pub open spec fn skip_separators(s: Seq<char>, i: int) -> int
    decreases s.len() - i,
{
    if 0 <= i < s.len() && (s[i] == '/' || s[i] == '\\') {
        skip_separators(s, i + 1)
    } else {
        i
    }
}

/// The first index at or after `i` that ends a host: the end, `/`, `\`, `?` or `#`.
pub open spec fn host_end(s: Seq<char>, i: int) -> int
    decreases s.len() - i,
{
    if 0 <= i < s.len() && !(s[i] == '/' || s[i] == '\\' || s[i] == '?' || s[i] == '#') {
        host_end(s, i + 1)
    } else {
        i
    }
}

/// A character that a URL host keeps as written, up to case: ASCII and not `%`.
pub open spec fn host_char_plain(c: char) -> bool {
    (c as u32) < 0x80 && c != '%'
}

/// Where `s` is an `https:` URL, its host (with any user info before it) holds only
/// `host_char_plain` characters, so it cannot decode or map to another name.
pub open spec fn https_host_plain(s: Seq<char>) -> bool {
    ci_occurs_at(s, "https:"@, 0) ==> {
        let a = skip_separators(s, "https:"@.len() as int);
        forall|k: int| a <= k < host_end(s, a) ==> host_char_plain(#[trigger] s[k])
    }
}

/// A remote that the parser takes without fault. The parser indexes past the end of
/// its path split where the URL reader leaves an SSH path of one character: an opaque
/// `ssh:` path, or `/` after a final `.` or `..` segment is removed or before a query. It does
/// the same for short paths on the Azure DevOps hosts, which are refused in any case
/// and wherever the host could decode to them. Blanks at the ends and tabs or line
/// breaks, which the URL reader drops, are refused too, so that these checks see what
/// the reader sees.
pub open spec fn plain_remote(s: Seq<char>) -> bool {
    &&& forall|k: int| 0 <= k < s.len() ==> #[trigger] s[k] != '\t' && s[k] != '\n' && s[k] != '\r'
    &&& s.len() > 0 ==> s[0] > ' ' && s[s.len() - 1] > ' '
    &&& forall|k: int|
        0 <= k < s.len() && (s[k] == '/' || s[k] == ':') ==> !final_dot_segment_at(s, #[trigger] (k
            + 1)) && !query_at(s, k + 1)
    &&& !opaque_ssh(s)
    &&& https_host_plain(s)
    &&& forall|k: int| !#[trigger] ci_occurs_at(s, "dev.azure.com"@, k)
}

/// Whether a dot of width `w` starts at `i`.
fn is_dot_unit(c: &Vec<char>, i: usize, w: usize) -> (r: bool)
    requires
        i <= c@.len(),
        w == 1 || w == 3,
    ensures
        r == dot_unit(c@, i as int, w as int),
{
    let n = c.len();
    if w == 1 {
        i < n && c[i] == '.'
    } else {
        n - i >= 3 && c[i] == '%' && c[i + 1] == '2' && (c[i + 2] == 'e' || c[i + 2] == 'E')
    }
}

/// Whether the path holds no further segment from `j` on.
fn is_path_rest_empty(c: &Vec<char>, j: usize) -> (r: bool)
    requires
        j <= c@.len(),
    ensures
        r == path_rest_empty(c@, j as int),
{
    let n = c.len();
    let mut k: usize = j;
    while k < n && (c[k] == '/' || c[k] == ':')
        invariant
            n == c@.len(),
            j <= k <= n,
            path_rest_empty(c@, k as int) == path_rest_empty(c@, j as int),
        decreases n - k,
    {
        k = k + 1;
    }
    k == n || c[k] == '?' || c[k] == '#'
}

/// Whether `dots_from(c, i, w)` holds.
fn is_dots_from(c: &Vec<char>, i: usize, w: usize) -> (r: bool)
    requires
        i <= c@.len(),
        w == 1 || w == 3,
    ensures
        r == dots_from(c@, i as int, w as int),
{
    let n = c.len();
    if !is_dot_unit(c, i, w) {
        return false;
    }
    assert(i + w <= n);
    let j = i + w;
    if is_path_rest_empty(c, j) {
        return true;
    }
    (is_dot_unit(c, j, 1) && is_path_rest_empty(c, j + 1)) || (is_dot_unit(c, j, 3) && is_path_rest_empty(
        c,
        j + 3,
    ))
}

/// Whether the host of an `https:` URL in `c`, starting the search at `start`, holds
/// only `host_char_plain` characters.
fn host_is_plain(c: &Vec<char>, start: usize) -> (r: bool)
    requires
        start <= c@.len(),
    ensures
        r == (forall|k: int|
            skip_separators(c@, start as int) <= k < host_end(c@, skip_separators(c@, start as int))
                ==> host_char_plain(#[trigger] c@[k])),
{
    let n = c.len();
    let mut a: usize = start;
    while a < n && (c[a] == '/' || c[a] == '\\')
        invariant
            n == c@.len(),
            start <= a <= n,
            skip_separators(c@, a as int) == skip_separators(c@, start as int),
        decreases n - a,
    {
        a = a + 1;
    }
    let mut b: usize = a;
    while b < n && !(c[b] == '/' || c[b] == '\\' || c[b] == '?' || c[b] == '#')
        invariant
            n == c@.len(),
            a <= b <= n,
            a == skip_separators(c@, start as int),
            host_end(c@, b as int) == host_end(c@, a as int),
        decreases n - b,
    {
        b = b + 1;
    }
    let mut k: usize = a;
    while k < b
        invariant
            n == c@.len(),
            a <= k <= b <= n,
            a == skip_separators(c@, start as int),
            b == host_end(c@, a as int),
            forall|j: int| a <= j < k ==> host_char_plain(#[trigger] c@[j]),
        decreases b - k,
    {
        if !((c[k] as u32) < 0x80 && c[k] != '%') {
            return false;
        }
        k = k + 1;
    }
    true
}

/// Whether `s` is a `plain_remote`.
pub fn is_plain_remote(s: &str) -> (r: bool)
    ensures
        r == plain_remote(s@),
{
    let c = chars_of(s);
    let n = c.len();
    if n > 0 && (c[0] <= ' ' || c[n - 1] <= ' ') {
        return false;
    }
    let ssh = chars_of("ssh:");
    if ssh.len() <= n && ci_matches_at(&c, &ssh, 0) && (n == ssh.len() || c[ssh.len()] != '/') {
        return false;
    }
    let https = chars_of("https:");
    if https.len() <= n && ci_matches_at(&c, &https, 0) && !host_is_plain(&c, https.len()) {
        return false;
    }
    let azure = chars_of("dev.azure.com");
    proof {
        reveal_strlit("dev.azure.com");
    }
    let mut i: usize = 0;
    while i < n
        invariant
            c@ == s@,
            n == s@.len(),
            azure@ == "dev.azure.com"@,
            azure@.len() == 13,
            i <= n,
            forall|k: int| 0 <= k < i ==> #[trigger] s@[k] != '\t' && s@[k] != '\n' && s@[k] != '\r',
            forall|k: int|
                0 <= k < i && (s@[k] == '/' || s@[k] == ':') ==> !final_dot_segment_at(
                    s@,
                    #[trigger] (k + 1),
                ) && !query_at(s@, k + 1),
            forall|k: int| 0 <= k < i ==> !#[trigger] ci_occurs_at(s@, "dev.azure.com"@, k),
        decreases n - i,
    {
        let ch = c[i];
        if ch == '\t' || ch == '\n' || ch == '\r' {
            return false;
        }
        if ch == '/' || ch == ':' {
            if is_dots_from(&c, i + 1, 1) || is_dots_from(&c, i + 1, 3) {
                return false;
            }
            if i + 1 < n && (c[i + 1] == '?' || c[i + 1] == '#') {
                return false;
            }
        }
        if azure.len() <= n - i && ci_matches_at(&c, &azure, i) {
            return false;
        }
        i = i + 1;
    }
    assert forall|k: int| !#[trigger] ci_occurs_at(s@, "dev.azure.com"@, k) by {
        if 0 <= k < n {
        }
    }
    true
}

/// The parts of the remote `s` as the remote parser splits it, or `None` where the
/// parser refuses it.
pub uninterp spec fn parsed_remote(s: Seq<char>) -> Option<RemoteView>;

#[verifier::external_type_specification]
#[verifier::external_body]
pub struct ExGitUrlParseError(git_url_parse::GitUrlParseError);

/// Relies on git_url_parse::GitUrl::parse, which splits a remote URL (SSH, HTTPS, SCP-like
/// or a file path) into host, port, owner, name, full name and path; its outcome depends
/// on the text alone.
#[verifier::external_body]
pub(crate) fn parse_remote(s: &str) -> (r: Result<RemoteDescriptor, git_url_parse::GitUrlParseError>)
    requires
        plain_remote(s@),
    ensures
        r is Ok <==> parsed_remote(s@) is Some,
        r matches Ok(d) ==> parsed_remote(s@) == Some(d@),
{
    match git_url_parse::GitUrl::parse(s) {
        Ok(u) => Ok(RemoteDescriptor {
            host: u.host,
            port: u.port,
            owner: u.owner,
            name: u.name,
            fullname: u.fullname,
            path: u.path,
        }),
        Err(e) => Err(e),
    }
}

} // verus!
