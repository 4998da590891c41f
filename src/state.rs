//! The request context: what is asked of the link beyond the repository itself.

use vstd::prelude::*;
use vstd::string::*;
use crate::error::LinkError;
use crate::remote::opt_view;
use crate::text::{chars_of, digits_value, is_digit, parse_digits};

verus! {

/// What the link is to show: a file (relative to the directory the tool runs in), a
/// line of it, the branch to show it on, the directory the tool runs in and the root of
/// the repository's working tree. A line number comes only with a file.
#[derive(Debug, Clone)]
pub struct GrowseState {
    pub path: Option<String>,
    pub line_number: Option<u32>,
    pub branch: String,
    pub current_dir: String,
    pub repo_dir: String,
}

/// The mathematical value of a `GrowseState`.
pub struct StateView {
    pub path: Option<Seq<char>>,
    pub line_number: Option<u32>,
    pub branch: Seq<char>,
    pub current_dir: Seq<char>,
    pub repo_dir: Seq<char>,
}

impl View for GrowseState {
    type V = StateView;

    open spec fn view(&self) -> StateView {
        StateView {
            path: opt_view(self.path),
            line_number: self.line_number,
            branch: self.branch@,
            current_dir: self.current_dir@,
            repo_dir: self.repo_dir@,
        }
    }
}

/// `s` ends in `:` at `k` followed by one or more ASCII digits: a line number.
pub open spec fn line_split_at(s: Seq<char>, k: int) -> bool {
    &&& 0 <= k && k + 1 < s.len()
    &&& s[k] == ':'
    &&& forall|j: int| k < j < s.len() ==> is_digit(#[trigger] s[j])
}

/// What splitting `s` at its line number `k` gives.
pub open spec fn split_at_line(s: Seq<char>, k: int, r: Result<(String, Option<u32>), LinkError>) -> bool {
    let digits = s.subrange(k + 1, s.len() as int);
    match r {
        Ok((p, Some(n))) => p@ == s.subrange(0, k) && n as nat == digits_value(digits),
        Err(e) => e == LinkError::LineNumberOutOfRange && digits_value(digits) > u32::MAX,
        _ => false,
    }
}

/// Splits a command-line file argument into the file and its line number: a trailing
/// `:` followed by digits is the line number, and anything else leaves the whole
/// argument as the file. A line number beyond `u32::MAX` is an error.
pub fn split_path_line(arg: &str) -> (r: Result<(String, Option<u32>), LinkError>)
    ensures
        (forall|k: int| !line_split_at(arg@, k)) ==> (r matches Ok((p, None)) && p@ == arg@),
        forall|k: int| line_split_at(arg@, k) ==> split_at_line(arg@, k, r),
{
    let c = chars_of(arg);
    let n = c.len();
    let mut i: usize = n;
    while i > 0 && '0' <= c[i - 1] && c[i - 1] <= '9'
        invariant
            c@ == arg@,
            n == arg@.len(),
            i <= n,
            forall|j: int| i <= j < n ==> is_digit(#[trigger] arg@[j]),
        decreases i,
    {
        i = i - 1;
    }
    if i < n && i > 0 && c[i - 1] == ':' {
        let k = i - 1;
        assert(line_split_at(arg@, k as int));
        assert forall|j: int| line_split_at(arg@, j) implies j == k by {
            if j < k {
                assert(is_digit(arg@[k as int]));
            } else if j > k {
                assert(is_digit(arg@[j]));
            }
        }
        let path = String::from_str(arg.substring_char(0, k));
        let digits = arg.substring_char(i, n);
        match parse_digits(digits) {
            Some(v) => Ok((path, Some(v))),
            None => Err(LinkError::LineNumberOutOfRange),
        }
    } else {
        assert forall|k: int| !line_split_at(arg@, k) by {
            if line_split_at(arg@, k) {
                if k + 1 < i {
                    assert(is_digit(arg@[i - 1]));
                } else if k + 1 > i {
                    assert(is_digit(arg@[k]));
                }
            }
        }
        Ok((String::from_str(arg), None))
    }
}

} // verus!
