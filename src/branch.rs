//! Which remote and which branch a link is built for, where the command line does not
//! say.

use vstd::prelude::*;
use vstd::string::*;
use crate::config::GrowseConfig;
use crate::error::{Field, LinkError};
use crate::remote::opt_view;
use crate::text::{has_prefix, str_eq, strip_prefix_str};

verus! {

/// The prefix of the references that track the branches of `remote`.
pub open spec fn remote_ref_prefix(remote: Seq<char>) -> Seq<char> {
    "refs/remotes/"@ + remote + "/"@
}

/// The branch of `remote` that the resolved reference `r` names, if it names one other
/// than `HEAD`.
pub open spec fn tracked_branch(remote: Seq<char>, r: Seq<char>) -> Option<Seq<char>> {
    let prefix = remote_ref_prefix(remote);
    if has_prefix(r, prefix) && r.skip(prefix.len() as int) != "HEAD"@ {
        Some(r.skip(prefix.len() as int))
    } else {
        None
    }
}

/// The short name of the branch reference `b`: without `refs/heads/` where it begins so.
pub open spec fn short_branch_name(b: Seq<char>) -> Seq<char> {
    if has_prefix(b, "refs/heads/"@) {
        b.skip("refs/heads/"@.len() as int)
    } else {
        b
    }
}

/// The default branch: the short name of the one the remote advertises; else the branch that the
/// remote's `HEAD` reference resolves to, unless that is `HEAD` itself; else `master`.
pub open spec fn default_branch_of(
    remote: Seq<char>,
    advertised: Option<Seq<char>>,
    resolved: Option<Seq<char>>,
) -> Seq<char> {
    match advertised {
        Some(b) => short_branch_name(b),
        None => match resolved {
            Some(r) => match tracked_branch(remote, r) {
                Some(b) => b,
                None => "master"@,
            },
            None => "master"@,
        },
    }
}

/// The reference `refs/remotes/<remote>/HEAD`, whose target names the remote's default
/// branch.
pub fn remote_head_ref(remote_name: &str) -> (r: String)
    ensures
        r@ == remote_ref_prefix(remote_name@) + "HEAD"@,
{
    let mut r = String::from_str("refs/remotes/");
    r.append(remote_name);
    r.append("/");
    r.append("HEAD");
    r
}

/// The branch to show when none is asked for. `advertised` is the default branch that
/// the remote reports, `resolved` the full name of the reference that the remote's
/// `HEAD` resolves to; either is `None` where it could not be had. This never fails: it
/// falls back to `master`.
pub fn default_branch(remote_name: &str, advertised: Option<String>, resolved: Option<String>) -> (r: String)
    ensures
        r@ == default_branch_of(remote_name@, opt_view(advertised), opt_view(resolved)),
{
    if let Some(b) = advertised {
        return match strip_prefix_str(b.as_str(), "refs/heads/") {
            Some(short) => String::from_str(short),
            None => b,
        };
    }
    if let Some(full) = resolved {
        let mut prefix = String::from_str("refs/remotes/");
        prefix.append(remote_name);
        prefix.append("/");
        if let Some(short) = strip_prefix_str(full.as_str(), prefix.as_str()) {
            if !str_eq(short, "HEAD") {
                return String::from_str(short);
            }
        }
    }
    String::from_str("master")
}

/// The remote to use where none is named: the first of the repository's remotes.
pub fn default_remote(names: &Vec<String>) -> (r: Result<String, LinkError>)
    ensures
        names@.len() > 0 ==> (r matches Ok(n) && n@ == names@[0]@),
        names@.len() == 0 ==> r == Err::<String, LinkError>(LinkError::NoRemotes),
{
    if names.len() > 0 {
        Ok(names[0].clone())
    } else {
        Err(LinkError::NoRemotes)
    }
}

/// The branch a run shows: in branch mode the checked-out one (`current`) or the one
/// named on the command line (`requested`), else the inferred default.
pub open spec fn selected_branch(
    config: GrowseConfig,
    requested: Option<Seq<char>>,
    current: Option<Seq<char>>,
    inferred: Option<Seq<char>>,
) -> Result<Seq<char>, LinkError> {
    let chosen = if config.use_branch {
        if config.current_branch {
            current
        } else {
            requested
        }
    } else {
        inferred
    };
    match chosen {
        Some(b) => Ok(b),
        None => Err(LinkError::MissingField(Field::Branch)),
    }
}

/// The branch a run shows, as `selected_branch` states; the branch it needs being
/// absent is an error.
pub fn select_branch(
    config: &GrowseConfig,
    requested: Option<String>,
    current: Option<String>,
    inferred: Option<String>,
) -> (r: Result<String, LinkError>)
    ensures
        crate::error::result_view(r) == selected_branch(
            *config,
            opt_view(requested),
            opt_view(current),
            opt_view(inferred),
        ),
{
    let chosen = if config.use_branch {
        if config.current_branch {
            current
        } else {
            requested
        }
    } else {
        inferred
    };
    match chosen {
        Some(b) => Ok(b),
        None => Err(LinkError::MissingField(Field::Branch)),
    }
}

} // verus!
