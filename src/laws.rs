//! Properties that hold across the library's functions.

use vstd::prelude::*;
use crate::config::GrowseConfig;
use crate::link::resolve;
use crate::provider::{classify, Provider, BITBUCKET_SSH_PORT};
use crate::remote::RemoteView;
use crate::state::StateView;
use crate::text::{first_segment, has_infix};

verus! {

/// The host names one of the providers outright.
pub open spec fn host_names_provider(d: RemoteView) -> bool {
    d.host matches Some(h) && (has_infix(h, "github"@) || has_infix(h, "gitlab"@) || has_infix(
        h,
        "bitbucket"@,
    ))
}

/// Two split remotes reach the same repository: they agree on host, owner, name, full
/// name and the first segment of the path, and on the port unless the host names a
/// provider. Whether two spellings of a remote split so is up to the remote parser; the
/// first path segment, for one, takes a trailing `.git` along where the path has a
/// single segment.
pub open spec fn same_repository(d1: RemoteView, d2: RemoteView) -> bool {
    &&& d1.host == d2.host
    &&& d1.owner == d2.owner
    &&& d1.name == d2.name
    &&& d1.fullname == d2.fullname
    &&& first_segment(d1.path) == first_segment(d2.path)
    &&& (d1.port == d2.port || host_names_provider(d1))
}

/// Split remotes that reach the same repository get the same link, for every request
/// and every setting: the scheme, the rest of the path and the SSH port of a host that
/// names its provider play no part in it.
pub proof fn lemma_link_ignores_scheme_and_suffix(
    d1: RemoteView,
    d2: RemoteView,
    st: StateView,
    cfg: GrowseConfig,
)
    requires
        same_repository(d1, d2),
    ensures
        classify(d1) == classify(d2),
        resolve(d1, st, cfg) == resolve(d2, st, cfg),
{
}

/// A remote on the BitBucket Server SSH port belongs to BitBucket, whatever its host is
/// called, as long as the host does not name GitHub or GitLab.
pub proof fn lemma_bitbucket_ssh_port(d: RemoteView)
    requires
        d.host matches Some(h) && !has_infix(h, "github"@) && !has_infix(h, "gitlab"@),
        d.port == Some(BITBUCKET_SSH_PORT),
    ensures
        classify(d) == Ok::<Provider, crate::error::LinkError>(Provider::BitBucket),
{
}

} // verus!
