//! From a remote and a request to the one link that the run prints or opens.

use vstd::prelude::*;
use crate::config::GrowseConfig;
use crate::error::{result_view, LinkError};
use crate::provider::{classify, classify_remote, ends_in_branch_query, link_of, operation_for, provider_link, select_operation};
use crate::weburl::{encoded_ref_query, has_suffix};
use crate::remote::{is_plain_remote, parse_remote, parsed_remote, plain_remote, RemoteDescriptor, RemoteView};
use crate::state::{GrowseState, StateView};

verus! {

/// The link for the remote `d`: its provider's link for the operation that the settings
/// and the request select.
pub open spec fn resolve(d: RemoteView, st: StateView, cfg: GrowseConfig) -> Result<Seq<char>, LinkError> {
    match classify(d) {
        Err(e) => Err(e),
        Ok(p) => link_of(p, operation_for(cfg.use_branch, st.path is Some, st.line_number is Some), d, st),
    }
}

/// The link for the remote URL `s`, split by the remote parser.
pub open spec fn remote_link(s: Seq<char>, st: StateView, cfg: GrowseConfig) -> Result<Seq<char>, LinkError> {
    if !plain_remote(s) {
        Err(LinkError::UnsupportedRemote)
    } else {
        match parsed_remote(s) {
            None => Err(LinkError::UnparsableRemote),
            Some(d) => resolve(d, st, cfg),
        }
    }
}

/// The link for a remote already split into its parts, as `resolve` states.
pub fn descriptor_to_repo_url(url: &RemoteDescriptor, state: &GrowseState, config: &GrowseConfig) -> (r: Result<String, LinkError>)
    ensures
        result_view(r) == resolve(url@, state@, *config),
        classify(url@) matches Ok(p) && ends_in_branch_query(
            p,
            operation_for(config.use_branch, state.path is Some, state.line_number is Some),
            url@,
            state@,
        ) ==> (r matches Ok(t) ==> has_suffix(t@, encoded_ref_query(state.branch@))),
{
    let provider = match classify_remote(url) {
        Ok(p) => p,
        Err(e) => return Err(e),
    };
    let op = select_operation(config.use_branch, state.path.is_some(), state.line_number.is_some());
    provider_link(provider, op, url, state)
}

/// The link for the remote URL `url` (SSH, HTTPS or SCP-like, with or without `.git`),
/// as `remote_link` states.
pub fn remote_url_to_repo_url(url: &str, state: &GrowseState, config: &GrowseConfig) -> (r: Result<String, LinkError>)
    ensures
        result_view(r) == remote_link(url@, state@, *config),
{
    if !is_plain_remote(url) {
        return Err(LinkError::UnsupportedRemote);
    }
    match parse_remote(url) {
        Ok(d) => descriptor_to_repo_url(&d, state, config),
        Err(_) => Err(LinkError::UnparsableRemote),
    }
}

} // verus!
