use vstd::prelude::*;

verus! {

/// What a request presents in its API key header.
#[derive(Clone, Copy, Debug, PartialEq, Eq, Structural)]
pub enum ApiKeyStatus {
    /// No key header.
    Missing,
    /// A key that is not the expected one.
    Invalid,
    /// The expected key.
    Valid,
}

/// Whether the API key middleware passes a request on to its handler: a
/// middleware that only logs passes every request, one that guards a route
/// passes only requests with the valid key; the others get 401.
pub fn forwards_request(status: ApiKeyStatus, log_only: bool) -> (r: bool)
    ensures
        r == (log_only || status == ApiKeyStatus::Valid),
{
    log_only || status == ApiKeyStatus::Valid
}

} // verus!
