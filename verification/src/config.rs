use vstd::prelude::*;

verus! {

/// Connection settings for the remote wallet service: the REST endpoint,
/// the bearer token used to authenticate every request, and an optional
/// path to a TLS certificate for self-hosted instances with a private CA.
///
/// A `Config` is built once and never changed afterwards.
#[derive(Debug, Clone)]
pub struct Config {
    pub endpoint: String,
    pub token: String,
    pub bitgo_cert_path: Option<String>,
}

impl Config {
    /// A usable configuration names where to connect and how to
    /// authenticate: both the endpoint and the token are non-empty.
    pub open spec fn wf(&self) -> bool {
        self.endpoint@.len() > 0 && self.token@.len() > 0
    }
}

} // verus!
