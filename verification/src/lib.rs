//! A local trigger endpoint: an authorization check and path-resolution
//! pipeline that turns an untrusted URL path into a trusted absolute
//! filesystem path, or rejects the request.

use vstd::prelude::*;

mod pattern;
mod security;
mod server;
mod system;
mod text;

pub use pattern::CompiledPattern;
pub use pattern::regex_match;
pub use pattern::regex_ok;
pub use security::SecurityConfig;
pub use security::all_patterns_ok;
pub use security::any_matches;
pub use security::lemma_blacklisted_path_rejected;
pub use security::lemma_non_loopback_rejected;
pub use security::lemma_unlisted_path_allowed;
pub use security::lemma_whitelist_overrides_blacklist;
pub use security::string_views;
pub use server::HttpResponse;
pub use server::ResponseModel;
pub use server::ServerConfig;
pub use server::response_model;
pub use system::HostEvent;
pub use system::RunError;
pub use system::RunState;
pub use system::SystemConfig;
pub use system::advance_rel;
pub use system::display_form;
pub use system::display_path;
pub use system::expects;
pub use system::home_token;
pub use system::join_under;
pub use system::joined;
pub use system::lemma_advance_deterministic;
pub use system::path_within_base;
pub use system::stripped;
pub use system::substituted;
pub use system::verbatim_token;
pub use system::within_base;
pub use text::match_at;
pub use text::replaced;
pub use text::starts_with;
pub use text::str_match_at;
pub use text::str_replace;

verus! {

/// The whole configuration of the endpoint: the security policy, the
/// listener's binding, and the base-path template. Loaded once at
/// startup and immutable afterwards.
pub struct Linker {
    pub security: SecurityConfig,
    pub server: ServerConfig,
    pub system: SystemConfig,
}

impl Linker {
    /// The security decision for one request.
    pub fn allow_request(&self, remote_is_loopback: bool, url: &str) -> (r: bool)
        ensures
            r == self.security.allows(remote_is_loopback, url@),
    {
        self.security.allow_request(remote_is_loopback, url)
    }
}

impl Default for Linker {
    /// The compiled-in configuration, used whenever no configuration
    /// file could be loaded.
    fn default() -> (r: Self)
        ensures
            r.security.is_default_policy(),
            r.server.is_default_binding(),
            r.system.is_default_template(),
    {
        Linker {
            security: SecurityConfig::default(),
            server: ServerConfig::default(),
            system: SystemConfig::default(),
        }
    }
}

} // verus!
