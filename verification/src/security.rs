//! The request filter: an origin restriction combined with blacklist and
//! whitelist pattern sets. A request passes only if the origin check and
//! the pattern check both pass; a whitelist match overrides a blacklist
//! match, and a path matching neither list is allowed by default.

use vstd::prelude::*;

verus! {

use crate::pattern::CompiledPattern;
use crate::pattern::regex_match;
use crate::pattern::regex_ok;

/// Some pattern in `patterns` matches `text`.
pub open spec fn any_matches(patterns: Seq<Seq<char>>, text: Seq<char>) -> bool {
    exists|i: int| 0 <= i < patterns.len() && regex_match(patterns[i], text)
}

/// Every pattern in `patterns` is a valid regular expression.
pub open spec fn all_patterns_ok(patterns: Seq<Seq<char>>) -> bool {
    forall|i: int| 0 <= i < patterns.len() ==> regex_ok(patterns[i])
}

/// The pattern texts of a list of compiled patterns.
pub open spec fn pattern_texts(list: Seq<CompiledPattern>) -> Seq<Seq<char>> {
    list.map_values(|cp: CompiledPattern| cp@)
}

/// The character views of a list of strings.
pub open spec fn string_views(list: Seq<String>) -> Seq<Seq<char>> {
    list.map_values(|s: String| s@)
}

/// The origin and pattern policy of the endpoint. Every pattern it holds
/// compiled successfully: an invalid pattern is rejected when the
/// configuration is built, never at decision time.
pub struct SecurityConfig {
    force_loopback: bool,
    blacklist: Vec<CompiledPattern>,
    whitelist: Vec<CompiledPattern>,
}

impl SecurityConfig {
    /// Whether only loopback origins are accepted.
    pub closed spec fn spec_force_loopback(&self) -> bool {
        self.force_loopback
    }

    /// The blacklist pattern texts.
    pub closed spec fn spec_blacklist(&self) -> Seq<Seq<char>> {
        pattern_texts(self.blacklist@)
    }

    /// The whitelist pattern texts.
    pub closed spec fn spec_whitelist(&self) -> Seq<Seq<char>> {
        pattern_texts(self.whitelist@)
    }

    /// The origin check: either loopback is not forced, or the remote
    /// address is a loopback address.
    pub open spec fn origin_allows(&self, remote_is_loopback: bool) -> bool {
        self.spec_force_loopback() ==> remote_is_loopback
    }

    /// The pattern check: a path matching a blacklist pattern is rejected
    /// unless it also matches a whitelist pattern.
    pub open spec fn patterns_allow(&self, url: Seq<char>) -> bool {
        any_matches(self.spec_blacklist(), url) ==> any_matches(self.spec_whitelist(), url)
    }

    /// The whole filter: the origin check and the pattern check must both
    /// pass.
    pub open spec fn allows(&self, remote_is_loopback: bool, url: Seq<char>) -> bool {
        self.origin_allows(remote_is_loopback) && self.patterns_allow(url)
    }

    /// The compiled-in policy: loopback only, block the favicon probe,
    /// let anything ending in `.pdf` through.
    pub open spec fn is_default_policy(&self) -> bool {
        &&& self.spec_force_loopback()
        &&& (regex_ok("/favicon\\.ico"@) ==> self.spec_blacklist() == seq!["/favicon\\.ico"@])
        &&& (!regex_ok("/favicon\\.ico"@) ==> self.spec_blacklist() == Seq::<Seq<char>>::empty())
        &&& (regex_ok(".*\\.pdf"@) ==> self.spec_whitelist() == seq![".*\\.pdf"@])
        &&& (!regex_ok(".*\\.pdf"@) ==> self.spec_whitelist() == Seq::<Seq<char>>::empty())
    }

    /// Compile every pattern of a policy. The whole configuration is
    /// rejected if any pattern is invalid, so no half-loaded policy can
    /// exist.
    pub fn new(force_loopback: bool, blacklist: Vec<String>, whitelist: Vec<String>) -> (r:
        Option<SecurityConfig>)
        ensures
            r is Some <==> all_patterns_ok(string_views(blacklist@)) && all_patterns_ok(
                string_views(whitelist@),
            ),
            r matches Some(c) ==> {
                &&& c.spec_force_loopback() == force_loopback
                &&& c.spec_blacklist() == string_views(blacklist@)
                &&& c.spec_whitelist() == string_views(whitelist@)
            },
    {
        let compiled_blacklist = match Self::compile_list(&blacklist) {
            Some(list) => list,
            None => {
                return None;
            },
        };
        let compiled_whitelist = match Self::compile_list(&whitelist) {
            Some(list) => list,
            None => {
                return None;
            },
        };
        Some(
            SecurityConfig {
                force_loopback,
                blacklist: compiled_blacklist,
                whitelist: compiled_whitelist,
            },
        )
    }

    fn compile_list(patterns: &Vec<String>) -> (r: Option<Vec<CompiledPattern>>)
        ensures
            r is Some <==> all_patterns_ok(string_views(patterns@)),
            r matches Some(list) ==> pattern_texts(list@) == string_views(patterns@),
    {
        let mut out: Vec<CompiledPattern> = Vec::new();
        let mut i: usize = 0;
        while i < patterns.len()
            invariant
                i <= patterns@.len(),
                out@.len() == i,
                forall|k: int| 0 <= k < i ==> #[trigger] out@[k]@ == patterns@[k]@,
                forall|k: int| 0 <= k < i ==> regex_ok(#[trigger] patterns@[k]@),
            decreases patterns@.len() - i,
        {
            match CompiledPattern::compile(patterns[i].as_str()) {
                Some(cp) => {
                    out.push(cp);
                },
                None => {
                    proof {
                        assert(string_views(patterns@)[i as int] == patterns@[i as int]@);
                        assert(!all_patterns_ok(string_views(patterns@)));
                    }
                    return None;
                },
            }
            i = i + 1;
        }
        proof {
            assert forall|k: int| 0 <= k < patterns@.len() implies regex_ok(
                #[trigger] string_views(patterns@)[k],
            ) by {
                assert(string_views(patterns@)[k] == patterns@[k]@);
            }
            assert(pattern_texts(out@) =~= string_views(patterns@));
        }
        Some(out)
    }

    fn matches_list(list: &Vec<CompiledPattern>, path: &str) -> (r: bool)
        ensures
            r == any_matches(pattern_texts(list@), path@),
    {
        let mut i: usize = 0;
        while i < list.len()
            invariant
                i <= list@.len(),
                forall|k: int| 0 <= k < i ==> !regex_match(#[trigger] list@[k]@, path@),
            decreases list@.len() - i,
        {
            if list[i].is_match(path) {
                proof {
                    assert(regex_match(pattern_texts(list@)[i as int], path@));
                }
                return true;
            }
            i = i + 1;
        }
        proof {
            assert forall|k: int| 0 <= k < pattern_texts(list@).len() implies !regex_match(
                #[trigger] pattern_texts(list@)[k],
                path@,
            ) by {
                assert(pattern_texts(list@)[k] == list@[k]@);
            }
        }
        false
    }

    fn matches_blacklist(&self, path: &str) -> (r: bool)
        ensures
            r == any_matches(self.spec_blacklist(), path@),
    {
        Self::matches_list(&self.blacklist, path)
    }

    fn matches_whitelist(&self, path: &str) -> (r: bool)
        ensures
            r == any_matches(self.spec_whitelist(), path@),
    {
        Self::matches_list(&self.whitelist, path)
    }

    /// The origin check alone.
    fn allow_force_loopback(&self, remote_is_loopback: bool) -> (r: bool)
        ensures
            r == self.origin_allows(remote_is_loopback),
    {
        if self.force_loopback {
            remote_is_loopback
        } else {
            true
        }
    }

    /// The pattern check alone.
    fn allow_black_and_white_list(&self, url: &str) -> (r: bool)
        ensures
            r == self.patterns_allow(url@),
    {
        if self.matches_blacklist(url) {
            if self.matches_whitelist(url) {
                true
            } else {
                false
            }
        } else {
            true
        }
    }

    /// The whole filter on one request.
    pub fn allow_request(&self, remote_is_loopback: bool, url: &str) -> (r: bool)
        ensures
            r == self.allows(remote_is_loopback, url@),
    {
        let origin_ok = self.allow_force_loopback(remote_is_loopback);
        let patterns_ok = self.allow_black_and_white_list(url);
        origin_ok && patterns_ok
    }
}

impl Default for SecurityConfig {
    /// The compiled-in default policy.
    fn default() -> (r: Self)
        ensures
            r.is_default_policy(),
    {
        let mut blacklist: Vec<CompiledPattern> = Vec::new();
        if let Some(cp) = CompiledPattern::compile("/favicon\\.ico") {
            blacklist.push(cp);
        }
        let mut whitelist: Vec<CompiledPattern> = Vec::new();
        if let Some(cp) = CompiledPattern::compile(".*\\.pdf") {
            whitelist.push(cp);
        }
        let r = SecurityConfig { force_loopback: true, blacklist, whitelist };
        proof {
            if regex_ok("/favicon\\.ico"@) {
                assert(r.spec_blacklist() =~= seq!["/favicon\\.ico"@]);
            } else {
                assert(r.spec_blacklist() =~= Seq::<Seq<char>>::empty());
            }
            if regex_ok(".*\\.pdf"@) {
                assert(r.spec_whitelist() =~= seq![".*\\.pdf"@]);
            } else {
                assert(r.spec_whitelist() =~= Seq::<Seq<char>>::empty());
            }
        }
        r
    }
}

/// A path matching no blacklist pattern is allowed whenever the origin
/// check passes, whatever the whitelist holds.
pub proof fn lemma_unlisted_path_allowed(
    cfg: &SecurityConfig,
    remote_is_loopback: bool,
    url: Seq<char>,
)
    requires
        cfg.origin_allows(remote_is_loopback),
        !any_matches(cfg.spec_blacklist(), url),
    ensures
        cfg.allows(remote_is_loopback, url),
{
}

/// A path matching a blacklist pattern and no whitelist pattern is
/// rejected, whatever the origin was.
pub proof fn lemma_blacklisted_path_rejected(
    cfg: &SecurityConfig,
    remote_is_loopback: bool,
    url: Seq<char>,
)
    requires
        any_matches(cfg.spec_blacklist(), url),
        !any_matches(cfg.spec_whitelist(), url),
    ensures
        !cfg.allows(remote_is_loopback, url),
{
}

/// A path matching both a blacklist and a whitelist pattern is allowed:
/// the whitelist overrides the blacklist. The origin check must pass,
/// since the filter conjoins the two checks.
pub proof fn lemma_whitelist_overrides_blacklist(
    cfg: &SecurityConfig,
    remote_is_loopback: bool,
    url: Seq<char>,
)
    requires
        cfg.origin_allows(remote_is_loopback),
        any_matches(cfg.spec_blacklist(), url),
        any_matches(cfg.spec_whitelist(), url),
    ensures
        cfg.allows(remote_is_loopback, url),
{
}

/// When loopback is forced and the remote is not a loopback address, the
/// request is rejected, whatever the pattern sets hold — including empty
/// sets.
pub proof fn lemma_non_loopback_rejected(
    cfg: &SecurityConfig,
    remote_is_loopback: bool,
    url: Seq<char>,
)
    requires
        cfg.spec_force_loopback(),
        !remote_is_loopback,
    ensures
        !cfg.allows(remote_is_loopback, url),
{
}

} // verus!
