//! Path resolution: the templated base directory, the candidate path for
//! a request, and the per-request pipeline that waits for the host's
//! canonicalization and open answers.
//!
//! Canonicalization itself and the external open call are the host's
//! work: the pipeline here decides, from each answer, what happens next,
//! and is verified for every possible answer.

use vstd::prelude::*;

verus! {

use vstd::string::*;
use crate::text::replaced;
use crate::text::starts_with;
use crate::text::str_match_at;
use crate::text::str_replace;

/// The placeholder in the base-path template that stands for the user's
/// home directory.
pub open spec fn home_token() -> Seq<char> {
    seq!['{', '{', 'h', 'o', 'm', 'e', '_', 'd', 'i', 'r', '}', '}']
}

/// The marker some platforms put in front of a canonical path in its
/// verbose form.
pub open spec fn verbatim_token() -> Seq<char> {
    seq!['\\', '\\', '?', '\\']
}

/// `template` with every home placeholder replaced by `home`.
pub open spec fn substituted(template: Seq<char>, home: Seq<char>) -> Seq<char> {
    replaced(template, home_token(), home)
}

/// `url` with a single leading separator stripped, so that joining it
/// onto a base cannot override the base.
pub open spec fn stripped(url: Seq<char>) -> Seq<char> {
    if url.len() > 0 && url[0] == '/' {
        url.subrange(1, url.len() as int)
    } else {
        url
    }
}

/// `rel` joined onto `base`, inserting a separator unless `base` already
/// ends in one.
pub open spec fn joined(base: Seq<char>, rel: Seq<char>) -> Seq<char> {
    if base.len() > 0 && (base.last() == '/' || base.last() == '\\') {
        base + rel
    } else {
        base + seq!['/'] + rel
    }
}

/// A canonical path in plain display form: the verbose marker, if
/// present, is stripped once.
pub open spec fn display_form(path: Seq<char>) -> Seq<char> {
    if starts_with(path, verbatim_token()) {
        path.subrange(4, path.len() as int)
    } else {
        path
    }
}

/// `path` lies under `base`: it is `base` itself, or `base` followed by a
/// path separator.
pub open spec fn within_base(path: Seq<char>, base: Seq<char>) -> bool {
    starts_with(path, base) && (path.len() == base.len() || path[base.len() as int] == '/'
        || path[base.len() as int] == '\\')
}

/// Join a request path onto a base directory, stripping the single
/// leading separator the URL path arrives with.
pub fn join_under(base: &str, requested_path: &str) -> (r: String)
    ensures
        r@ == joined(base@, stripped(requested_path@)),
{
    proof {
        reveal_strlit("/");
        assert("/"@ =~= seq!['/']);
    }
    let req_len = requested_path.unicode_len();
    let rest: &str = if req_len > 0 && requested_path.get_char(0) == '/' {
        requested_path.substring_char(1, req_len)
    } else {
        requested_path
    };
    let base_len = base.unicode_len();
    let needs_sep: bool = if base_len == 0 {
        true
    } else {
        let last = base.get_char(base_len - 1);
        !(last == '/' || last == '\\')
    };
    let mut out = base.to_owned();
    if needs_sep {
        out.append("/");
    }
    out.append(rest);
    proof {
        assert(out@ =~= joined(base@, stripped(requested_path@)));
    }
    out
}

/// Strip the platform's verbose path marker, if present, from a
/// canonical path, so the result is in plain display form.
pub fn display_path(path: &str) -> (r: String)
    ensures
        r@ == display_form(path@),
{
    proof {
        reveal_strlit("\\\\?\\");
        assert("\\\\?\\"@ =~= verbatim_token());
    }
    if str_match_at(path, "\\\\?\\", 0) {
        let len = path.unicode_len();
        let rest = path.substring_char(4, len);
        rest.to_owned()
    } else {
        path.to_owned()
    }
}

/// Whether a canonical path still lies under the base directory: the
/// explicit containment check after canonicalization.
pub fn path_within_base(path: &str, base: &str) -> (r: bool)
    ensures
        r == within_base(path@, base@),
{
    if !str_match_at(path, base, 0) {
        return false;
    }
    let path_len = path.unicode_len();
    let base_len = base.unicode_len();
    if path_len == base_len {
        return true;
    }
    let c = path.get_char(base_len);
    c == '/' || c == '\\'
}

/// Why one request's resolution or open step failed.
#[derive(PartialEq, Eq, Structural, Clone, Copy, Debug)]
pub enum RunError {
    /// The home directory could not be determined.
    NoHomeDirectory,
    /// Canonicalization failed: the candidate does not name an existing
    /// file.
    NotFound,
    /// The canonical path escaped the configured base directory.
    OutsideBase,
    /// The external open call did not exit cleanly.
    OpenFailed,
}

/// Where one authorized request stands while the host works for it.
#[derive(Debug, PartialEq, Eq)]
pub enum RunState {
    /// The candidate path waits for the host's canonicalization answer;
    /// `base` is the substituted base directory the answer must stay
    /// under.
    Canonicalizing { candidate: String, base: String },
    /// The resolved path waits for the host's open answer.
    Opening { path: String },
    /// The external open call exited cleanly.
    Succeeded,
    /// The request failed; every failure is terminal for the request.
    Failed { error: RunError },
}

/// An answer the host gives while one request is handled.
#[derive(Debug)]
pub enum HostEvent {
    /// What the candidate path canonicalized to, if it exists.
    Canonicalized(Option<String>),
    /// Whether the external open call exited cleanly.
    Opened(bool),
}

/// The state awaits exactly this kind of answer.
pub open spec fn expects(state: RunState, event: HostEvent) -> bool {
    match (state, event) {
        (RunState::Canonicalizing { .. }, HostEvent::Canonicalized(_)) => true,
        (RunState::Opening { .. }, HostEvent::Opened(_)) => true,
        _ => false,
    }
}

/// The exact transition relation of `RunState::advance`.
pub open spec fn advance_rel(state: RunState, event: HostEvent, next: RunState) -> bool {
    match (state, event) {
        (RunState::Canonicalizing { candidate: _, base }, HostEvent::Canonicalized(answer)) => {
            match answer {
                None => next == (RunState::Failed { error: RunError::NotFound }),
                Some(canonical) => if within_base(display_form(canonical@), base@) {
                    next matches RunState::Opening { path } && path@ == display_form(canonical@)
                } else {
                    next == (RunState::Failed { error: RunError::OutsideBase })
                },
            }
        },
        (RunState::Opening { path: _ }, HostEvent::Opened(ok)) => {
            if ok {
                next == RunState::Succeeded
            } else {
                next == (RunState::Failed { error: RunError::OpenFailed })
            }
        },
        _ => false,
    }
}

impl RunState {
    /// Advance one request by one host answer: a missing canonical path
    /// is a terminal not-found failure; a canonical path escaping the
    /// base is a terminal containment failure; otherwise the plain
    /// display form of the canonical path goes on to the open step, whose
    /// answer decides between success and a terminal open failure.
    pub fn advance(self, event: HostEvent) -> (next: RunState)
        requires
            expects(self, event),
        ensures
            advance_rel(self, event, next),
    {
        match (self, event) {
            (
                RunState::Canonicalizing { candidate: _, base },
                HostEvent::Canonicalized(answer),
            ) => match answer {
                None => RunState::Failed { error: RunError::NotFound },
                Some(canonical) => {
                    let display = display_path(canonical.as_str());
                    if path_within_base(display.as_str(), base.as_str()) {
                        RunState::Opening { path: display }
                    } else {
                        RunState::Failed { error: RunError::OutsideBase }
                    }
                },
            },
            (RunState::Opening { path: _ }, HostEvent::Opened(ok)) => {
                if ok {
                    RunState::Succeeded
                } else {
                    RunState::Failed { error: RunError::OpenFailed }
                }
            },
            (state, _) => {
                proof {
                    assert(false);
                }
                state
            },
        }
    }
}

/// The pipeline adds no choice of its own: two steps from the same state
/// on the same host answer agree — the same failure, the same success,
/// or the same resolved path. Resolving a request twice therefore yields
/// the same string whenever the host gives the same answers, as an
/// unchanged filesystem does.
pub proof fn lemma_advance_deterministic(
    state: RunState,
    event: HostEvent,
    next1: RunState,
    next2: RunState,
)
    requires
        advance_rel(state, event, next1),
        advance_rel(state, event, next2),
    ensures
        next1 matches RunState::Opening { path: p1 } ==> (next2 matches RunState::Opening {
            path: p2,
        } && p1@ == p2@),
        next1 is Failed ==> next2 == next1,
        next1 is Succeeded ==> next2 == next1,
{
}

/// Relies on `dirs::home_dir`: the platform's home-directory lookup. The
/// answer depends on the environment, so nothing is assumed of it.
#[verifier::external_body]
fn home_directory() -> Option<String> {
    dirs::home_dir().and_then(|p| p.to_str().map(|s| s.to_owned()))
}

/// The base-path template of the endpoint: a string with a placeholder
/// for the home directory, plus an informational host name.
pub struct SystemConfig {
    hostname: String,
    base_path: String,
}

impl SystemConfig {
    /// The informational host name.
    pub closed spec fn spec_hostname(&self) -> Seq<char> {
        self.hostname@
    }

    /// The base-path template.
    pub closed spec fn spec_base_path(&self) -> Seq<char> {
        self.base_path@
    }

    /// The compiled-in template: a OneDrive folder under the home
    /// directory, in its short platform form.
    pub open spec fn is_default_template(&self) -> bool {
        self.spec_hostname() == "xodo"@ && self.spec_base_path()
            == "{{home_dir}}\\OneDrive\\ONEDRI~1"@
    }

    pub fn new(hostname: String, base_path: String) -> (r: Self)
        ensures
            r.spec_hostname() == hostname@,
            r.spec_base_path() == base_path@,
    {
        SystemConfig { hostname, base_path }
    }

    /// The base directory of this configuration, with `home` substituted
    /// for every placeholder.
    pub fn substituted_base(&self, home: &str) -> (r: String)
        ensures
            r@ == substituted(self.spec_base_path(), home@),
    {
        proof {
            reveal_strlit("{{home_dir}}");
            assert("{{home_dir}}"@ =~= home_token());
        }
        str_replace(self.base_path.as_str(), "{{home_dir}}", home)
    }

    /// The path handed to canonicalization for a request: the substituted
    /// base with the stripped request path joined on.
    pub fn candidate_path(&self, home: &str, requested_path: &str) -> (r: String)
        ensures
            r@ == joined(substituted(self.spec_base_path(), home@), stripped(requested_path@)),
    {
        let base = self.substituted_base(home);
        join_under(base.as_str(), requested_path)
    }

    /// Begin handling an authorized request: look up the home directory
    /// and build the candidate path. The request then waits for the
    /// host's canonicalization answer; without a home directory it fails
    /// at once.
    pub fn run(&self, requested_path: &str) -> (s: RunState)
        ensures
            s matches RunState::Canonicalizing { candidate, base } ==> {
                &&& candidate@ == joined(base@, stripped(requested_path@))
                &&& (exists|home: Seq<char>| base@ == substituted(self.spec_base_path(), home))
            },
            s matches RunState::Failed { error } ==> error == RunError::NoHomeDirectory,
            s is Canonicalizing || s is Failed,
    {
        match home_directory() {
            None => RunState::Failed { error: RunError::NoHomeDirectory },
            Some(home) => {
                let base = self.substituted_base(home.as_str());
                let candidate = join_under(base.as_str(), requested_path);
                proof {
                    assert(exists|h: Seq<char>|
                        base@ == substituted(self.spec_base_path(), h)) by {
                        assert(base@ == substituted(self.spec_base_path(), home@));
                    }
                }
                RunState::Canonicalizing { candidate, base }
            },
        }
    }
}

impl Default for SystemConfig {
    /// The compiled-in template.
    fn default() -> (r: Self)
        ensures
            r.is_default_template(),
    {
        SystemConfig {
            hostname: String::from_str("xodo"),
            base_path: String::from_str("{{home_dir}}\\OneDrive\\ONEDRI~1"),
        }
    }
}

} // verus!
