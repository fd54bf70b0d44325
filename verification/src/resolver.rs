//! The resolution state machine.
//!
//! A resolution runs under one of three modes: live (network allowed, no
//! offline store), offline-serve (no network, the offline store must
//! already hold the icon), and offline-prepare (network allowed, every
//! result also committed to the offline store). The machine decides, step
//! by step, which I/O action comes next; the driver performs the action and
//! answers with an event. All decisions — cache before network, the
//! offline store as the only source in offline-serve, the `"404"` body
//! sentinel, the write-back order — live here and are verified; the driver
//! only moves bytes.

use vstd::prelude::*;

use crate::digest::{cache_key_of, hash_digest};
use crate::errors::ResolutionError;
use crate::paths::{entry_path, entry_path_exec};
use crate::request::Request;
use crate::strutil::str_eq;
use crate::urlbuild::url_of;

verus! {

use vstd::pervasive::unreached;

/// The operating mode, fixed at configuration time, never per request.
#[derive(Clone, Copy, Debug, PartialEq, Eq, Structural)]
pub enum Mode {
    Live,
    OfflineServe,
    OfflinePrepare,
}

/// The configuration a resolution runs under: the service base URL, the
/// mode, and the resolved store roots. A root is `None` when that store is
/// not configured.
#[derive(Debug, Clone)]
pub struct Config {
    pub base_url: String,
    pub mode: Mode,
    pub cache_root: Option<String>,
    pub offline_root: Option<String>,
}

impl Config {
    /// What a well-formed configuration looks like: each mode has exactly
    /// the stores it works with. Offline-serve reads the offline store
    /// only; live never has one; offline-prepare must have one.
    pub open spec fn wf(&self) -> bool {
        &&& (self.mode is OfflineServe ==> self.offline_root is Some && self.cache_root is None)
        &&& (self.mode is OfflinePrepare ==> self.offline_root is Some)
        &&& (self.mode is Live ==> self.offline_root is None)
    }
}

/// Where a resolution stands: which answer it is waiting for, or how it
/// ended.
#[derive(Debug)]
pub enum Phase {
    AwaitCache,
    AwaitOffline,
    AwaitFetch,
    AwaitStoreCache { text: String },
    AwaitStoreOffline { text: String },
    Complete { text: String },
    Failed { error: ResolutionError },
}

/// What the driver reports back: the outcome of the action it performed.
/// `Found`/`Miss`/`ReadFailed` answer reads, `Fetched`/`FetchFailed`
/// answer the network call, `Stored`/`WriteFailed` answer writes. A miss
/// is not an error; `ReadFailed` is for failures other than "not found".
#[derive(Debug)]
pub enum Event {
    Found { text: String },
    Miss,
    ReadFailed { reason: String },
    Fetched { body: String },
    FetchFailed { reason: String },
    Stored,
    WriteFailed { reason: String },
}

/// What the driver must do next. `Finish` and `Fail` are terminal: the
/// resolution's result.
#[derive(Debug)]
pub enum Action {
    ReadCache { path: String },
    ReadOffline { path: String },
    FetchUrl { url: String },
    WriteCache { path: String, text: String },
    WriteOffline { path: String, text: String },
    Finish { text: String },
    Fail { error: ResolutionError },
}

/// One resolution in progress.
#[derive(Debug)]
pub struct Resolution {
    pub mode: Mode,
    pub pack: String,
    pub name: String,
    pub key: String,
    pub url: String,
    pub cache_path: Option<String>,
    pub offline_path: Option<String>,
    pub phase: Phase,
}

impl Resolution {
    /// What every reachable resolution satisfies: the paths the phases
    /// read and write exist, and offline-serve never leaves the offline
    /// lookup for a network or cache phase.
    pub open spec fn inv(self) -> bool {
        &&& (!self.done() && self.mode is OfflineServe ==> self.cache_path is None
            && self.offline_path is Some)
        &&& (!self.done() && self.mode is Live ==> self.offline_path is None)
        &&& (!self.done() && self.mode is OfflinePrepare ==> self.offline_path is Some)
        &&& (self.mode is OfflineServe ==> (self.phase is AwaitOffline || self.phase is Complete
            || self.phase is Failed))
        &&& (self.phase is AwaitCache ==> self.cache_path is Some)
        &&& (self.phase matches Phase::AwaitStoreCache { .. } ==> self.cache_path is Some)
        &&& (self.phase is AwaitOffline ==> self.offline_path is Some)
        &&& (self.phase matches Phase::AwaitStoreOffline { .. } ==> self.mode is OfflinePrepare
            && self.offline_path is Some)
    }

    /// Whether the resolution has ended, one way or the other.
    pub open spec fn done(self) -> bool {
        self.phase matches Phase::Complete { .. } || self.phase matches Phase::Failed { .. }
    }
}

/// Which events answer which pending phase.
pub open spec fn event_fits(phase: Phase, ev: Event) -> bool {
    match phase {
        Phase::AwaitCache => ev is Found || ev is Miss || ev is ReadFailed,
        Phase::AwaitOffline => ev is Found || ev is Miss || ev is ReadFailed,
        Phase::AwaitFetch => ev is Fetched || ev is FetchFailed,
        Phase::AwaitStoreCache { .. } => ev is Stored || ev is WriteFailed,
        Phase::AwaitStoreOffline { .. } => ev is Stored || ev is WriteFailed,
        Phase::Complete { .. } => false,
        Phase::Failed { .. } => false,
    }
}

/// Ending a resolution in an error: the state records it and the driver is
/// told to surface it.
pub open spec fn spec_fail(r: Resolution, e: ResolutionError) -> (Resolution, Action) {
    (Resolution { phase: Phase::Failed { error: e }, ..r }, Action::Fail { error: e })
}

/// Ending a resolution in success.
pub open spec fn spec_finish(r: Resolution, text: String) -> (Resolution, Action) {
    (Resolution { phase: Phase::Complete { text }, ..r }, Action::Finish { text })
}

/// The transition relation: given where the resolution stands and what the
/// last action's outcome was, the next state and action.
///
/// * A cache hit returns the cached text at once; a miss falls through to
///   the network; a read failure is surfaced, never swallowed.
/// * An offline lookup is terminal either way: a miss is
///   `OfflineAssetMissing`, with no network fallback.
/// * A fetched body equal to the service's literal `"404"` sentinel is
///   `IconNotFound` and is never written to any store; any other body is
///   the SVG text, written back to the configured stores before finishing.
/// * A write failure is surfaced as an `IoError` rather than corrupting
///   the result silently.
pub open spec fn spec_step(r: Resolution, ev: Event) -> (Resolution, Action)
    recommends
        r.inv(),
        !r.done(),
        event_fits(r.phase, ev),
{
    match r.phase {
        Phase::AwaitCache => match ev {
            Event::Found { text } => spec_finish(r, text),
            Event::Miss => (
                Resolution { phase: Phase::AwaitFetch, ..r },
                Action::FetchUrl { url: r.url },
            ),
            Event::ReadFailed { reason } => spec_fail(
                r,
                ResolutionError::IoError { path: r.cache_path->0, reason },
            ),
            _ => arbitrary(),
        },
        Phase::AwaitOffline => match ev {
            Event::Found { text } => spec_finish(r, text),
            Event::Miss => spec_fail(
                r,
                ResolutionError::OfflineAssetMissing { pack: r.pack, name: r.name },
            ),
            Event::ReadFailed { reason } => spec_fail(
                r,
                ResolutionError::IoError { path: r.offline_path->0, reason },
            ),
            _ => arbitrary(),
        },
        Phase::AwaitFetch => match ev {
            Event::Fetched { body } => {
                if body@ == "404"@ {
                    spec_fail(
                        r,
                        ResolutionError::IconNotFound { pack: r.pack, name: r.name },
                    )
                } else if r.cache_path is Some {
                    (
                        Resolution { phase: Phase::AwaitStoreCache { text: body }, ..r },
                        Action::WriteCache { path: r.cache_path->0, text: body },
                    )
                } else if r.mode is OfflinePrepare {
                    (
                        Resolution { phase: Phase::AwaitStoreOffline { text: body }, ..r },
                        Action::WriteOffline { path: r.offline_path->0, text: body },
                    )
                } else {
                    spec_finish(r, body)
                }
            },
            Event::FetchFailed { reason } => spec_fail(r, ResolutionError::FetchFailed { reason }),
            _ => arbitrary(),
        },
        Phase::AwaitStoreCache { text } => match ev {
            Event::Stored => {
                if r.mode is OfflinePrepare {
                    (
                        Resolution { phase: Phase::AwaitStoreOffline { text }, ..r },
                        Action::WriteOffline { path: r.offline_path->0, text },
                    )
                } else {
                    spec_finish(r, text)
                }
            },
            Event::WriteFailed { reason } => spec_fail(
                r,
                ResolutionError::IoError { path: r.cache_path->0, reason },
            ),
            _ => arbitrary(),
        },
        Phase::AwaitStoreOffline { text } => match ev {
            Event::Stored => spec_finish(r, text),
            Event::WriteFailed { reason } => spec_fail(
                r,
                ResolutionError::IoError { path: r.offline_path->0, reason },
            ),
            _ => arbitrary(),
        },
        Phase::Complete { .. } => arbitrary(),
        Phase::Failed { .. } => arbitrary(),
    }
}

/// Every step from a reachable, unfinished resolution lands on a reachable
/// resolution again.
pub proof fn lemma_step_inv(r: Resolution, ev: Event)
    requires
        r.inv(),
        !r.done(),
        event_fits(r.phase, ev),
    ensures
        spec_step(r, ev).0.inv(),
        spec_step(r, ev).0.mode == r.mode,
{
}

impl Resolution {
    /// Answers the pending action's outcome and says what to do next.
    pub fn step(self, ev: Event) -> (r: (Resolution, Action))
        requires
            self.inv(),
            !self.done(),
            event_fits(self.phase, ev),
        ensures
            r == spec_step(self, ev),
            r.0.inv(),
            r.0.mode == self.mode,
    {
        proof {
            lemma_step_inv(self, ev);
        }
        let Resolution { mode, pack, name, key, url, cache_path, offline_path, phase } = self;
        match phase {
            Phase::AwaitCache => match ev {
                Event::Found { text } => {
                    let action = Action::Finish { text: text.clone() };
                    (
                        Resolution {
                            mode,
                            pack,
                            name,
                            key,
                            url,
                            cache_path,
                            offline_path,
                            phase: Phase::Complete { text },
                        },
                        action,
                    )
                },
                Event::Miss => {
                    let action = Action::FetchUrl { url: url.clone() };
                    (
                        Resolution {
                            mode,
                            pack,
                            name,
                            key,
                            url,
                            cache_path,
                            offline_path,
                            phase: Phase::AwaitFetch,
                        },
                        action,
                    )
                },
                Event::ReadFailed { reason } => {
                    let p = match &cache_path {
                        Some(p) => p.clone(),
                        None => unreached(),
                    };
                    let action = Action::Fail {
                        error: ResolutionError::IoError { path: p.clone(), reason: reason.clone() },
                    };
                    (
                        Resolution {
                            mode,
                            pack,
                            name,
                            key,
                            url,
                            cache_path,
                            offline_path,
                            phase: Phase::Failed {
                                error: ResolutionError::IoError { path: p, reason },
                            },
                        },
                        action,
                    )
                },
                _ => unreached(),
            },
            Phase::AwaitOffline => match ev {
                Event::Found { text } => {
                    let action = Action::Finish { text: text.clone() };
                    (
                        Resolution {
                            mode,
                            pack,
                            name,
                            key,
                            url,
                            cache_path,
                            offline_path,
                            phase: Phase::Complete { text },
                        },
                        action,
                    )
                },
                Event::Miss => {
                    let action = Action::Fail {
                        error: ResolutionError::OfflineAssetMissing {
                            pack: pack.clone(),
                            name: name.clone(),
                        },
                    };
                    (
                        Resolution {
                            mode,
                            pack: pack.clone(),
                            name: name.clone(),
                            key,
                            url,
                            cache_path,
                            offline_path,
                            phase: Phase::Failed {
                                error: ResolutionError::OfflineAssetMissing { pack, name },
                            },
                        },
                        action,
                    )
                },
                Event::ReadFailed { reason } => {
                    let p = match &offline_path {
                        Some(p) => p.clone(),
                        None => unreached(),
                    };
                    let action = Action::Fail {
                        error: ResolutionError::IoError { path: p.clone(), reason: reason.clone() },
                    };
                    (
                        Resolution {
                            mode,
                            pack,
                            name,
                            key,
                            url,
                            cache_path,
                            offline_path,
                            phase: Phase::Failed {
                                error: ResolutionError::IoError { path: p, reason },
                            },
                        },
                        action,
                    )
                },
                _ => unreached(),
            },
            Phase::AwaitFetch => match ev {
                Event::Fetched { body } => {
                    if str_eq(body.as_str(), "404") {
                        let action = Action::Fail {
                            error: ResolutionError::IconNotFound {
                                pack: pack.clone(),
                                name: name.clone(),
                            },
                        };
                        (
                            Resolution {
                                mode,
                                pack: pack.clone(),
                                name: name.clone(),
                                key,
                                url,
                                cache_path,
                                offline_path,
                                phase: Phase::Failed {
                                    error: ResolutionError::IconNotFound { pack, name },
                                },
                            },
                            action,
                        )
                    } else if cache_path.is_some() {
                        let p = match &cache_path {
                            Some(p) => p.clone(),
                            None => unreached(),
                        };
                        let action = Action::WriteCache { path: p, text: body.clone() };
                        (
                            Resolution {
                                mode,
                                pack,
                                name,
                                key,
                                url,
                                cache_path,
                                offline_path,
                                phase: Phase::AwaitStoreCache { text: body },
                            },
                            action,
                        )
                    } else if matches!(mode, Mode::OfflinePrepare) {
                        let p = match &offline_path {
                            Some(p) => p.clone(),
                            None => unreached(),
                        };
                        let action = Action::WriteOffline { path: p, text: body.clone() };
                        (
                            Resolution {
                                mode,
                                pack,
                                name,
                                key,
                                url,
                                cache_path,
                                offline_path,
                                phase: Phase::AwaitStoreOffline { text: body },
                            },
                            action,
                        )
                    } else {
                        let action = Action::Finish { text: body.clone() };
                        (
                            Resolution {
                                mode,
                                pack,
                                name,
                                key,
                                url,
                                cache_path,
                                offline_path,
                                phase: Phase::Complete { text: body },
                            },
                            action,
                        )
                    }
                },
                Event::FetchFailed { reason } => {
                    let action = Action::Fail {
                        error: ResolutionError::FetchFailed { reason: reason.clone() },
                    };
                    (
                        Resolution {
                            mode,
                            pack,
                            name,
                            key,
                            url,
                            cache_path,
                            offline_path,
                            phase: Phase::Failed {
                                error: ResolutionError::FetchFailed { reason },
                            },
                        },
                        action,
                    )
                },
                _ => unreached(),
            },
            Phase::AwaitStoreCache { text } => match ev {
                Event::Stored => {
                    if matches!(mode, Mode::OfflinePrepare) {
                        let p = match &offline_path {
                            Some(p) => p.clone(),
                            None => unreached(),
                        };
                        let action = Action::WriteOffline { path: p, text: text.clone() };
                        (
                            Resolution {
                                mode,
                                pack,
                                name,
                                key,
                                url,
                                cache_path,
                                offline_path,
                                phase: Phase::AwaitStoreOffline { text },
                            },
                            action,
                        )
                    } else {
                        let action = Action::Finish { text: text.clone() };
                        (
                            Resolution {
                                mode,
                                pack,
                                name,
                                key,
                                url,
                                cache_path,
                                offline_path,
                                phase: Phase::Complete { text },
                            },
                            action,
                        )
                    }
                },
                Event::WriteFailed { reason } => {
                    let p = match &cache_path {
                        Some(p) => p.clone(),
                        None => unreached(),
                    };
                    let action = Action::Fail {
                        error: ResolutionError::IoError { path: p.clone(), reason: reason.clone() },
                    };
                    (
                        Resolution {
                            mode,
                            pack,
                            name,
                            key,
                            url,
                            cache_path,
                            offline_path,
                            phase: Phase::Failed {
                                error: ResolutionError::IoError { path: p, reason },
                            },
                        },
                        action,
                    )
                },
                _ => unreached(),
            },
            Phase::AwaitStoreOffline { text } => match ev {
                Event::Stored => {
                    let action = Action::Finish { text: text.clone() };
                    (
                        Resolution {
                            mode,
                            pack,
                            name,
                            key,
                            url,
                            cache_path,
                            offline_path,
                            phase: Phase::Complete { text },
                        },
                        action,
                    )
                },
                Event::WriteFailed { reason } => {
                    let p = match &offline_path {
                        Some(p) => p.clone(),
                        None => unreached(),
                    };
                    let action = Action::Fail {
                        error: ResolutionError::IoError { path: p.clone(), reason: reason.clone() },
                    };
                    (
                        Resolution {
                            mode,
                            pack,
                            name,
                            key,
                            url,
                            cache_path,
                            offline_path,
                            phase: Phase::Failed {
                                error: ResolutionError::IoError { path: p, reason },
                            },
                        },
                        action,
                    )
                },
                _ => unreached(),
            },
            Phase::Complete { .. } => unreached(),
            Phase::Failed { .. } => unreached(),
        }
    }
}

/// Whether a request can be resolved at all: its pack and name are
/// non-empty, so a canonical URL exists for it.
pub open spec fn resolvable(m: crate::request::ReqModel) -> bool {
    m.pack.len() > 0 && m.name.len() > 0
}

/// Opens a resolution for a request under a configuration and names the
/// first action to perform.
///
/// The canonical URL and the cache key are fixed here, before any I/O.
/// With a cache configured the resolution starts with the cache lookup;
/// offline-serve starts — and stays — with the offline lookup; otherwise
/// the network is asked directly. A request with an empty pack or name
/// fails at once with `UrlConstructionError`.
pub fn start(config: &Config, req: &Request) -> (r: (Resolution, Action))
    requires
        config.wf(),
    ensures
        r.0.inv(),
        r.0.mode == config.mode,
        r.0.pack@ == req@.pack,
        r.0.name@ == req@.name,
        !resolvable(req@) ==> (r.0.phase matches Phase::Failed { error } && error
            is UrlConstructionError),
        !resolvable(req@) ==> (r.1 matches Action::Fail { error } && error
            is UrlConstructionError),
        resolvable(req@) ==> r.0.url@ == url_of(config.base_url@, req@),
        resolvable(req@) ==> r.0.key@ == cache_key_of(url_of(config.base_url@, req@)),
        resolvable(req@) && config.cache_root is Some ==> (r.0.cache_path matches Some(p) && p@
            == entry_path(
            config.cache_root->0@,
            req@.pack,
            req@.name,
            cache_key_of(url_of(config.base_url@, req@)),
        )),
        config.cache_root is None ==> r.0.cache_path is None,
        resolvable(req@) && config.offline_root is Some ==> (r.0.offline_path matches Some(p) && p@
            == entry_path(
            config.offline_root->0@,
            req@.pack,
            req@.name,
            cache_key_of(url_of(config.base_url@, req@)),
        )),
        config.offline_root is None ==> r.0.offline_path is None,
        resolvable(req@) && config.cache_root is Some ==> r.0.phase is AwaitCache,
        resolvable(req@) && config.cache_root is Some ==> (r.1 matches Action::ReadCache { path }
            && path@ == entry_path(
            config.cache_root->0@,
            req@.pack,
            req@.name,
            cache_key_of(url_of(config.base_url@, req@)),
        )),
        resolvable(req@) && config.cache_root is None && config.mode is OfflineServe ==> r.0.phase
            is AwaitOffline,
        resolvable(req@) && config.cache_root is None && config.mode is OfflineServe ==> (r.1
            matches Action::ReadOffline { path } && path@ == entry_path(
            config.offline_root->0@,
            req@.pack,
            req@.name,
            cache_key_of(url_of(config.base_url@, req@)),
        )),
        resolvable(req@) && config.cache_root is None && !(config.mode is OfflineServe)
            ==> r.0.phase is AwaitFetch,
        resolvable(req@) && config.cache_root is None && !(config.mode is OfflineServe) ==> (r.1
            matches Action::FetchUrl { url } && url@ == url_of(config.base_url@, req@)),
        config.mode is OfflineServe ==> !(r.1 is FetchUrl),
{
    let url = match req.icon_url(config.base_url.as_str()) {
        Ok(u) => u,
        Err(_) => {
            let res = Resolution {
                mode: config.mode,
                pack: req.pack.clone(),
                name: req.name.clone(),
                key: String::new(),
                url: String::new(),
                cache_path: None,
                offline_path: None,
                phase: Phase::Failed { error: ResolutionError::UrlConstructionError },
            };
            return (res, Action::Fail { error: ResolutionError::UrlConstructionError });
        },
    };
    let key = hash_digest(url.as_str());
    let cache_path = match &config.cache_root {
        Some(root) => Some(
            entry_path_exec(root.as_str(), req.pack.as_str(), req.name.as_str(), key.as_str()),
        ),
        None => None,
    };
    let offline_path = match &config.offline_root {
        Some(root) => Some(
            entry_path_exec(root.as_str(), req.pack.as_str(), req.name.as_str(), key.as_str()),
        ),
        None => None,
    };
    if let Some(p) = &cache_path {
        let action = Action::ReadCache { path: p.clone() };
        let res = Resolution {
            mode: config.mode,
            pack: req.pack.clone(),
            name: req.name.clone(),
            key,
            url,
            cache_path,
            offline_path,
            phase: Phase::AwaitCache,
        };
        (res, action)
    } else {
        match config.mode {
            Mode::OfflineServe => {
                let p = match &offline_path {
                    Some(p) => p.clone(),
                    None => unreached(),
                };
                let action = Action::ReadOffline { path: p };
                let res = Resolution {
                    mode: config.mode,
                    pack: req.pack.clone(),
                    name: req.name.clone(),
                    key,
                    url,
                    cache_path,
                    offline_path,
                    phase: Phase::AwaitOffline,
                };
                (res, action)
            },
            _ => {
                let action = Action::FetchUrl { url: url.clone() };
                let res = Resolution {
                    mode: config.mode,
                    pack: req.pack.clone(),
                    name: req.name.clone(),
                    key,
                    url,
                    cache_path,
                    offline_path,
                    phase: Phase::AwaitFetch,
                };
                (res, action)
            },
        }
    }
}

/// A warm cache closes a resolution at once: when the opening cache lookup
/// answers with the stored text, the resolution completes with exactly
/// that text — no fetch, no write, nothing further to do. Two resolutions
/// of one request against a warm cache therefore return the same text and
/// never touch the network.
pub proof fn lemma_warm_cache_hit(r: Resolution, text: String)
    requires
        r.inv(),
        r.phase is AwaitCache,
    ensures
        spec_step(r, (Event::Found { text })).1 == (Action::Finish { text }),
        spec_step(r, (Event::Found { text })).0.phase == (Phase::Complete { text }),
        spec_step(r, (Event::Found { text })).0.done(),
{
}

/// Offline-serve never touches the network: no step of an offline-serve
/// resolution yields a fetch action, the mode never changes, and a missing
/// offline asset fails with `OfflineAssetMissing` naming this request's
/// pack and name. Together with `start`, which opens offline-serve
/// resolutions on the offline lookup and never with a fetch, no
/// offline-serve resolution performs network access at any step.
pub proof fn lemma_offline_serve_never_fetches(r: Resolution, ev: Event)
    requires
        r.inv(),
        !r.done(),
        event_fits(r.phase, ev),
        r.mode is OfflineServe,
    ensures
        !(spec_step(r, ev).1 is FetchUrl),
        spec_step(r, ev).0.inv(),
        spec_step(r, ev).0.mode is OfflineServe,
        r.phase is AwaitOffline && ev is Miss ==> (spec_step(r, ev).1 matches Action::Fail {
            error,
        } && error matches ResolutionError::OfflineAssetMissing { pack, name } && pack@ == r.pack@
            && name@ == r.name@),
{
    lemma_step_inv(r, ev);
}

} // verus!
