use iconify_core::errors::ResolutionError;
use iconify_core::request::{parse_reference, Request};
use iconify_core::resolver::{start, Action, Config, Event, Mode};
use iconify_core::store::MemStore;

const BASE: &str = "https://api.iconify.design";

/// A test driver: it performs each action against in-memory stores and a
/// scripted network, and counts what the resolver asked for.
struct Driver {
    cache: MemStore,
    offline: MemStore,
    remote_body: Option<String>,
    fetches: usize,
    cache_writes: usize,
    offline_writes: usize,
}

impl Driver {
    fn new(remote_body: Option<&str>) -> Driver {
        Driver {
            cache: MemStore::new(),
            offline: MemStore::new(),
            remote_body: remote_body.map(|s| s.to_string()),
            fetches: 0,
            cache_writes: 0,
            offline_writes: 0,
        }
    }

    fn resolve(&mut self, config: &Config, req: &Request) -> Result<String, ResolutionError> {
        let (mut res, mut action) = start(config, req);
        loop {
            let ev = match action {
                Action::ReadCache { .. } => {
                    match self.cache.lookup(&res.pack, &res.name, &res.key) {
                        Some(text) => Event::Found { text },
                        None => Event::Miss,
                    }
                }
                Action::ReadOffline { .. } => {
                    match self.offline.lookup(&res.pack, &res.name, &res.key) {
                        Some(text) => Event::Found { text },
                        None => Event::Miss,
                    }
                }
                Action::FetchUrl { .. } => {
                    self.fetches += 1;
                    match &self.remote_body {
                        Some(body) => Event::Fetched { body: body.clone() },
                        None => Event::FetchFailed {
                            reason: "connection refused".to_string(),
                        },
                    }
                }
                Action::WriteCache { text, .. } => {
                    self.cache_writes += 1;
                    self.cache.store(&res.pack, &res.name, &res.key, text);
                    Event::Stored
                }
                Action::WriteOffline { text, .. } => {
                    self.offline_writes += 1;
                    self.offline.store(&res.pack, &res.name, &res.key, text);
                    Event::Stored
                }
                Action::Finish { text } => return Ok(text),
                Action::Fail { error } => return Err(error),
            };
            let (next, next_action) = res.step(ev);
            res = next;
            action = next_action;
        }
    }
}

const SVG: &str = "<svg xmlns=\"http://www.w3.org/2000/svg\"><path d=\"M10 20\"/></svg>";

fn live_config(cache_root: Option<&str>) -> Config {
    Config {
        base_url: BASE.to_string(),
        mode: Mode::Live,
        cache_root: cache_root.map(|s| s.to_string()),
        offline_root: None,
    }
}

#[test]
fn live_resolution_fetches_then_caches() {
    let config = live_config(Some("/tmp/cache"));
    let req = parse_reference("mdi:home").unwrap();
    let mut drv = Driver::new(Some(SVG));

    let text = drv.resolve(&config, &req).unwrap();
    assert_eq!(text, SVG);
    assert_eq!(drv.fetches, 1);
    assert_eq!(drv.cache_writes, 1);
}

#[test]
fn warm_cache_resolves_without_any_network_call() {
    let config = live_config(Some("/tmp/cache"));
    let req = parse_reference("mdi:home").unwrap();
    let mut drv = Driver::new(Some(SVG));

    let first = drv.resolve(&config, &req).unwrap();
    let second = drv.resolve(&config, &req).unwrap();
    assert_eq!(first, second);
    assert_eq!(drv.fetches, 1, "the second resolution must not fetch");
    assert_eq!(drv.cache_writes, 1, "the second resolution must not rewrite");
}

#[test]
fn live_without_cache_fetches_every_time() {
    let config = live_config(None);
    let req = parse_reference("mdi:home").unwrap();
    let mut drv = Driver::new(Some(SVG));

    assert_eq!(drv.resolve(&config, &req).unwrap(), SVG);
    assert_eq!(drv.resolve(&config, &req).unwrap(), SVG);
    assert_eq!(drv.fetches, 2);
    assert_eq!(drv.cache_writes, 0);
}

#[test]
fn offline_serve_never_touches_the_network() {
    let config = Config {
        base_url: BASE.to_string(),
        mode: Mode::OfflineServe,
        cache_root: None,
        offline_root: Some("icons".to_string()),
    };
    let req = parse_reference("mdi:home").unwrap();
    let mut drv = Driver::new(Some(SVG));

    let err = drv.resolve(&config, &req).unwrap_err();
    match err {
        ResolutionError::OfflineAssetMissing { pack, name } => {
            assert_eq!(pack, "mdi");
            assert_eq!(name, "home");
        }
        other => panic!("unexpected error: {:?}", other),
    }
    assert_eq!(drv.fetches, 0, "offline-serve may not fetch");
}

#[test]
fn offline_prepare_populates_the_store_offline_serve_reads() {
    let prepare = Config {
        base_url: BASE.to_string(),
        mode: Mode::OfflinePrepare,
        cache_root: None,
        offline_root: Some("icons".to_string()),
    };
    let serve = Config {
        base_url: BASE.to_string(),
        mode: Mode::OfflineServe,
        cache_root: None,
        offline_root: Some("icons".to_string()),
    };
    let req = parse_reference("mdi:home").unwrap();
    let mut drv = Driver::new(Some(SVG));

    let prepared = drv.resolve(&prepare, &req).unwrap();
    assert_eq!(prepared, SVG);
    assert_eq!(drv.offline_writes, 1);

    drv.remote_body = None;  // any further fetch would now fail
    let served = drv.resolve(&serve, &req).unwrap();
    assert_eq!(served, SVG);
    assert_eq!(drv.fetches, 1, "serving afterwards must not fetch");
}

#[test]
fn test_pack_not_found_fail() {
    let config = live_config(None);
    let req = parse_reference("this-is-not:an-icon-i-hope").unwrap();
    assert_eq!(
        req.icon_url(BASE).unwrap(),
        "https://api.iconify.design/this-is-not/an-icon-i-hope.svg?"
    );
    let mut drv = Driver::new(Some("404"));

    let err = drv.resolve(&config, &req).unwrap_err();
    match err {
        ResolutionError::IconNotFound { pack, name } => {
            assert_eq!(pack, "this-is-not");
            assert_eq!(name, "an-icon-i-hope");
        }
        other => panic!("unexpected error: {:?}", other),
    }
}

#[test]
fn the_not_found_sentinel_is_never_cached() {
    let config = live_config(Some("/tmp/cache"));
    let req = parse_reference("mdi:home").unwrap();
    let mut drv = Driver::new(Some("404"));

    let err = drv.resolve(&config, &req).unwrap_err();
    assert!(matches!(err, ResolutionError::IconNotFound { .. }));
    assert_eq!(drv.cache_writes, 0, "the sentinel body must not be stored");
    assert_eq!(drv.offline_writes, 0);

    // a later, successful fetch is not shadowed by any stored sentinel
    drv.remote_body = Some(SVG.to_string());
    assert_eq!(drv.resolve(&config, &req).unwrap(), SVG);
    assert_eq!(drv.fetches, 2);
}

#[test]
fn offline_prepare_with_cache_writes_both_stores() {
    let prepare = Config {
        base_url: BASE.to_string(),
        mode: Mode::OfflinePrepare,
        cache_root: Some("/tmp/cache".to_string()),
        offline_root: Some("icons".to_string()),
    };
    let req = parse_reference("mdi:home").unwrap();
    let mut drv = Driver::new(Some(SVG));

    assert_eq!(drv.resolve(&prepare, &req).unwrap(), SVG);
    assert_eq!(drv.fetches, 1);
    assert_eq!(drv.cache_writes, 1);
    assert_eq!(drv.offline_writes, 1);

    // both stores now answer for the same key
    let key = {
        let (res, _) = start(&prepare, &req);
        res.key
    };
    assert_eq!(drv.cache.lookup("mdi", "home", &key).unwrap(), SVG);
    assert_eq!(drv.offline.lookup("mdi", "home", &key).unwrap(), SVG);
}

#[test]
fn a_failed_cache_read_surfaces_an_io_error() {
    let config = live_config(Some("/tmp/cache"));
    let req = parse_reference("mdi:home").unwrap();

    let (res, action) = start(&config, &req);
    let path = match action {
        Action::ReadCache { path } => path,
        other => panic!("expected a cache read, got {:?}", other),
    };
    let (_, action) = res.step(Event::ReadFailed {
        reason: "permission denied".to_string(),
    });
    match action {
        Action::Fail {
            error: ResolutionError::IoError { path: p, reason },
        } => {
            assert_eq!(p, path);
            assert_eq!(reason, "permission denied");
        }
        other => panic!("unexpected action: {:?}", other),
    }
}

#[test]
fn a_failed_cache_write_surfaces_an_io_error() {
    let config = live_config(Some("/tmp/cache"));
    let req = parse_reference("mdi:home").unwrap();

    let (res, _) = start(&config, &req);
    let (res, _) = res.step(Event::Miss);
    let (res, action) = res.step(Event::Fetched {
        body: SVG.to_string(),
    });
    assert!(matches!(action, Action::WriteCache { .. }));
    let (_, action) = res.step(Event::WriteFailed {
        reason: "disk full".to_string(),
    });
    match action {
        Action::Fail {
            error: ResolutionError::IoError { reason, .. },
        } => assert_eq!(reason, "disk full"),
        other => panic!("unexpected action: {:?}", other),
    }
}

#[test]
fn transport_failure_surfaces_its_reason() {
    let config = live_config(None);
    let req = parse_reference("mdi:home").unwrap();
    let mut drv = Driver::new(None);

    let err = drv.resolve(&config, &req).unwrap_err();
    match err {
        ResolutionError::FetchFailed { reason } => assert_eq!(reason, "connection refused"),
        other => panic!("unexpected error: {:?}", other),
    }
}
