use coretools::enumerate::{Enumerator, Phase};
use coretools::errors::WatchError;
use coretools::session::configure;

fn roots(paths: &[&str]) -> Vec<String> {
    paths.iter().map(|p| p.to_string()).collect()
}

fn listing(entries: &[(&str, bool)]) -> Option<Vec<(String, bool)>> {
    Some(entries.iter().map(|(p, d)| (p.to_string(), *d)).collect())
}

/// Walk the tree `root/{a/, b/file.txt, c/d/}` recursively: every directory
/// receives a watch; the plain file receives none of its own.
#[test]
fn recursive_walk_watches_directories_not_files() {
    let mut en = Enumerator::new(roots(&["root"]), true);
    let mut next_handle: u64 = 1;
    let mut fatal = None;
    loop {
        let path = match en.next_request() {
            Some(p) => p,
            None => break,
        };
        // every simulated path exists; directories are everything without a dot
        let is_dir = !path.contains('.');
        en.on_stat(true, is_dir);
        if let Some(e) = en.on_watch(Some(next_handle)) {
            panic!("unexpected watch failure: {}", e.message());
        }
        next_handle += 1;
        if is_dir {
            let children = match path.as_str() {
                "root" => listing(&[("root/a", true), ("root/b", true), ("root/c", true)]),
                "root/a" => listing(&[]),
                "root/b" => listing(&[("root/b/file.txt", false)]),
                "root/c" => listing(&[("root/c/d", true)]),
                "root/c/d" => listing(&[]),
                other => panic!("unexpected listing request for {}", other),
            };
            if let Some(e) = en.on_list(children) {
                fatal = Some(e);
                break;
            }
        }
    }
    assert!(fatal.is_none());
    assert!(matches!(en.phase, Phase::Done));
    // handles were assigned in visit order: root, then depth first
    assert_eq!(en.registry.len(), 5);
    assert_eq!(en.registry.resolve(1), "root");
    assert_eq!(en.registry.resolve(2), "root/a");
    assert_eq!(en.registry.resolve(3), "root/b");
    assert_eq!(en.registry.resolve(4), "root/c");
    assert_eq!(en.registry.resolve(5), "root/c/d");
    // the plain file was never watched
    for h in 1..=5u64 {
        assert_ne!(en.registry.resolve(h), "root/b/file.txt");
    }
}

/// A directory that cannot be listed aborts the whole run, even though
/// earlier paths were already registered.
#[test]
fn unlistable_directory_is_fatal() {
    let mut en = Enumerator::new(roots(&["root"]), true);
    let p = en.next_request().unwrap();
    assert_eq!(p, "root");
    en.on_stat(true, true);
    en.on_watch(Some(1));
    en.on_list(listing(&[("root/a", true), ("root/c", true)]));
    let p = en.next_request().unwrap();
    assert_eq!(p, "root/a");
    en.on_stat(true, true);
    en.on_watch(Some(2));
    en.on_list(listing(&[]));
    let p = en.next_request().unwrap();
    assert_eq!(p, "root/c");
    en.on_stat(true, true);
    en.on_watch(Some(3));
    // root/c cannot be listed: fatal for the whole run
    let e = en.on_list(None).expect("listing failure must be reported");
    assert!(matches!(e, WatchError::Enumeration { .. }));
    assert!(e.is_fatal());
    assert_eq!(e.message(), "error when reading directory root/c");
    assert!(matches!(en.phase, Phase::Failed));
    // root/a had already been registered before the failure
    assert_eq!(en.registry.resolve(2), "root/a");
}

/// A path that cannot be queried is skipped; the remaining inputs are still
/// enumerated and watched.
#[test]
fn unreachable_input_is_skipped_not_fatal() {
    let mut en = Enumerator::new(roots(&["gone", "here"]), false);
    let p = en.next_request().unwrap();
    assert_eq!(p, "gone");
    let e = en.on_stat(false, false).expect("a stat failure must be reported");
    assert!(matches!(e, WatchError::PathUnavailable { .. }));
    assert!(!e.is_fatal());
    assert_eq!(e.message(), "error when getting metadata of gone");
    let p = en.next_request().unwrap();
    assert_eq!(p, "here");
    assert!(en.on_stat(true, false).is_none());
    assert!(en.on_watch(Some(7)).is_none());
    assert!(en.next_request().is_none());
    assert!(matches!(en.phase, Phase::Done));
    assert_eq!(en.registry.len(), 1);
    assert_eq!(en.registry.resolve(7), "here");
}

/// A refused watch is reported and skipped without stopping the run.
#[test]
fn refused_watch_is_skipped() {
    let mut en = Enumerator::new(roots(&["x", "y"]), false);
    en.next_request().unwrap();
    en.on_stat(true, false);
    let e = en.on_watch(None).expect("a refused watch must be reported");
    assert!(matches!(e, WatchError::WatchCreation { .. }));
    assert!(!e.is_fatal());
    en.next_request().unwrap();
    en.on_stat(true, false);
    assert!(en.on_watch(Some(2)).is_none());
    assert!(en.next_request().is_none());
    assert_eq!(en.registry.len(), 1);
    assert_eq!(en.registry.resolve(2), "y");
}

/// Without recursion a directory's children are not visited.
#[test]
fn non_recursive_walk_stays_at_the_root() {
    let mut en = Enumerator::new(roots(&["top"]), false);
    let p = en.next_request().unwrap();
    assert_eq!(p, "top");
    en.on_stat(true, true);
    assert!(en.on_watch(Some(1)).is_none());
    // no listing request follows: the machine asks for the next path
    assert!(en.next_request().is_none());
    assert!(matches!(en.phase, Phase::Done));
    assert_eq!(en.registry.len(), 1);
}

/// A refused filter token stops setup before any enumerator exists.
#[test]
fn configuration_error_precedes_any_watch() {
    let events = vec!["create".to_string(), "frobnicate".to_string()];
    let r = configure(&events, roots(&["root"]), true);
    match r {
        Err(WatchError::Configuration { token }) => assert_eq!(token, "frobnicate"),
        _ => panic!("expected a configuration error"),
    }
    // with recognized tokens the enumerator starts with an empty registry
    let events = vec!["create".to_string()];
    let (m, en) = configure(&events, roots(&["root"]), true).unwrap();
    assert_eq!(m, coretools::mask::CREATE);
    assert_eq!(en.registry.len(), 0);
}

/// With no input paths the machine finishes at once, without a single watch.
#[test]
fn empty_input_set_finishes_without_watching() {
    let mut en = Enumerator::new(Vec::new(), true);
    assert!(en.next_request().is_none());
    assert!(matches!(en.phase, Phase::Done));
    assert_eq!(en.registry.len(), 0);
}
