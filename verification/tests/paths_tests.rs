use kapsule::runtime::spec::{ConsoleSize, Process};
use kapsule::runtime::state::StateManager;
use kapsule::text::{path_join, split_once, str_eq};

#[test]
fn state_paths() {
    assert_eq!(StateManager::container_dir("a"), "/run/kapsule/a");
    assert_eq!(StateManager::state_file("a"), "/run/kapsule/a/state.json");
    assert_eq!(StateManager::pidfile("a"), "/run/kapsule/a/pidfile");
    // An absolute id replaces the state root, as paths do.
    assert_eq!(StateManager::container_dir("/tmp/x"), "/tmp/x");
    // An id ending in a separator shares the state file of the id without it.
    assert_eq!(StateManager::state_file("a/"), StateManager::state_file("a"));
    assert_eq!(StateManager::container_dir(""), "/run/kapsule/");
}

#[test]
fn joining_paths() {
    assert_eq!(path_join("a", "b"), "a/b");
    assert_eq!(path_join("a/", "b"), "a/b");
    assert_eq!(path_join("", "b"), "b");
    assert_eq!(path_join("a", "/b"), "/b");
    assert_eq!(path_join("a", ""), "a/");
}

#[test]
fn splitting_and_comparing() {
    assert_eq!(split_once("a/b/c", '/'), Some(("a", "b/c")));
    assert_eq!(split_once("abc", '/'), None);
    assert_eq!(split_once("/x", '/'), Some(("", "x")));
    assert_eq!(split_once("é:ü", ':'), Some(("é", "ü")));
    assert!(str_eq("abc", "abc"));
    assert!(!str_eq("abc", "abd"));
    assert!(!str_eq("abc", "ab"));
}

#[test]
fn spec_defaults() {
    let p = Process::default();
    assert!(!p.terminal);
    assert_eq!(p.console_size.height, 0);
    assert_eq!(p.console_size.width, 0);
    assert!(p.cwd.is_none());
    assert!(p.env.is_empty());
    assert!(p.args.is_empty());
    let c = ConsoleSize::default();
    assert_eq!((c.height, c.width), (0, 0));
}
