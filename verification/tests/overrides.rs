use toolchain_resolver::active::{choose_active, confirm_active, ActiveToolchain, OverrideReason};
use toolchain_resolver::errors::{Error, ErrorKind};
use toolchain_resolver::overrides::{probe_of, DirectoryProbe, OverrideEntry, OverrideStore};
use toolchain_resolver::report::{Level, Message};
use toolchain_resolver::unset::{
    override_remove, select_paths, unset_mode, UnsetMode, UnsetNotice, UnsetTarget,
};

fn entry(path: &str, toolchain: &str) -> OverrideEntry {
    OverrideEntry { path: path.to_string(), toolchain: toolchain.to_string() }
}

fn probe(path: &str, is_dir: bool) -> DirectoryProbe {
    DirectoryProbe { path: path.to_string(), is_dir }
}

fn store(entries: &[(&str, &str)]) -> OverrideStore {
    OverrideStore::from_entries(entries.iter().map(|(p, t)| entry(p, t)).collect()).unwrap()
}

fn names(list: &[&str]) -> Vec<String> {
    list.iter().map(|s| s.to_string()).collect()
}

#[test]
fn nonexistent_selection_keeps_only_what_is_gone() {
    let s = store(&[("/tmp/a", "stable"), ("/deleted/b", "nightly")]);
    let probes = vec![probe("/tmp/a", true), probe("/deleted/b", false)];
    assert_eq!(s.nonexistent_paths(&probes), names(&["/deleted/b"]));
    assert_eq!(select_paths(&s, &UnsetTarget::Nonexistent(probes)), names(&["/deleted/b"]));
}

#[test]
fn nonexistent_selection_follows_store_order() {
    let s = store(&[("/z", "a"), ("/m", "b"), ("/a", "c"), ("/k", "d")]);
    let probes = vec![probe("/a", false), probe("/k", true), probe("/m", false), probe("/z", false)];
    assert_eq!(s.nonexistent_paths(&probes), names(&["/z", "/m", "/a"]));
}

#[test]
fn unprobed_paths_are_not_known_to_be_gone() {
    let s = store(&[("/a", "x"), ("/b", "y")]);
    assert_eq!(s.nonexistent_paths(&vec![probe("/b", false)]), names(&["/b"]));
    assert_eq!(s.nonexistent_paths(&Vec::new()), Vec::<String>::new());
    assert_eq!(s.nonexistent_paths(&vec![probe("/c", false)]), Vec::<String>::new());
}

#[test]
fn first_probe_of_a_path_counts() {
    let probes = vec![probe("/a", true), probe("/a", false), probe("/b", false)];
    assert_eq!(probe_of(&probes, "/a"), Some(true));
    assert_eq!(probe_of(&probes, "/b"), Some(false));
    assert_eq!(probe_of(&probes, "/c"), None);
}

#[test]
fn store_refuses_a_directory_bound_twice() {
    assert!(OverrideStore::from_entries(vec![entry("/a", "x"), entry("/a", "y")]).is_none());
    assert!(OverrideStore::from_entries(vec![entry("/a", "x"), entry("/b", "x")]).is_some());
    assert!(OverrideStore::from_entries(vec![
        entry("/a", "x"),
        entry("/b", "x"),
        entry("/c", "z"),
        entry("/b", "w")
    ])
    .is_none());
    assert_eq!(OverrideStore::from_entries(Vec::new()).unwrap(), OverrideStore::new());
    assert_eq!(OverrideStore::new().len(), 0);
}

#[test]
fn store_gives_back_its_entries_and_paths() {
    let s = store(&[("/b", "stable"), ("/a", "nightly")]);
    assert_eq!(s.len(), 2);
    assert_eq!(s.entries(), &vec![entry("/b", "stable"), entry("/a", "nightly")]);
    assert_eq!(s.paths(), names(&["/b", "/a"]));
    assert_eq!(s.toolchain_for("/a"), Some("nightly".to_string()));
    assert_eq!(s.toolchain_for("/b"), Some("stable".to_string()));
    assert_eq!(s.toolchain_for("/"), None);
    assert_eq!(s.toolchain_for("/a/"), None);
}

#[test]
fn removing_an_override_takes_only_that_entry() {
    let mut s = store(&[("/a", "x"), ("/b", "y"), ("/c", "z")]);
    assert!(s.remove_override("/b"));
    assert_eq!(s, store(&[("/a", "x"), ("/c", "z")]));
    assert!(s.remove_override("/a"));
    assert!(s.remove_override("/c"));
    assert_eq!(s, OverrideStore::new());
}

#[test]
fn removing_what_is_not_bound_changes_nothing() {
    let mut s = store(&[("/a", "x"), ("/b", "y")]);
    assert!(!s.remove_override("/c"));
    assert_eq!(s, store(&[("/a", "x"), ("/b", "y")]));
    assert!(s.remove_override("/a"));
    assert!(!s.remove_override("/a"));
    assert_eq!(s, store(&[("/b", "y")]));
}

#[test]
fn unset_of_a_named_path_reports_not_found_without_the_hint() {
    let mut s = store(&[("/a", "x")]);
    let notices = override_remove(&mut s, &UnsetTarget::Path("/missing".to_string()));
    assert_eq!(notices, vec![UnsetNotice::NotFound("/missing".to_string())]);
    assert_eq!(s, store(&[("/a", "x")]));
}

#[test]
fn unset_of_the_current_directory_hints_at_the_path_option() {
    let mut s = store(&[("/a", "x")]);
    let notices = override_remove(&mut s, &UnsetTarget::CurrentDir("/here".to_string()));
    assert_eq!(
        notices,
        vec![UnsetNotice::NotFound("/here".to_string()), UnsetNotice::PathHint]
    );
    assert_eq!(s, store(&[("/a", "x")]));
    let notices = override_remove(&mut s, &UnsetTarget::CurrentDir("/a".to_string()));
    assert_eq!(notices, vec![UnsetNotice::Removed("/a".to_string())]);
    assert_eq!(s.len(), 0);
}

#[test]
fn unset_of_a_named_path_removes_it() {
    let mut s = store(&[("/a", "x"), ("/b", "y")]);
    let notices = override_remove(&mut s, &UnsetTarget::Path("/a".to_string()));
    assert_eq!(notices, vec![UnsetNotice::Removed("/a".to_string())]);
    assert_eq!(s, store(&[("/b", "y")]));
}

#[test]
fn pruning_twice_finds_nothing_the_second_time() {
    let mut s = store(&[("/tmp/a", "stable"), ("/deleted/b", "nightly"), ("/deleted/c", "beta")]);
    let probes =
        vec![probe("/tmp/a", true), probe("/deleted/b", false), probe("/deleted/c", false)];
    let target = UnsetTarget::Nonexistent(probes);
    let first = override_remove(&mut s, &target);
    assert_eq!(
        first,
        vec![
            UnsetNotice::Removed("/deleted/b".to_string()),
            UnsetNotice::Removed("/deleted/c".to_string())
        ]
    );
    assert_eq!(s, store(&[("/tmp/a", "stable")]));
    assert_eq!(select_paths(&s, &target), Vec::<String>::new());
    let second = override_remove(&mut s, &target);
    assert_eq!(second, vec![UnsetNotice::NoNonexistentPaths]);
    assert_eq!(s, store(&[("/tmp/a", "stable")]));
}

#[test]
fn pruning_with_nothing_gone_is_reported_not_failed() {
    let mut s = store(&[("/a", "x")]);
    let notices = override_remove(&mut s, &UnsetTarget::Nonexistent(vec![probe("/a", true)]));
    assert_eq!(notices, vec![UnsetNotice::NoNonexistentPaths]);
    assert_eq!(s, store(&[("/a", "x")]));
    let mut empty = OverrideStore::new();
    assert_eq!(
        override_remove(&mut empty, &UnsetTarget::Nonexistent(Vec::new())),
        vec![UnsetNotice::NoNonexistentPaths]
    );
}

#[test]
fn unset_mode_prefers_nonexistent_then_path() {
    assert_eq!(unset_mode(true, true), UnsetMode::Nonexistent);
    assert_eq!(unset_mode(true, false), UnsetMode::Nonexistent);
    assert_eq!(unset_mode(false, true), UnsetMode::Path);
    assert_eq!(unset_mode(false, false), UnsetMode::CurrentDir);
}

#[test]
fn unset_notices_in_words() {
    let info = |text: &str| Message { level: Level::Info, text: text.to_string() };
    assert_eq!(UnsetNotice::NoNonexistentPaths.message(), info("no nonexistent paths detected"));
    assert_eq!(
        UnsetNotice::Removed("/a b".to_string()).message(),
        info("override toolchain for '/a b' removed")
    );
    assert_eq!(
        UnsetNotice::NotFound("/x".to_string()).message(),
        info("no override toolchain for '/x'")
    );
    assert_eq!(
        UnsetNotice::PathHint.message(),
        info("you may use `--path <path>` option to remove override toolchain for a specific path")
    );
}

#[test]
fn override_of_the_nearest_directory_is_active() {
    let s = store(&[("/home", "stable"), ("/home/me/project", "nightly")]);
    let dirs = names(&["/home/me/project/src", "/home/me/project", "/home/me", "/home", "/"]);
    assert_eq!(
        choose_active(&s, &dirs, Some("beta")),
        Some(ActiveToolchain {
            name: "nightly".to_string(),
            reason: Some(OverrideReason { directory: "/home/me/project".to_string() }),
        })
    );
    let dirs = names(&["/home/you", "/home", "/"]);
    assert_eq!(
        choose_active(&s, &dirs, Some("beta")),
        Some(ActiveToolchain {
            name: "stable".to_string(),
            reason: Some(OverrideReason { directory: "/home".to_string() }),
        })
    );
}

#[test]
fn default_is_active_without_an_override_and_without_a_reason() {
    let s = store(&[("/home/me", "nightly")]);
    let dirs = names(&["/srv", "/"]);
    assert_eq!(
        choose_active(&s, &dirs, Some("stable")),
        Some(ActiveToolchain { name: "stable".to_string(), reason: None })
    );
    assert_eq!(choose_active(&s, &dirs, None), None);
    assert_eq!(choose_active(&OverrideStore::new(), &Vec::new(), None), None);
}

#[test]
fn confirmed_toolchain_keeps_its_reason_and_failures_pass_through() {
    let chosen = ActiveToolchain {
        name: "nightly".to_string(),
        reason: Some(OverrideReason { directory: "/p".to_string() }),
    };
    assert_eq!(
        confirm_active(chosen.clone(), Ok("nightly-x86_64-unknown-linux-gnu".to_string())),
        Ok(ActiveToolchain {
            name: "nightly-x86_64-unknown-linux-gnu".to_string(),
            reason: Some(OverrideReason { directory: "/p".to_string() }),
        })
    );
    let failure = Error {
        kind: ErrorKind::ToolchainNotInstalled("nightly".to_string()),
        cause: Some("directory override for '/p'".to_string()),
    };
    assert_eq!(confirm_active(chosen, Err(failure.clone())), Err(failure));
}
