use std::collections::HashSet;
use std::path::Path;

use flatpak_ext::{InstallationTarget, Repo};

fn temp_path(repo: &Repo) -> String {
    match repo {
        Repo::Temp(p) => p.clone(),
        other => panic!("not a temporary repo: {:?}", other),
    }
}

fn assert_temp_leaf(leaf: &str) {
    assert_eq!(leaf.chars().count(), 11);
    assert!(leaf.starts_with(".tmp"));
    assert!(leaf[4..].chars().all(|c| c.is_ascii_alphanumeric()));
}

#[test]
fn temp_in_makes_entry_directly_inside_base() {
    let repo = Repo::temp_in("/var/tmp/repos".to_string());
    let p = temp_path(&repo);
    let leaf = p.strip_prefix("/var/tmp/repos/").expect("inside base");
    assert_temp_leaf(leaf);
    assert_eq!(Path::new(&p).parent(), Some(Path::new("/var/tmp/repos")));
}

#[test]
fn temp_in_base_with_trailing_separator() {
    let p = temp_path(&Repo::temp_in("/var/tmp/repos/".to_string()));
    let leaf = p.strip_prefix("/var/tmp/repos/").expect("inside base");
    assert_temp_leaf(leaf);
    assert_eq!(Path::new(&p).parent(), Some(Path::new("/var/tmp/repos/")));
}

#[test]
fn temp_in_relative_and_empty_base() {
    let p = temp_path(&Repo::temp_in("work".to_string()));
    assert_temp_leaf(p.strip_prefix("work/").expect("inside base"));
    let p = temp_path(&Repo::temp_in(String::new()));
    assert_temp_leaf(&p);
    assert_eq!(Path::new(&p).parent(), Some(Path::new("")));
}

#[test]
fn temp_in_matches_std_join() {
    for base in ["/tmp", "/tmp/", "a/b", ""] {
        let p = temp_path(&Repo::temp_in(base.to_string()));
        let leaf = Path::new(&p).file_name().unwrap().to_str().unwrap().to_string();
        assert_eq!(Path::new(base).join(&leaf), Path::new(&p));
    }
}

#[test]
fn temp_in_paths_do_not_collide() {
    let mut seen = HashSet::new();
    for _ in 0..10_000 {
        let p = temp_path(&Repo::temp_in("/tmp".to_string()));
        assert!(seen.insert(p), "two temporary repos got the same path");
    }
}

#[test]
fn default_repo_is_system() {
    assert!(matches!(Repo::default(), Repo::System));
}

#[test]
fn installation_targets() {
    assert_eq!(
        Repo::Temp("/tmp/.tmpabcdefg".to_string()).installation_target(),
        InstallationTarget::AtPath { path: "/tmp/.tmpabcdefg".to_string(), user: true }
    );
    assert_eq!(
        Repo::Static { path: "/opt/flatpak".to_string(), user: false }.installation_target(),
        InstallationTarget::AtPath { path: "/opt/flatpak".to_string(), user: false }
    );
    assert_eq!(
        Repo::Static { path: "/home/u/.flatpak".to_string(), user: true }.installation_target(),
        InstallationTarget::AtPath { path: "/home/u/.flatpak".to_string(), user: true }
    );
    assert_eq!(Repo::System.installation_target(), InstallationTarget::System);
    assert_eq!(Repo::User.installation_target(), InstallationTarget::User);
}

#[test]
fn installation_target_leaves_repo_unchanged() {
    let repo = Repo::temp_in("/tmp".to_string());
    let first = repo.installation_target();
    let second = repo.installation_target();
    assert_eq!(first, second);
    assert_eq!(first, InstallationTarget::AtPath { path: temp_path(&repo), user: true });
}

#[test]
fn only_temporary_repos_are_disposed() {
    assert_eq!(
        Repo::Temp("/tmp/.tmpabcdefg".to_string()).disposal_path(),
        Some("/tmp/.tmpabcdefg".to_string())
    );
    assert_eq!(Repo::System.disposal_path(), None);
    assert_eq!(Repo::User.disposal_path(), None);
    assert_eq!(Repo::Static { path: "/opt/flatpak".to_string(), user: false }.disposal_path(), None);
}
