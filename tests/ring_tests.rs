use e2s::ssh_keys::{expand_home_dir, KeyConfig, SshKeys};
use e2s::ssh_user::SshUsers;

fn ring(items: &[&str]) -> SshKeys {
    SshKeys::load(items.iter().map(|s| s.to_string()).collect(), vec![], None, None)
}

#[test]
fn previous_wraps_backward_from_first() {
    let mut r = ring(&["keyA", "keyB"]);
    assert_eq!(r.selected_key.as_deref(), Some("keyA"));
    r.previous();
    assert_eq!(r.selected_key.as_deref(), Some("keyB"));
}

#[test]
fn next_then_previous_restores() {
    let mut r = ring(&["k1", "k2", "k3"]);
    r.next();
    assert_eq!(r.selected_key.as_deref(), Some("k2"));
    r.previous();
    assert_eq!(r.selected_key.as_deref(), Some("k1"));
    r.previous();
    r.next();
    assert_eq!(r.selected_key.as_deref(), Some("k1"));
}

#[test]
fn next_len_times_returns_to_start() {
    let mut r = ring(&["k1", "k2", "k3"]);
    r.next();
    for _ in 0..r.len() {
        r.next();
    }
    assert_eq!(r.selected_key.as_deref(), Some("k2"));
    assert_eq!(r.get_current_index(), 1);
}

#[test]
fn empty_ring_stays_empty() {
    let mut r = ring(&[]);
    assert!(r.is_empty());
    assert_eq!(r.len(), 0);
    r.next();
    assert_eq!(r.selected_key, None);
    r.previous();
    assert_eq!(r.selected_key, None);
    assert_eq!(r.get_current_index(), 0);
}

#[test]
fn stale_selection_counts_as_first() {
    let mut r = ring(&["k1", "k2", "k3"]);
    r.selected_key = Some("gone".to_string());
    assert_eq!(r.get_current_index(), 0);
    r.next();
    assert_eq!(r.selected_key.as_deref(), Some("k2"));
    let mut u = SshUsers::load(None);
    u.selected_user = Some("gone".to_string());
    u.previous();
    assert_eq!(u.selected_user.as_deref(), Some("ubuntu"));
}

#[test]
fn keys_load_merges_without_duplicates() {
    let found = vec!["/h/.ssh/a".to_string(), "/h/.ssh/b".to_string()];
    let extra = vec!["/h/.ssh/b".to_string(), "/keys/work".to_string()];
    let r = SshKeys::load(found, extra, None, None);
    assert_eq!(r.keys, vec!["/h/.ssh/a", "/h/.ssh/b", "/keys/work"]);
    assert_eq!(r.selected_key.as_deref(), Some("/h/.ssh/a"));
}

#[test]
fn keys_default_by_file_name() {
    let found = vec!["/h/.ssh/id_ed25519".to_string(), "/h/.ssh/id_rsa".to_string()];
    let r = SshKeys::load(found, vec![], Some("id_rsa".to_string()), None);
    assert_eq!(r.selected_key.as_deref(), Some("/h/.ssh/id_rsa"));
    let found = vec!["/h/.ssh/id_ed25519".to_string()];
    let r = SshKeys::load(found, vec![], Some("id_rsa".to_string()), None);
    assert_eq!(r.selected_key.as_deref(), Some("/h/.ssh/id_ed25519"));
}

#[test]
fn keys_default_by_path_with_home() {
    let found = vec!["/h/.ssh/a".to_string()];
    let extra = vec!["/home/me/work/key".to_string()];
    let r = SshKeys::load(found, extra, Some("~/work/key".to_string()), Some("/home/me".to_string()));
    assert_eq!(r.selected_key.as_deref(), Some("/home/me/work/key"));
    let found = vec!["/h/.ssh/a".to_string()];
    let r = SshKeys::load(found, vec![], Some("/not/there".to_string()), None);
    assert_eq!(r.selected_key.as_deref(), Some("/h/.ssh/a"));
}

#[test]
fn expand_home_replaces_leading_tilde() {
    let home = Some("/home/me".to_string());
    assert_eq!(expand_home_dir("~/keys/k", &home), "/home/me/keys/k");
    assert_eq!(expand_home_dir("~keys", &home), "~keys");
    assert_eq!(expand_home_dir("/abs/~/k", &home), "/abs/~/k");
    assert_eq!(expand_home_dir("~/keys/k", &None), "~/keys/k");
}

#[test]
fn key_config_default_is_empty() {
    let c = KeyConfig::default();
    assert!(c.default_key.is_none());
    assert!(c.additional_keys.is_empty());
}
