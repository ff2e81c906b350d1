use geph_tui::keys::{Key, KeyEnv, KeyOutcome};
use geph_tui::state::{AccountLevel, AppState, Focus, TabIdx, TuiPrefs};

fn prefs_with_level(level: Option<&str>) -> TuiPrefs {
    TuiPrefs {
        secret: "s3cret".to_string(),
        socks_port: "1080".to_string(),
        http_port: "8080".to_string(),
        listen_all: true,
        enable_debug_log: true,
        allow_direct: false,
        selected_country: Some("JP".to_string()),
        last_known_level: level.map(|l| l.to_string()),
        last_connected_secret: Some("old".to_string()),
    }
}

#[test]
fn fresh_prefs_have_default_ports() {
    let p = TuiPrefs::fresh();
    assert_eq!(p.secret, "");
    assert_eq!(p.socks_port, "9909");
    assert_eq!(p.http_port, "9910");
    assert!(!p.listen_all && !p.allow_direct && !p.enable_debug_log);
    assert!(p.selected_country.is_none());
    assert!(p.last_known_level.is_none());
}

#[test]
fn loaded_prefs_win_over_fresh_ones() {
    let p = TuiPrefs::from_loaded(Some(prefs_with_level(Some("Plus"))));
    assert_eq!(p.socks_port, "1080");
    let q = TuiPrefs::from_loaded(None);
    assert_eq!(q.http_port, "9910");
}

#[test]
fn default_prefs_are_empty() {
    let p = TuiPrefs::default();
    assert_eq!(p.socks_port, "");
    assert_eq!(p.http_port, "");
}

#[test]
fn start_state_takes_prefs() {
    let s = AppState::new(prefs_with_level(Some("Plus")));
    assert_eq!(s.tab, TabIdx::Status);
    assert_eq!(s.secret, "s3cret");
    assert_eq!(s.last_detected_level, AccountLevel::Plus);
    assert_eq!(s.selected_country.as_deref(), Some("JP"));
    assert_eq!(s.last_switch_target.as_deref(), Some("JP"));
    assert_eq!(s.focus, Focus::NoField);
    assert!(s.debug_auto_scroll);
    assert!(s.countries.is_empty());
}

#[test]
fn prefs_survive_restart() {
    let p = prefs_with_level(Some("Plus"));
    let back = AppState::new(prefs_with_level(Some("Plus"))).to_prefs();
    assert_eq!(back.secret, p.secret);
    assert_eq!(back.socks_port, p.socks_port);
    assert_eq!(back.http_port, p.http_port);
    assert_eq!(back.listen_all, p.listen_all);
    assert_eq!(back.enable_debug_log, p.enable_debug_log);
    assert_eq!(back.allow_direct, p.allow_direct);
    assert_eq!(back.selected_country, p.selected_country);
    assert_eq!(back.last_known_level.as_deref(), Some("Plus"));
    assert_eq!(back.last_connected_secret, p.last_connected_secret);
}

#[test]
fn unknown_level_names_read_back_as_free() {
    let s = AppState::new(prefs_with_level(Some("Gold")));
    assert_eq!(s.last_detected_level, AccountLevel::Free);
    assert_eq!(s.to_prefs().last_known_level.as_deref(), Some("Free"));
    let t = AppState::new(prefs_with_level(None));
    assert_eq!(t.to_prefs().last_known_level.as_deref(), Some("Free"));
}

#[test]
fn persisted_prefs_are_stable() {
    let mut s = AppState::new(TuiPrefs::fresh());
    let env = KeyEnv { now_ms: 0, log_len: 0 };
    s.handle_global_key(Key::Char('3'), env);
    s.handle_global_key(Key::Char('l'), env);
    let p1 = s.to_prefs();
    let p2 = AppState::new(p1.duplicate()).to_prefs();
    assert_eq!(p1.listen_all, p2.listen_all);
    assert_eq!(p1.last_known_level, p2.last_known_level);
    assert_eq!(p1.socks_port, p2.socks_port);
}

#[test]
fn tab_positions_follow_the_tab_bar() {
    assert_eq!(TabIdx::Status.position(), 0);
    assert_eq!(TabIdx::Nodes.position(), 1);
    assert_eq!(TabIdx::Config.position(), 2);
    assert_eq!(TabIdx::Debug.position(), 3);
    assert_eq!(TabIdx::Plus.position(), 4);
}

#[test]
fn duplicate_copies_every_field() {
    let p = prefs_with_level(Some("Plus"));
    let q = p.duplicate();
    assert_eq!(q.secret, p.secret);
    assert_eq!(q.last_connected_secret, p.last_connected_secret);
    assert_eq!(q.selected_country, p.selected_country);
}

#[test]
fn quit_key_changes_nothing() {
    let mut s = AppState::new(TuiPrefs::fresh());
    let out = s.handle_global_key(Key::Char('q'), KeyEnv { now_ms: 0, log_len: 0 });
    assert!(matches!(out, KeyOutcome::Quit));
    assert_eq!(s.tab, TabIdx::Status);
}
