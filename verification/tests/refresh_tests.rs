use geph_tui::refresh::{offered_countries, ExitSummary, RegistrationProgress, UserSnapshot};
use geph_tui::render::{notice_message, plus_status_message, registration_message};
use geph_tui::replies::{round_days, RpcReply};
use geph_tui::state::{AccountLevel, AppState, LevelNotice, TabIdx, TuiPrefs};

fn exit(cc: &str, levels: &[AccountLevel]) -> ExitSummary {
    ExitSummary { country: cc.to_string(), allowed_levels: levels.to_vec() }
}

fn state() -> AppState {
    AppState::new(TuiPrefs::fresh())
}

#[test]
fn countries_are_filtered_sorted_and_unique() {
    let (free, plus) = (AccountLevel::Free, AccountLevel::Plus);
    let exits = vec![
        exit("US", &[free, plus]),
        exit("CA", &[free]),
        exit("US", &[free]),
        exit("DE", &[plus]),
        exit("AT", &[]),
    ];
    assert_eq!(offered_countries(&exits, free), vec!["CA".to_string(), "US".to_string()]);
    assert_eq!(offered_countries(&exits, plus), vec!["DE".to_string(), "US".to_string()]);
    assert!(offered_countries(&Vec::new(), plus).is_empty());
}

#[test]
fn refresh_countries_replaces_the_list_only() {
    let mut s = state();
    s.tab = TabIdx::Nodes;
    s.countries = vec!["ZZ".to_string()];
    s.refresh_countries(&vec![exit("JP", &[AccountLevel::Free]), exit("BR", &[AccountLevel::Free])], AccountLevel::Free);
    assert_eq!(s.countries, vec!["BR".to_string(), "JP".to_string()]);
    assert_eq!(s.tab, TabIdx::Nodes);
}

#[test]
fn level_follows_expiry_while_running() {
    let mut s = state();
    s.set_daemon_running(true);
    let now = 1_700_000_000u64;
    let level = s.refresh_account(Some(UserSnapshot { plus_expires_unix: Some(now + 86400 * 3) }), now);
    assert_eq!(level, AccountLevel::Plus);
    assert_eq!(s.last_detected_level, AccountLevel::Plus);
    assert!(s.needs_cache_clear);
    assert_eq!(s.level_notice, Some(LevelNotice::VipDetected));
    assert_eq!(s.plus_remaining_secs, Some(86400 * 3));
    assert_eq!(s.poll_plus_prev_expires, None);
    // the next refresh keeps the earlier days for comparison
    let again = s.refresh_account(Some(UserSnapshot { plus_expires_unix: Some(now) }), now);
    assert_eq!(again, AccountLevel::Free);
    assert_eq!(s.poll_plus_prev_expires, Some(3));
    assert_eq!(s.plus_remaining_secs, Some(0));
    assert_eq!(s.level_notice, Some(LevelNotice::VipExpired));
}

#[test]
fn no_report_keeps_level() {
    let mut s = state();
    s.set_daemon_running(true);
    let level = s.refresh_account(None, 5);
    assert_eq!(level, AccountLevel::Free);
    assert!(!s.needs_cache_clear);
    assert!(s.level_notice.is_none());
}

#[test]
fn stopped_daemon_keeps_level() {
    let mut s = state();
    let level = s.refresh_account(Some(UserSnapshot { plus_expires_unix: Some(u64::MAX) }), 5);
    assert_eq!(level, AccountLevel::Free);
    assert!(s.plus_remaining_secs.is_none());
}

#[test]
fn wants_user_info_needs_running_daemon_and_secret() {
    let mut s = state();
    assert!(!s.wants_user_info());
    s.set_daemon_running(true);
    assert!(!s.wants_user_info());
    s.secret = "x".to_string();
    assert!(s.wants_user_info());
}

#[test]
fn plus_poll_reports_extension() {
    let mut s = state();
    s.poll_plus_until = Some(60_000);
    s.poll_plus_prev_expires = Some(2);
    s.plus_remaining_secs = Some(86400 * 2);
    s.check_plus_poll(1_000);
    assert_eq!(s.poll_plus_until, Some(60_000));
    s.plus_remaining_secs = Some(86400 * 32);
    s.check_plus_poll(2_000);
    assert!(s.poll_plus_until.is_none());
    assert_eq!(plus_status_message(&s.plus_action_status), "Plus subscription extended! ✓");
}

#[test]
fn plus_poll_ends_after_window() {
    let mut s = state();
    s.poll_plus_until = Some(60_000);
    s.check_plus_poll(60_000 + 300_000);
    assert!(s.poll_plus_until.is_none());
    assert_eq!(plus_status_message(&s.plus_action_status), "");
}

#[test]
fn switch_settles_after_three_seconds() {
    let mut s = state();
    s.switch_in_progress = true;
    s.switch_started_at = Some(10_000);
    s.settle_switch(12_999);
    assert!(s.switch_in_progress);
    s.settle_switch(13_000);
    assert!(!s.switch_in_progress);
    s.switch_in_progress = true;
    s.switch_started_at = None;
    s.settle_switch(0);
    assert!(!s.switch_in_progress);
}

#[test]
fn price_lists_are_loaded_once() {
    let mut s = state();
    s.tab = TabIdx::Plus;
    assert!(!s.wants_price_points());
    s.set_daemon_running(true);
    assert!(s.wants_price_points());
    assert!(s.wants_payment_methods());
    s.load_price_points(vec![(30, 500)]);
    s.load_price_points(vec![(1, 1), (2, 2)]);
    assert_eq!(s.price_points, vec![(30, 500)]);
    assert!(!s.wants_price_points());
    s.load_payment_methods(vec!["card".to_string()]);
    s.load_payment_methods(vec![]);
    assert_eq!(s.payment_methods, vec!["card".to_string()]);
}

#[test]
fn registration_progress_and_completion() {
    let mut s = state();
    s.registration_started(RpcReply::Done(4));
    assert_eq!(s.registration_idx, Some(4));
    assert_eq!(registration_message(&s.registration_status), "Registration started...");
    let done = s.registration_polled(RpcReply::Done(RegistrationProgress {
        secret: None,
        percent_text: "42.0".to_string(),
    }));
    assert!(!done);
    assert_eq!(registration_message(&s.registration_status), "Registering... 42.0%");
    s.set_daemon_running(true);
    s.last_detected_level = AccountLevel::Plus;
    let done = s.registration_polled(RpcReply::Done(RegistrationProgress {
        secret: Some("NEWSECRET".to_string()),
        percent_text: "100.0".to_string(),
    }));
    assert!(done);
    assert_eq!(s.secret, "NEWSECRET");
    assert_eq!(s.last_detected_level, AccountLevel::Free);
    assert!(s.needs_cache_clear);
    assert!(s.registration_idx.is_none());
    assert_eq!(registration_message(&s.registration_status), "Registration complete!");
    assert_eq!(
        notice_message(s.level_notice.unwrap()),
        "New account registered. Press 'x' then 's' to reconnect."
    );
}

#[test]
fn registration_failures() {
    let mut s = state();
    assert!(!s.registration_daemon_started(Err("no binary".to_string())));
    assert_eq!(registration_message(&s.registration_status), "Daemon failed to start: no binary");
    assert!(s.registration_daemon_started(Ok(true)));
    assert!(s.is_running);
    s.registration_started(RpcReply::Rejected("busy".to_string()));
    assert_eq!(registration_message(&s.registration_status), "Failed to start: busy");
    s.registration_started(RpcReply::Failed("eof".to_string()));
    assert_eq!(registration_message(&s.registration_status), "RPC error: eof");
    s.registration_started(RpcReply::Done(1));
    s.registration_polled(RpcReply::Failed("eof".to_string()));
    assert_eq!(s.registration_idx, Some(1));
    s.set_daemon_running(false);
    s.registration_polled(RpcReply::Failed("eof".to_string()));
    assert!(s.registration_idx.is_none());
    assert_eq!(registration_message(&s.registration_status), "Daemon stopped during registration.");
    s.registration_started(RpcReply::Done(2));
    s.registration_polled(RpcReply::Rejected("captcha".to_string()));
    assert!(s.registration_idx.is_none());
    assert_eq!(registration_message(&s.registration_status), "Registration failed: captcha");
}

#[test]
fn days_round_half_up() {
    assert_eq!(round_days(0), 0);
    assert_eq!(round_days(43_199), 0);
    assert_eq!(round_days(43_200), 1);
    assert_eq!(round_days(86_400 * 5 + 43_199), 5);
    assert_eq!(round_days(u64::MAX), 213_503_982_334_601);
}

#[test]
fn news_is_fetched_once_while_running() {
    let mut s = state();
    assert!(!s.wants_news(false));
    s.set_daemon_running(true);
    assert!(s.wants_news(false));
    assert!(!s.wants_news(true));
}
