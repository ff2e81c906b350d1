use geph_tui::keys::{FocusedAction, Key, KeyDispatch, KeyEnv, KeyOutcome};
use geph_tui::render::plus_status_message;
use geph_tui::replies::RpcReply;
use geph_tui::state::{AppState, Focus, TabIdx, TuiPrefs};

fn env(now_ms: u64) -> KeyEnv {
    KeyEnv { now_ms, log_len: 0 }
}

fn state() -> AppState {
    AppState::new(TuiPrefs::fresh())
}

fn status(s: &AppState) -> String {
    plus_status_message(&s.plus_action_status)
}

#[test]
fn digits_select_tabs() {
    let mut s = state();
    for (c, t) in [
        ('2', TabIdx::Nodes),
        ('3', TabIdx::Config),
        ('4', TabIdx::Debug),
        ('5', TabIdx::Plus),
        ('1', TabIdx::Status),
    ] {
        let out = s.handle_global_key(Key::Char(c), env(0));
        assert!(matches!(out, KeyOutcome::Continue));
        assert_eq!(s.tab, t);
    }
}

#[test]
fn toggles_undo_themselves() {
    let mut s = state();
    s.handle_global_key(Key::Char('3'), env(0));
    s.handle_global_key(Key::Char('l'), env(0));
    assert!(s.listen_all);
    s.handle_global_key(Key::Char('l'), env(0));
    assert!(!s.listen_all);
    s.handle_global_key(Key::Char('b'), env(0));
    assert!(s.allow_direct);
    s.handle_global_key(Key::Char('b'), env(0));
    assert!(!s.allow_direct);
    s.handle_global_key(Key::Char('4'), env(0));
    s.handle_global_key(Key::Char('d'), env(0));
    assert!(s.enable_debug_log);
    s.handle_global_key(Key::Char('d'), env(0));
    assert!(!s.enable_debug_log);
}

#[test]
fn config_letters_do_nothing_on_other_tabs() {
    let mut s = state();
    s.handle_global_key(Key::Char('l'), env(0));
    assert!(!s.listen_all);
    s.handle_global_key(Key::Char('e'), env(0));
    assert_eq!(s.focus, Focus::NoField);
}

#[test]
fn price_tiers_cycle() {
    let mut s = state();
    s.handle_global_key(Key::Char('5'), env(0));
    s.load_price_points(vec![(30, 500), (90, 1200), (365, 3999)]);
    s.handle_global_key(Key::Up, env(0));
    assert_eq!(s.selected_price_idx, 2);
    s.handle_global_key(Key::Down, env(0));
    assert_eq!(s.selected_price_idx, 0);
    s.handle_global_key(Key::Down, env(0));
    assert_eq!(s.selected_price_idx, 1);
    s.handle_global_key(Key::Up, env(0));
    assert_eq!(s.selected_price_idx, 0);
}

#[test]
fn payment_methods_cycle() {
    let mut s = state();
    s.handle_global_key(Key::Char('5'), env(0));
    s.load_payment_methods(vec!["card".to_string(), "alipay".to_string()]);
    s.handle_global_key(Key::Left, env(0));
    assert_eq!(s.selected_method_idx, 1);
    s.handle_global_key(Key::Right, env(0));
    assert_eq!(s.selected_method_idx, 0);
    s.handle_global_key(Key::Right, env(0));
    assert_eq!(s.selected_method_idx, 1);
}

#[test]
fn arrows_on_empty_plus_lists_do_nothing() {
    let mut s = state();
    s.handle_global_key(Key::Char('5'), env(0));
    s.handle_global_key(Key::Up, env(0));
    s.handle_global_key(Key::Left, env(0));
    assert_eq!(s.selected_price_idx, 0);
    assert_eq!(s.selected_method_idx, 0);
}

#[test]
fn node_selection_wraps() {
    let mut s = state();
    s.countries = vec!["CA".to_string(), "US".to_string()];
    s.handle_global_key(Key::Char('2'), env(0));
    s.handle_global_key(Key::Down, env(0));
    assert_eq!(s.node_selected, Some(0));
    s.handle_global_key(Key::Down, env(0));
    assert_eq!(s.node_selected, Some(1));
    s.handle_global_key(Key::Down, env(0));
    assert_eq!(s.node_selected, Some(0));
    s.handle_global_key(Key::Up, env(0));
    assert_eq!(s.node_selected, Some(1));
}

#[test]
fn node_up_with_nothing_selected_selects_first() {
    let mut s = state();
    s.handle_global_key(Key::Char('2'), env(0));
    s.handle_global_key(Key::Up, env(0));
    assert_eq!(s.node_selected, Some(0));
}

#[test]
fn enter_on_nodes_switches_exit_once() {
    let mut s = state();
    s.countries = vec!["CA".to_string(), "US".to_string()];
    s.handle_global_key(Key::Char('2'), env(0));
    s.handle_global_key(Key::Down, env(0));
    s.handle_global_key(Key::Down, env(0));
    let out = s.handle_global_key(Key::Enter, env(1234));
    match out {
        KeyOutcome::SwitchExit { target } => assert_eq!(target.as_deref(), Some("US")),
        _ => panic!("expected a switch"),
    }
    assert_eq!(s.selected_country.as_deref(), Some("US"));
    assert_eq!(s.last_switch_target.as_deref(), Some("US"));
    assert!(s.switch_in_progress);
    assert_eq!(s.switch_started_at, Some(1234));
    let again = s.handle_global_key(Key::Enter, env(2000));
    assert!(matches!(again, KeyOutcome::Continue));
    assert_eq!(s.switch_started_at, Some(1234));
}

#[test]
fn enter_beyond_the_list_does_nothing() {
    let mut s = state();
    s.handle_global_key(Key::Char('2'), env(0));
    s.handle_global_key(Key::Down, env(0));
    let out = s.handle_global_key(Key::Enter, env(5));
    assert!(matches!(out, KeyOutcome::Continue));
    assert!(s.selected_country.is_none());
}

#[test]
fn auto_drops_the_chosen_country() {
    let mut s = state();
    s.handle_global_key(Key::Char('2'), env(0));
    let none = s.handle_global_key(Key::Char('a'), env(1));
    assert!(matches!(none, KeyOutcome::Continue));
    s.selected_country = Some("JP".to_string());
    let out = s.handle_global_key(Key::Char('a'), env(7));
    match out {
        KeyOutcome::SwitchExit { target } => assert!(target.is_none()),
        _ => panic!("expected a switch"),
    }
    assert!(s.selected_country.is_none());
    assert!(s.switch_in_progress);
    assert_eq!(s.switch_started_at, Some(7));
}

#[test]
fn start_records_secret_and_clears_cache_once() {
    let mut s = state();
    s.secret = "abc".to_string();
    s.level_notice = Some(geph_tui::state::LevelNotice::VipDetected);
    let out = s.handle_global_key(Key::Char('s'), env(0));
    assert!(matches!(out, KeyOutcome::StartDaemon { clear_cache: true }));
    assert_eq!(s.last_connected_secret.as_deref(), Some("abc"));
    assert!(s.level_notice.is_none());
    let second = s.handle_global_key(Key::Char('s'), env(0));
    assert!(matches!(second, KeyOutcome::StartDaemon { clear_cache: false }));
    s.needs_cache_clear = true;
    let third = s.handle_global_key(Key::Char('s'), env(0));
    assert!(matches!(third, KeyOutcome::StartDaemon { clear_cache: true }));
    assert!(!s.needs_cache_clear);
}

#[test]
fn start_does_nothing_while_running() {
    let mut s = state();
    s.set_daemon_running(true);
    let out = s.handle_global_key(Key::Char('s'), env(0));
    assert!(matches!(out, KeyOutcome::Continue));
    assert!(s.last_connected_secret.is_none());
}

#[test]
fn x_stops_only_a_running_daemon() {
    let mut s = state();
    assert!(matches!(s.handle_global_key(Key::Char('x'), env(0)), KeyOutcome::Continue));
    s.set_daemon_running(true);
    assert!(matches!(s.handle_global_key(Key::Char('x'), env(0)), KeyOutcome::StopDaemon));
}

#[test]
fn register_starts_daemon_first_when_stopped() {
    let mut s = state();
    s.handle_global_key(Key::Char('3'), env(0));
    let out = s.handle_global_key(Key::Char('r'), env(0));
    assert!(matches!(out, KeyOutcome::Register { start_daemon_first: true }));
    s.set_daemon_running(true);
    let out2 = s.handle_global_key(Key::Char('r'), env(0));
    assert!(matches!(out2, KeyOutcome::Register { start_daemon_first: false }));
}

#[test]
fn focus_mode_edits_then_leaves() {
    let mut s = state();
    s.handle_global_key(Key::Char('3'), env(0));
    s.handle_global_key(Key::Char('p'), env(0));
    assert_eq!(s.focus, Focus::SocksPort);
    assert_eq!(s.handle_focused_input(Key::Char('9')), FocusedAction::Edit(Focus::SocksPort));
    s.set_field_text(Focus::SocksPort, "1081".to_string());
    assert_eq!(s.socks_port, "1081");
    assert_eq!(s.handle_focused_input(Key::Esc), FocusedAction::Unfocused);
    assert_eq!(s.focus, Focus::NoField);
    assert_eq!(s.handle_focused_input(Key::Char('z')), FocusedAction::Ignored);
}

#[test]
fn enter_leaves_focus_mode() {
    let mut s = state();
    s.handle_global_key(Key::Char('5'), env(0));
    s.handle_global_key(Key::Char('v'), env(0));
    assert_eq!(s.focus, Focus::RedeemCode);
    assert_eq!(s.handle_focused_input(Key::Enter), FocusedAction::Unfocused);
    s.handle_global_key(Key::Char('o'), env(0));
    assert_eq!(s.focus, Focus::PromoCode);
}

#[test]
fn status_scroll_saturates() {
    let mut s = state();
    s.handle_global_key(Key::Char('k'), env(0));
    assert_eq!(s.status_scroll, 0);
    s.handle_global_key(Key::Char('j'), env(0));
    s.handle_global_key(Key::Char('j'), env(0));
    assert_eq!(s.status_scroll, 2);
    s.status_scroll = u16::MAX;
    s.handle_global_key(Key::Char('j'), env(0));
    assert_eq!(s.status_scroll, u16::MAX);
}

#[test]
fn debug_scroll_stops_at_last_line() {
    let mut s = state();
    s.handle_global_key(Key::Char('4'), env(0));
    let e = KeyEnv { now_ms: 0, log_len: 3 };
    s.handle_global_key(Key::Up, e);
    assert!(!s.debug_auto_scroll);
    s.handle_global_key(Key::Down, e);
    assert_eq!(s.debug_scroll, 1);
    assert!(!s.debug_auto_scroll);
    s.handle_global_key(Key::Down, e);
    assert_eq!(s.debug_scroll, 2);
    assert!(s.debug_auto_scroll);
    s.handle_global_key(Key::Down, e);
    assert_eq!(s.debug_scroll, 2);
}

#[test]
fn redeem_asks_for_secret_and_code() {
    let mut s = state();
    s.handle_global_key(Key::Char('5'), env(0));
    assert!(matches!(s.handle_global_key(Key::Enter, env(0)), KeyOutcome::Continue));
    assert_eq!(status(&s), "Login first.");
    s.secret = "sec".to_string();
    s.handle_global_key(Key::Enter, env(0));
    assert_eq!(status(&s), "Enter a redeem code first.");
    s.redeem_code = "CODE1".to_string();
    match s.handle_global_key(Key::Enter, env(0)) {
        KeyOutcome::RedeemVoucher { secret, code } => {
            assert_eq!(secret, "sec");
            assert_eq!(code, "CODE1");
        },
        _ => panic!("expected a redemption"),
    }
    assert!(s.plus_action_in_progress);
    assert_eq!(status(&s), "Redeeming…");
    // a second Enter while the first is in progress does nothing
    assert!(matches!(s.handle_global_key(Key::Enter, env(0)), KeyOutcome::Continue));
}

#[test]
fn redeem_replies_update_the_status() {
    let mut s = state();
    s.plus_remaining_secs = Some(86400 * 2 + 43200);
    s.plus_url_to_show = Some("http://pay".to_string());
    s.plus_action_in_progress = true;
    s.redeem_finished(RpcReply::Done(Some(30)), 1000);
    assert_eq!(status(&s), "Redeemed! 30 days added. Refreshing…");
    assert!(s.plus_url_to_show.is_none());
    assert!(!s.plus_action_in_progress);
    assert_eq!(s.poll_plus_until, Some(61_000));
    assert_eq!(s.poll_plus_prev_expires, Some(3));
    s.redeem_finished(RpcReply::Done(None), 0);
    assert_eq!(status(&s), "Redeemed! 0 days added. Refreshing…");
    s.redeem_finished(RpcReply::Done(Some(-2)), 0);
    assert_eq!(status(&s), "Redeemed! -2 days added. Refreshing…");
    s.redeem_finished(RpcReply::Rejected("bad code".to_string()), 0);
    assert_eq!(status(&s), "Redeem failed: bad code");
    s.redeem_finished(RpcReply::Failed("timeout".to_string()), 0);
    assert_eq!(status(&s), "RPC error: timeout");
}

#[test]
fn buy_needs_prices_and_passes_promo() {
    let mut s = state();
    s.handle_global_key(Key::Char('5'), env(0));
    s.secret = "sec".to_string();
    s.handle_global_key(Key::Char('b'), env(0));
    assert_eq!(status(&s), "Loading prices, try again…");
    s.load_price_points(vec![(30, 500), (90, 1200)]);
    s.load_payment_methods(vec!["card".to_string(), "crypto".to_string()]);
    s.handle_global_key(Key::Down, env(0));
    s.handle_global_key(Key::Right, env(0));
    s.promo_code = "SPRING".to_string();
    match s.handle_global_key(Key::Char('b'), env(0)) {
        KeyOutcome::CreatePayment { secret, days, method } => {
            assert_eq!(secret, "sec");
            assert_eq!(days, 90);
            assert_eq!(method, "crypto+++SPRING");
        },
        _ => panic!("expected a payment"),
    }
    assert_eq!(status(&s), "Creating payment URL…");
}

#[test]
fn buy_without_promo_passes_method_alone() {
    let mut s = state();
    s.handle_global_key(Key::Char('5'), env(0));
    s.secret = "sec".to_string();
    s.load_price_points(vec![(30, 500)]);
    s.load_payment_methods(vec!["card".to_string()]);
    match s.handle_global_key(Key::Char('b'), env(0)) {
        KeyOutcome::CreatePayment { method, days, .. } => {
            assert_eq!(method, "card");
            assert_eq!(days, 30);
        },
        _ => panic!("expected a payment"),
    }
}

#[test]
fn payment_replies_update_the_status() {
    let mut s = state();
    s.plus_action_in_progress = true;
    s.payment_finished(RpcReply::Done(Some(String::new())), 10);
    assert_eq!(status(&s), "Empty URL returned.");
    assert!(s.plus_url_to_show.is_none());
    assert!(s.poll_plus_until.is_none());
    s.payment_finished(RpcReply::Done(None), 10);
    assert_eq!(status(&s), "Empty URL returned.");
    s.payment_finished(RpcReply::Done(Some("https://pay.example/x".to_string())), 10);
    assert_eq!(status(&s), "URL ready below — copy into a browser.");
    assert_eq!(s.plus_url_to_show.as_deref(), Some("https://pay.example/x"));
    assert_eq!(s.poll_plus_until, Some(300_010));
    s.payment_finished(RpcReply::Rejected("no".to_string()), 10);
    assert_eq!(status(&s), "Failed: no");
    s.payment_finished(RpcReply::Failed("down".to_string()), 10);
    assert_eq!(status(&s), "RPC error: down");
    s.handle_global_key(Key::Char('5'), env(0));
    s.handle_global_key(Key::Char('c'), env(0));
    assert_eq!(status(&s), "URL cleared.");
    assert!(s.plus_url_to_show.is_none());
}

#[test]
fn editing_without_typing_changes_nothing() {
    let mut s = state();
    s.secret = "keep".to_string();
    s.handle_global_key(Key::Char('3'), env(0));
    s.handle_global_key(Key::Char('e'), env(0));
    assert_eq!(s.focus, Focus::Secret);
    assert_eq!(s.handle_focused_input(Key::Esc), FocusedAction::Unfocused);
    assert_eq!(s.focus, Focus::NoField);
    assert_eq!(s.secret, "keep");
}

#[test]
fn q_quits_only_without_focus() {
    let mut s = state();
    s.handle_global_key(Key::Char('3'), env(0));
    assert!(matches!(s.handle_key(Key::Char('e'), env(0)), KeyDispatch::Global(KeyOutcome::Continue)));
    assert!(matches!(
        s.handle_key(Key::Char('q'), env(0)),
        KeyDispatch::Focused(FocusedAction::Edit(Focus::Secret))
    ));
    assert!(matches!(s.handle_key(Key::Esc, env(0)), KeyDispatch::Focused(FocusedAction::Unfocused)));
    assert!(matches!(s.handle_key(Key::Char('q'), env(0)), KeyDispatch::Global(KeyOutcome::Quit)));
}
