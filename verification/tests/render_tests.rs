use geph_tui::render::{notice_message, plus_status_message};
use geph_tui::state::{AccountLevel, AppState, LevelNotice, PlusStatus, TuiPrefs};

#[test]
fn notices_have_their_texts() {
    assert_eq!(
        notice_message(LevelNotice::VipDetected),
        "VIP detected! Press x then s to reconnect with VIP access."
    );
    assert_eq!(notice_message(LevelNotice::VipExpired), "VIP expired. Press x then s to reconnect.");
}

#[test]
fn plus_status_texts() {
    assert_eq!(plus_status_message(&PlusStatus::Empty), "");
    assert_eq!(plus_status_message(&PlusStatus::Extended), "Plus subscription extended! ✓");
    assert_eq!(plus_status_message(&PlusStatus::Redeemed(i32::MIN)), "Redeemed! -2147483648 days added. Refreshing…");
}

#[test]
fn plus_panel_in_english() {
    let mut s = AppState::new(TuiPrefs::fresh());
    let p = s.plus_panel(false);
    assert_eq!(p.banner, "Currently a Free user");
    assert_eq!(p.banner_title, "Current Plus Status");
    assert_eq!(p.package, "Loading packages…");
    assert_eq!(p.method, "Loading…");
    assert!(p.url.is_none());
    assert_eq!(p.status, "\nv: edit redeem code   o: edit promo code   Up/Down: package   Left/Right: method   Enter: redeem   b: buy URL   c: clear URL");
    s.last_detected_level = AccountLevel::Plus;
    s.plus_remaining_secs = Some(86400 * 2 + 1);
    s.load_price_points(vec![(30, 500), (365, 3999)]);
    s.load_payment_methods(vec!["card".to_string()]);
    s.selected_price_idx = 1;
    s.plus_url_to_show = Some("https://pay".to_string());
    s.plus_action_in_progress = true;
    s.plus_action_status = PlusStatus::Redeeming;
    let p = s.plus_panel(false);
    assert_eq!(p.banner, "Currently a Plus user (3 days left)");
    assert_eq!(p.package, "365 days — $39.99  (Up/Down to choose)");
    assert_eq!(p.method, "card  (Left/Right to choose)");
    assert_eq!(
        p.url.as_deref(),
        Some("https://pay\n(Open this URL in any browser to complete payment. Press 'c' to clear.)")
    );
    assert_eq!(p.url_title, "Payment URL — copy into a browser");
    assert!(p.status.starts_with("Working…\nRedeeming…\nv: edit"));
}

#[test]
fn plus_panel_in_chinese() {
    let mut s = AppState::new(TuiPrefs::fresh());
    s.load_price_points(vec![(30, 5)]);
    let p = s.plus_panel(true);
    assert_eq!(p.banner, "当前为 Free 用户");
    assert_eq!(p.banner_title, "Plus 状态");
    assert_eq!(p.package, "30 days — $0.05  (上下键选择)");
    assert_eq!(p.package_title, "套餐");
    assert_eq!(p.method, "加载中…");
    assert_eq!(p.method_title, "支付方式");
    s.last_detected_level = AccountLevel::Plus;
    s.plus_remaining_secs = Some(0);
    assert_eq!(s.plus_panel(true).banner, "当前为 Plus 用户 (0 days left)");
    s.plus_remaining_secs = None;
    assert_eq!(s.plus_panel(true).banner, "当前为 Plus 用户");
}

#[test]
fn selection_beyond_list_shows_last_entry() {
    let mut s = AppState::new(TuiPrefs::fresh());
    s.load_price_points(vec![(30, 100), (90, 250)]);
    s.load_payment_methods(vec!["a".to_string(), "b".to_string()]);
    let p = s.plus_panel(false);
    assert_eq!(p.package, "30 days — $1.00  (Up/Down to choose)");
    assert_eq!(p.method, "a  (Left/Right to choose)");
}
