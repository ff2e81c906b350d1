//! The texts that the interface shows: status messages, notices and the
//! panels of the Plus tab, in English or Chinese.
use vstd::prelude::*;
use crate::state::{AccountLevel, AppState, LevelNotice, PlusStatus, RegistrationStatus};
use crate::text::{decimal, push_char, signed_decimal, u64_to_decimal, i32_to_decimal};

verus! {

/// The message line of the Plus tab.
pub open spec fn plus_status_text(s: PlusStatus) -> Seq<char> {
    match s {
        PlusStatus::Empty => Seq::empty(),
        PlusStatus::UrlCleared => "URL cleared."@,
        PlusStatus::LoginFirst => "Login first."@,
        PlusStatus::EnterRedeemCode => "Enter a redeem code first."@,
        PlusStatus::Redeeming => "Redeeming…"@,
        PlusStatus::Redeemed(d) => "Redeemed! "@ + signed_decimal(d as int) + " days added. Refreshing…"@,
        PlusStatus::RedeemFailed(m) => "Redeem failed: "@ + m@,
        PlusStatus::RpcError(m) => "RPC error: "@ + m@,
        PlusStatus::LoadingPrices => "Loading prices, try again…"@,
        PlusStatus::CreatingPayment => "Creating payment URL…"@,
        PlusStatus::EmptyUrl => "Empty URL returned."@,
        PlusStatus::UrlReady => "URL ready below — copy into a browser."@,
        PlusStatus::PaymentFailed(m) => "Failed: "@ + m@,
        PlusStatus::Extended => "Plus subscription extended! ✓"@,
    }
}

/// The registration line of the Config tab.
pub open spec fn registration_text(s: RegistrationStatus) -> Seq<char> {
    match s {
        RegistrationStatus::Empty => Seq::empty(),
        RegistrationStatus::DaemonFailed(m) => "Daemon failed to start: "@ + m@,
        RegistrationStatus::Started => "Registration started..."@,
        RegistrationStatus::FailedToStart(m) => "Failed to start: "@ + m@,
        RegistrationStatus::RpcError(m) => "RPC error: "@ + m@,
        RegistrationStatus::Progress(p) => "Registering... "@ + p@ + "%"@,
        RegistrationStatus::Complete => "Registration complete!"@,
        RegistrationStatus::Failed(m) => "Registration failed: "@ + m@,
        RegistrationStatus::DaemonStopped => "Daemon stopped during registration."@,
    }
}

/// The notice about the account level.
pub open spec fn notice_text(n: LevelNotice) -> Seq<char> {
    match n {
        LevelNotice::VipDetected => "VIP detected! Press x then s to reconnect with VIP access."@,
        LevelNotice::VipExpired => "VIP expired. Press x then s to reconnect."@,
        LevelNotice::NewAccount => "New account registered. Press 'x' then 's' to reconnect."@,
    }
}

/// A string of the given characters followed by those of `tail`.
fn joined(head: &str, tail: &str) -> (r: String)
    ensures
        r@ == head@ + tail@,
{
    let mut r = String::from_str(head);
    r.append(tail);
    r
}

/// The text of the Plus tab's message line.
pub fn plus_status_message(s: &PlusStatus) -> (r: String)
    ensures
        r@ == plus_status_text(*s),
{
    match s {
        PlusStatus::Empty => String::new(),
        PlusStatus::UrlCleared => String::from_str("URL cleared."),
        PlusStatus::LoginFirst => String::from_str("Login first."),
        PlusStatus::EnterRedeemCode => String::from_str("Enter a redeem code first."),
        PlusStatus::Redeeming => String::from_str("Redeeming…"),
        PlusStatus::Redeemed(d) => {
            let mut r = String::from_str("Redeemed! ");
            let n = i32_to_decimal(*d);
            r.append(n.as_str());
            r.append(" days added. Refreshing…");
            r
        },
        PlusStatus::RedeemFailed(m) => joined("Redeem failed: ", m.as_str()),
        PlusStatus::RpcError(m) => joined("RPC error: ", m.as_str()),
        PlusStatus::LoadingPrices => String::from_str("Loading prices, try again…"),
        PlusStatus::CreatingPayment => String::from_str("Creating payment URL…"),
        PlusStatus::EmptyUrl => String::from_str("Empty URL returned."),
        PlusStatus::UrlReady => String::from_str("URL ready below — copy into a browser."),
        PlusStatus::PaymentFailed(m) => joined("Failed: ", m.as_str()),
        PlusStatus::Extended => String::from_str("Plus subscription extended! ✓"),
    }
}

/// The text of the registration line.
pub fn registration_message(s: &RegistrationStatus) -> (r: String)
    ensures
        r@ == registration_text(*s),
{
    match s {
        RegistrationStatus::Empty => String::new(),
        RegistrationStatus::DaemonFailed(m) => joined("Daemon failed to start: ", m.as_str()),
        RegistrationStatus::Started => String::from_str("Registration started..."),
        RegistrationStatus::FailedToStart(m) => joined("Failed to start: ", m.as_str()),
        RegistrationStatus::RpcError(m) => joined("RPC error: ", m.as_str()),
        RegistrationStatus::Progress(p) => {
            let mut r = joined("Registering... ", p.as_str());
            r.append("%");
            r
        },
        RegistrationStatus::Complete => String::from_str("Registration complete!"),
        RegistrationStatus::Failed(m) => joined("Registration failed: ", m.as_str()),
        RegistrationStatus::DaemonStopped => String::from_str("Daemon stopped during registration."),
    }
}

/// The text of a notice about the account level.
pub fn notice_message(n: LevelNotice) -> (r: String)
    ensures
        r@ == notice_text(n),
{
    match n {
        LevelNotice::VipDetected => String::from_str(
            "VIP detected! Press x then s to reconnect with VIP access.",
        ),
        LevelNotice::VipExpired => String::from_str("VIP expired. Press x then s to reconnect."),
        LevelNotice::NewAccount => String::from_str(
            "New account registered. Press 'x' then 's' to reconnect.",
        ),
    }
}

/// Whole days in a number of seconds, rounded up.
pub open spec fn ceil_days(secs: u64) -> nat {
    ((secs + 86399) / 86400) as nat
}

/// A price in cents written as dollars with two decimals, e.g. `$19.99`.
pub open spec fn dollars(cents: u32) -> Seq<char> {
    let c = (cents % 100) as int;
    "$"@ + decimal((cents / 100) as nat) + "."@ + seq![digit_of(c / 10), digit_of(c % 10)]
}

/// The character of a decimal digit.
pub open spec fn digit_of(d: int) -> char {
    crate::text::digit_char(d)
}

/// The banner of the Plus tab: the account level, and for a Plus account
/// the days left (rounded up) when they are known.
pub open spec fn banner_text(level: AccountLevel, remaining: Option<u64>, zh: bool) -> Seq<char> {
    let days = match remaining {
        Some(secs) => " ("@ + decimal(ceil_days(secs)) + " days left)"@,
        None => Seq::empty(),
    };
    if level == AccountLevel::Plus {
        if zh { "当前为 Plus 用户"@ + days } else { "Currently a Plus user"@ + days }
    } else {
        if zh { "当前为 Free 用户"@ } else { "Currently a Free user"@ }
    }
}

/// The package panel: the selected price tier (the last one when the
/// selection is beyond the list) with its price, or a loading message.
pub open spec fn package_text(points: Seq<(u32, u32)>, selected: usize, zh: bool) -> Seq<char> {
    if points.len() == 0 {
        if zh { "加载套餐中…"@ } else { "Loading packages…"@ }
    } else {
        let idx = if selected < points.len() - 1 { selected as int } else { points.len() - 1 };
        let (days, cents) = points[idx];
        decimal(days as nat) + " days — "@ + dollars(cents) + "  "@
            + (if zh { "(上下键选择)"@ } else { "(Up/Down to choose)"@ })
    }
}

/// The payment method panel: the selected method (the last one when the
/// selection is beyond the list), or a loading message.
pub open spec fn method_text(methods: Seq<String>, selected: usize, zh: bool) -> Seq<char> {
    if methods.len() == 0 {
        if zh { "加载中…"@ } else { "Loading…"@ }
    } else {
        let idx = if selected < methods.len() - 1 { selected as int } else { methods.len() - 1 };
        methods[idx]@ + "  "@ + (if zh { "(左右键选择)"@ } else { "(Left/Right to choose)"@ })
    }
}

/// The payment URL panel: the URL and how to use it.
pub open spec fn url_text(url: Seq<char>, zh: bool) -> Seq<char> {
    url + (if zh {
        "\n(请在浏览器中打开此链接完成支付。按 'c' 清除。)"@
    } else {
        "\n(Open this URL in any browser to complete payment. Press 'c' to clear.)"@
    })
}

/// The key legend of the Plus tab.
pub open spec fn legend_text(zh: bool) -> Seq<char> {
    if zh {
        "v: 编辑兑换码   o: 编辑优惠码   上/下: 套餐   左/右: 方式   Enter: 兑换   b: 生成支付链接   c: 清除链接"@
    } else {
        "v: edit redeem code   o: edit promo code   Up/Down: package   Left/Right: method   Enter: redeem   b: buy URL   c: clear URL"@
    }
}

/// The status panel of the Plus tab: a working line while an action is in
/// progress, the message line and the legend.
pub open spec fn status_panel_text(s: AppState, zh: bool) -> Seq<char> {
    let body = plus_status_text(s.plus_action_status) + "\n"@ + legend_text(zh);
    if s.plus_action_in_progress {
        (if zh { "处理中…"@ } else { "Working…"@ }) + "\n"@ + body
    } else {
        body
    }
}

/// The texts of the Plus tab.
pub struct PlusPanel {
    pub banner: String,
    pub banner_title: String,
    pub package: String,
    pub package_title: String,
    pub method: String,
    pub method_title: String,
    pub url: Option<String>,
    pub url_title: String,
    pub status: String,
}

/// Whole days in a number of seconds, rounded up.
fn ceil_days_of(secs: u64) -> (d: u64)
    ensures
        d == ceil_days(secs),
{
    let q = secs / 86400;
    if secs % 86400 == 0 {
        q
    } else {
        q + 1
    }
}

/// A price in cents written as dollars with two decimals.
fn dollars_of(cents: u32) -> (r: String)
    ensures
        r@ == dollars(cents),
{
    let mut r = String::from_str("$");
    let whole = u64_to_decimal((cents / 100) as u64);
    r.append(whole.as_str());
    r.append(".");
    let c = cents % 100;
    push_char(&mut r, ((c / 10) as u8 + 48) as char);
    push_char(&mut r, ((c % 10) as u8 + 48) as char);
    r
}

/// The banner of the Plus tab.
fn banner_of(level: AccountLevel, remaining: Option<u64>, zh: bool) -> (r: String)
    ensures
        r@ == banner_text(level, remaining, zh),
{
    if level == AccountLevel::Plus {
        let mut r = if zh {
            String::from_str("当前为 Plus 用户")
        } else {
            String::from_str("Currently a Plus user")
        };
        match remaining {
            Some(secs) => {
                r.append(" (");
                let d = u64_to_decimal(ceil_days_of(secs));
                r.append(d.as_str());
                r.append(" days left)");
            },
            None => {},
        }
        r
    } else if zh {
        String::from_str("当前为 Free 用户")
    } else {
        String::from_str("Currently a Free user")
    }
}

impl AppState {
    /// The texts of the Plus tab, in Chinese when `zh`, else in English.
    pub fn plus_panel(&self, zh: bool) -> (p: PlusPanel)
        ensures
            p.banner@ == banner_text(self.last_detected_level, self.plus_remaining_secs, zh),
            p.banner_title@ == (if zh { "Plus 状态"@ } else { "Current Plus Status"@ }),
            p.package@ == package_text(self.price_points@, self.selected_price_idx, zh),
            p.package_title@ == (if zh { "套餐"@ } else { "Package"@ }),
            p.method@ == method_text(self.payment_methods@, self.selected_method_idx, zh),
            p.method_title@ == (if zh { "支付方式"@ } else { "Payment Method"@ }),
            match self.plus_url_to_show {
                Some(u) => p.url is Some && p.url->0@ == url_text(u@, zh),
                None => p.url is None,
            },
            p.url_title@ == (if zh { "支付链接"@ } else { "Payment URL — copy into a browser"@ }),
            p.status@ == status_panel_text(*self, zh),
    {
        let banner = banner_of(self.last_detected_level, self.plus_remaining_secs, zh);
        let package = if self.price_points.len() == 0 {
            if zh {
                String::from_str("加载套餐中…")
            } else {
                String::from_str("Loading packages…")
            }
        } else {
            let last = self.price_points.len() - 1;
            let idx = if self.selected_price_idx < last { self.selected_price_idx } else { last };
            let (days, cents) = self.price_points[idx];
            let mut t = u64_to_decimal(days as u64);
            t.append(" days — ");
            let price = dollars_of(cents);
            t.append(price.as_str());
            t.append("  ");
            t.append(if zh { "(上下键选择)" } else { "(Up/Down to choose)" });
            t
        };
        let method = if self.payment_methods.len() == 0 {
            if zh {
                String::from_str("加载中…")
            } else {
                String::from_str("Loading…")
            }
        } else {
            let last = self.payment_methods.len() - 1;
            let idx = if self.selected_method_idx < last { self.selected_method_idx } else { last };
            let mut t = self.payment_methods[idx].clone();
            t.append("  ");
            t.append(if zh { "(左右键选择)" } else { "(Left/Right to choose)" });
            t
        };
        let url = match &self.plus_url_to_show {
            Some(u) => {
                let mut t = u.clone();
                t.append(
                    if zh {
                        "\n(请在浏览器中打开此链接完成支付。按 'c' 清除。)"
                    } else {
                        "\n(Open this URL in any browser to complete payment. Press 'c' to clear.)"
                    },
                );
                Some(t)
            },
            None => None,
        };
        let legend = if zh {
            "v: 编辑兑换码   o: 编辑优惠码   上/下: 套餐   左/右: 方式   Enter: 兑换   b: 生成支付链接   c: 清除链接"
        } else {
            "v: edit redeem code   o: edit promo code   Up/Down: package   Left/Right: method   Enter: redeem   b: buy URL   c: clear URL"
        };
        let mut status = if self.plus_action_in_progress {
            let mut t = String::from_str(if zh { "处理中…" } else { "Working…" });
            t.append("\n");
            t
        } else {
            String::new()
        };
        let msg = plus_status_message(&self.plus_action_status);
        status.append(msg.as_str());
        status.append("\n");
        status.append(legend);
        PlusPanel {
            banner,
            banner_title: String::from_str(if zh { "Plus 状态" } else { "Current Plus Status" }),
            package,
            package_title: String::from_str(if zh { "套餐" } else { "Package" }),
            method,
            method_title: String::from_str(if zh { "支付方式" } else { "Payment Method" }),
            url,
            url_title: String::from_str(
                if zh { "支付链接" } else { "Payment URL — copy into a browser" },
            ),
            status,
        }
    }
}

} // verus!
