//! Keyboard handling: what a key does to the application state, and which
//! outside work (starting the daemon, a broker request) it asks for.
use vstd::prelude::*;
use crate::state::{
    opt_view, AppState, Focus, PlusStatus, TabIdx, LOG_CAPACITY,
};

verus! {

/// A key press, as the interface distinguishes keys.
#[derive(PartialEq, Eq, Structural, Clone, Copy, Debug)]
pub enum Key {
    Char(char),
    Up,
    Down,
    Left,
    Right,
    Enter,
    Esc,
    Other,
}

/// What a key handler needs to know besides the state: the time of the key
/// press (milliseconds on a monotonic clock) and how many debug log lines
/// there are.
#[derive(PartialEq, Eq, Structural, Clone, Copy, Debug)]
pub struct KeyEnv {
    pub now_ms: u64,
    pub log_len: usize,
}

/// The outside work that a key press asks for.
pub enum KeyOutcome {
    /// Nothing beyond the change of state.
    Continue,
    /// Leave the client.
    Quit,
    /// Clear the connection cache if asked, save the preferences, start the daemon.
    StartDaemon { clear_cache: bool },
    /// Stop the daemon.
    StopDaemon,
    /// Start the daemon first if asked, then ask it to register an account.
    Register { start_daemon_first: bool },
    /// Save the preferences and switch the exit to a country (or to automatic choice).
    SwitchExit { target: Option<String> },
    /// Ask the broker to redeem a voucher code for an account.
    RedeemVoucher { secret: String, code: String },
    /// Ask the broker for a payment URL for a price tier and payment method.
    CreatePayment { secret: String, days: u32, method: String },
}

/// The mathematical content of a `KeyOutcome`.
pub enum OutcomeView {
    Continue,
    Quit,
    StartDaemon { clear_cache: bool },
    StopDaemon,
    Register { start_daemon_first: bool },
    SwitchExit { target: Option<Seq<char>> },
    RedeemVoucher { secret: Seq<char>, code: Seq<char> },
    CreatePayment { secret: Seq<char>, days: u32, method: Seq<char> },
}

impl View for KeyOutcome {
    type V = OutcomeView;

    open spec fn view(&self) -> OutcomeView {
        match self {
            KeyOutcome::Continue => OutcomeView::Continue,
            KeyOutcome::Quit => OutcomeView::Quit,
            KeyOutcome::StartDaemon { clear_cache } => OutcomeView::StartDaemon {
                clear_cache: *clear_cache,
            },
            KeyOutcome::StopDaemon => OutcomeView::StopDaemon,
            KeyOutcome::Register { start_daemon_first } => OutcomeView::Register {
                start_daemon_first: *start_daemon_first,
            },
            KeyOutcome::SwitchExit { target } => OutcomeView::SwitchExit {
                target: opt_view(*target),
            },
            KeyOutcome::RedeemVoucher { secret, code } => OutcomeView::RedeemVoucher {
                secret: secret@,
                code: code@,
            },
            KeyOutcome::CreatePayment { secret, days, method } => OutcomeView::CreatePayment {
                secret: secret@,
                days: *days,
                method: method@,
            },
        }
    }
}

/// What a key press does while a text field has the focus.
#[derive(PartialEq, Eq, Structural, Clone, Copy, Debug)]
pub enum FocusedAction {
    /// The field lost the focus.
    Unfocused,
    /// The key is for the field with this focus; its editor takes it.
    Edit(Focus),
    /// No field has the focus; the key is dropped.
    Ignored,
}

// ---------------------------------------------------------------------------
// The transitions, stated.
// ---------------------------------------------------------------------------

/// `n - 1`, or 0 for 0.
pub open spec fn pred_sat(n: int) -> int {
    if n <= 0 { 0 } else { n - 1 }
}

/// Selection after Down in the node list: the next entry, wrapping from the
/// last entry (or beyond) to the first; the first entry when none is selected.
pub open spec fn node_down(sel: Option<usize>, len: nat) -> usize {
    match sel {
        Some(i) => if i >= pred_sat(len as int) { 0 } else { (i + 1) as usize },
        None => 0,
    }
}

/// Selection after Up in the node list: the previous entry, wrapping from
/// the first entry to the last; the first entry when none is selected.
pub open spec fn node_up(sel: Option<usize>, len: nat) -> usize {
    match sel {
        Some(i) => if i == 0 { pred_sat(len as int) as usize } else { (i - 1) as usize },
        None => 0,
    }
}

/// The previous index in a cyclic list of `len` entries.
pub open spec fn cyclic_prev(i: usize, len: nat) -> usize {
    ((i + len - 1) % (len as int)) as usize
}

/// The next index in a cyclic list of `len` entries.
pub open spec fn cyclic_next(i: usize, len: nat) -> usize {
    ((i + 1) % (len as int)) as usize
}

/// Days, rounded to the nearest whole day (halves up), in a number of seconds.
pub open spec fn rounded_days(secs: u64) -> u64 {
    ((secs + 43200) / 86400) as u64
}

/// The rounded days of Plus time that a state holds, if any.
pub open spec fn rounded_remaining(o: Option<u64>) -> Option<u64> {
    match o {
        Some(secs) => Some(rounded_days(secs)),
        None => None,
    }
}

/// `s` (start): from a stopped daemon, record the secret as the one last
/// connected with, and ask for a start, with a cache clear when the secret
/// changed since the last connection or a level change asked for one (which
/// also drops the pending notice and request).
pub open spec fn start_step(s: AppState) -> (AppState, OutcomeView) {
    if s.is_running {
        (s, OutcomeView::Continue)
    } else {
        let clear = opt_view(s.last_connected_secret) != Some(s.secret@) || s.needs_cache_clear;
        let s1 = if clear {
            AppState { needs_cache_clear: false, level_notice: None, ..s }
        } else {
            s
        };
        (
            AppState { last_connected_secret: Some(s.secret), ..s1 },
            OutcomeView::StartDaemon { clear_cache: clear },
        )
    }
}

/// Enter on the Nodes tab: choose the selected country, when it is another
/// than the chosen one, and ask for the switch.
pub open spec fn nodes_enter_step(s: AppState, env: KeyEnv) -> (AppState, OutcomeView) {
    match s.node_selected {
        Some(i) => if i < s.countries@.len() && opt_view(s.selected_country) != Some(
            s.countries@[i as int]@,
        ) {
            let cc = s.countries@[i as int];
            (
                AppState {
                    selected_country: Some(cc),
                    last_switch_target: Some(cc),
                    switch_in_progress: true,
                    switch_started_at: Some(env.now_ms),
                    ..s
                },
                OutcomeView::SwitchExit { target: Some(cc@) },
            )
        } else {
            (s, OutcomeView::Continue)
        },
        None => (s, OutcomeView::Continue),
    }
}

/// `a` on the Nodes tab: drop the chosen country, if any, and ask for the
/// switch to automatic choice.
pub open spec fn nodes_auto_step(s: AppState, env: KeyEnv) -> (AppState, OutcomeView) {
    if s.selected_country is Some {
        (
            AppState {
                selected_country: None,
                last_switch_target: None,
                switch_in_progress: true,
                switch_started_at: Some(env.now_ms),
                ..s
            },
            OutcomeView::SwitchExit { target: None },
        )
    } else {
        (s, OutcomeView::Continue)
    }
}

/// Down on the Debug tab: scroll down, at most to the last log line, and
/// follow the log again once the last line is reached.
pub open spec fn debug_down_step(s: AppState, env: KeyEnv) -> AppState {
    let max_scroll = pred_sat(env.log_len as int);
    let next = if s.debug_scroll + 1 < max_scroll { s.debug_scroll + 1 } else { max_scroll };
    AppState {
        debug_scroll: next as u16,
        debug_auto_scroll: if next >= max_scroll { true } else { s.debug_auto_scroll },
        ..s
    }
}

/// Enter on the Plus tab: redeem the code for the account, once both are given.
pub open spec fn redeem_step(s: AppState) -> (AppState, OutcomeView) {
    if s.secret@.len() == 0 {
        (AppState { plus_action_status: PlusStatus::LoginFirst, ..s }, OutcomeView::Continue)
    } else if s.redeem_code@.len() == 0 {
        (AppState { plus_action_status: PlusStatus::EnterRedeemCode, ..s }, OutcomeView::Continue)
    } else {
        (
            AppState {
                plus_action_in_progress: true,
                plus_action_status: PlusStatus::Redeeming,
                ..s
            },
            OutcomeView::RedeemVoucher { secret: s.secret@, code: s.redeem_code@ },
        )
    }
}

/// The payment method argument: the method, followed by `+++` and the promo
/// code when one is given.
pub open spec fn method_arg(method: Seq<char>, promo: Seq<char>) -> Seq<char> {
    if promo.len() == 0 {
        method
    } else {
        method + "+++"@ + promo
    }
}

/// `b` on the Plus tab: ask for a payment URL for the selected tier and
/// method, once there is an account and the tiers and methods are known.
pub open spec fn buy_step(s: AppState) -> (AppState, OutcomeView) {
    if s.secret@.len() == 0 {
        (AppState { plus_action_status: PlusStatus::LoginFirst, ..s }, OutcomeView::Continue)
    } else if s.price_points@.len() == 0 || s.payment_methods@.len() == 0 {
        (AppState { plus_action_status: PlusStatus::LoadingPrices, ..s }, OutcomeView::Continue)
    } else {
        (
            AppState {
                plus_action_in_progress: true,
                plus_action_status: PlusStatus::CreatingPayment,
                ..s
            },
            OutcomeView::CreatePayment {
                secret: s.secret@,
                days: s.price_points@[s.selected_price_idx as int].0,
                method: method_arg(
                    s.payment_methods@[s.selected_method_idx as int]@,
                    s.promo_code@,
                ),
            },
        )
    }
}

/// Whether a Plus-tab action may start: no field has the focus and no other
/// action is in progress.
pub open spec fn plus_idle(s: AppState) -> bool {
    s.focus == Focus::NoField && !s.plus_action_in_progress
}

/// What a character key does.
pub open spec fn char_step(s: AppState, c: char, env: KeyEnv) -> (AppState, OutcomeView) {
    let same = (s, OutcomeView::Continue);
    if c == 'q' {
        (s, OutcomeView::Quit)
    } else if c == '1' {
        (AppState { tab: TabIdx::Status, ..s }, OutcomeView::Continue)
    } else if c == '2' {
        (AppState { tab: TabIdx::Nodes, ..s }, OutcomeView::Continue)
    } else if c == '3' {
        (AppState { tab: TabIdx::Config, ..s }, OutcomeView::Continue)
    } else if c == '4' {
        (AppState { tab: TabIdx::Debug, ..s }, OutcomeView::Continue)
    } else if c == '5' {
        (AppState { tab: TabIdx::Plus, ..s }, OutcomeView::Continue)
    } else if c == 's' {
        start_step(s)
    } else if c == 'x' {
        (s, if s.is_running { OutcomeView::StopDaemon } else { OutcomeView::Continue })
    } else if s.tab == TabIdx::Config {
        if c == 'e' {
            (AppState { focus: Focus::Secret, ..s }, OutcomeView::Continue)
        } else if c == 'p' {
            (AppState { focus: Focus::SocksPort, ..s }, OutcomeView::Continue)
        } else if c == 'h' {
            (AppState { focus: Focus::HttpPort, ..s }, OutcomeView::Continue)
        } else if c == 'r' {
            (s, OutcomeView::Register { start_daemon_first: !s.is_running })
        } else if c == 'l' {
            (AppState { listen_all: !s.listen_all, ..s }, OutcomeView::Continue)
        } else if c == 'b' {
            (AppState { allow_direct: !s.allow_direct, ..s }, OutcomeView::Continue)
        } else {
            same
        }
    } else if s.tab == TabIdx::Nodes {
        if c == 'a' {
            nodes_auto_step(s, env)
        } else {
            same
        }
    } else if s.tab == TabIdx::Status {
        if c == 'j' {
            (
                AppState {
                    status_scroll: if s.status_scroll == u16::MAX {
                        u16::MAX
                    } else {
                        (s.status_scroll + 1) as u16
                    },
                    ..s
                },
                OutcomeView::Continue,
            )
        } else if c == 'k' {
            (
                AppState { status_scroll: pred_sat(s.status_scroll as int) as u16, ..s },
                OutcomeView::Continue,
            )
        } else {
            same
        }
    } else if s.tab == TabIdx::Debug {
        if c == 'd' {
            (AppState { enable_debug_log: !s.enable_debug_log, ..s }, OutcomeView::Continue)
        } else {
            same
        }
    } else {
        // the Plus tab
        if c == 'v' {
            (AppState { focus: Focus::RedeemCode, ..s }, OutcomeView::Continue)
        } else if c == 'o' {
            (AppState { focus: Focus::PromoCode, ..s }, OutcomeView::Continue)
        } else if c == 'c' {
            (
                AppState { plus_url_to_show: None, plus_action_status: PlusStatus::UrlCleared, ..s },
                OutcomeView::Continue,
            )
        } else if c == 'b' && plus_idle(s) {
            buy_step(s)
        } else {
            same
        }
    }
}

/// What an arrow key does.
pub open spec fn arrow_step(s: AppState, key: Key, env: KeyEnv) -> AppState {
    let np = s.price_points@.len();
    let nm = s.payment_methods@.len();
    if s.tab == TabIdx::Nodes && key == Key::Down {
        AppState { node_selected: Some(node_down(s.node_selected, s.countries@.len())), ..s }
    } else if s.tab == TabIdx::Nodes && key == Key::Up {
        AppState { node_selected: Some(node_up(s.node_selected, s.countries@.len())), ..s }
    } else if s.tab == TabIdx::Debug && key == Key::Up {
        AppState {
            debug_scroll: pred_sat(s.debug_scroll as int) as u16,
            debug_auto_scroll: false,
            ..s
        }
    } else if s.tab == TabIdx::Debug && key == Key::Down {
        debug_down_step(s, env)
    } else if s.tab == TabIdx::Plus && key == Key::Up && np > 0 {
        AppState { selected_price_idx: cyclic_prev(s.selected_price_idx, np), ..s }
    } else if s.tab == TabIdx::Plus && key == Key::Down && np > 0 {
        AppState { selected_price_idx: cyclic_next(s.selected_price_idx, np), ..s }
    } else if s.tab == TabIdx::Plus && key == Key::Left && nm > 0 {
        AppState { selected_method_idx: cyclic_prev(s.selected_method_idx, nm), ..s }
    } else if s.tab == TabIdx::Plus && key == Key::Right && nm > 0 {
        AppState { selected_method_idx: cyclic_next(s.selected_method_idx, nm), ..s }
    } else {
        s
    }
}

/// What a key does when no text field has the focus: the new state and the
/// outside work asked for.
pub open spec fn global_key(s: AppState, key: Key, env: KeyEnv) -> (AppState, OutcomeView) {
    match key {
        Key::Char(c) => char_step(s, c, env),
        Key::Up | Key::Down | Key::Left | Key::Right => (
            arrow_step(s, key, env),
            OutcomeView::Continue,
        ),
        Key::Enter => if s.tab == TabIdx::Nodes {
            nodes_enter_step(s, env)
        } else if s.tab == TabIdx::Plus && plus_idle(s) {
            redeem_step(s)
        } else {
            (s, OutcomeView::Continue)
        },
        _ => (s, OutcomeView::Continue),
    }
}


/// What a key does while a text field has the focus: Esc and Enter give the
/// focus up; any other key is for the focused field.
pub open spec fn focused_key(s: AppState, key: Key) -> (AppState, FocusedAction) {
    if key == Key::Esc || key == Key::Enter {
        (AppState { focus: Focus::NoField, ..s }, FocusedAction::Unfocused)
    } else if s.focus == Focus::NoField {
        (s, FocusedAction::Ignored)
    } else {
        (s, FocusedAction::Edit(s.focus))
    }
}

/// The state after the text of a field was replaced.
pub open spec fn with_field_text(s: AppState, field: Focus, text: String) -> AppState {
    match field {
        Focus::Secret => AppState { secret: text, ..s },
        Focus::SocksPort => AppState { socks_port: text, ..s },
        Focus::HttpPort => AppState { http_port: text, ..s },
        Focus::RedeemCode => AppState { redeem_code: text, ..s },
        Focus::PromoCode => AppState { promo_code: text, ..s },
        Focus::NoField => s,
    }
}

// ---------------------------------------------------------------------------
// The transitions, computed.
// ---------------------------------------------------------------------------

impl AppState {
    /// Handles a key while a text field has the focus.
    pub fn handle_focused_input(&mut self, key: Key) -> (a: FocusedAction)
        requires
            old(self).wf(),
        ensures
            (*final(self), a) == focused_key(*old(self), key),
            final(self).wf(),
    {
        match key {
            Key::Esc | Key::Enter => {
                self.focus = Focus::NoField;
                FocusedAction::Unfocused
            },
            _ => match self.focus {
                Focus::NoField => FocusedAction::Ignored,
                f => FocusedAction::Edit(f),
            },
        }
    }

    /// Replaces the text of a field (after its editor took a key, or when an
    /// account was registered).
    pub fn set_field_text(&mut self, field: Focus, text: String)
        requires
            old(self).wf(),
        ensures
            *final(self) == with_field_text(*old(self), field, text),
            final(self).wf(),
    {
        match field {
            Focus::Secret => self.secret = text,
            Focus::SocksPort => self.socks_port = text,
            Focus::HttpPort => self.http_port = text,
            Focus::RedeemCode => self.redeem_code = text,
            Focus::PromoCode => self.promo_code = text,
            Focus::NoField => {},
        }
    }

    fn start_key(&mut self) -> (out: KeyOutcome)
        requires
            old(self).wf(),
        ensures
            (*final(self), out@) == start_step(*old(self)),
            old(self).wf() ==> final(self).wf(),
    {
        if self.is_running {
            return KeyOutcome::Continue;
        }
        let current = self.secret.clone();
        let changed = match &self.last_connected_secret {
            Some(last) => !crate::text::str_equal(last.as_str(), current.as_str()),
            None => true,
        };
        let clear = changed || self.needs_cache_clear;
        if clear {
            self.needs_cache_clear = false;
            self.level_notice = None;
        }
        self.last_connected_secret = Some(current);
        KeyOutcome::StartDaemon { clear_cache: clear }
    }

    fn nodes_enter(&mut self, env: KeyEnv) -> (out: KeyOutcome)
        ensures
            (*final(self), out@) == nodes_enter_step(*old(self), env),
            old(self).wf() ==> final(self).wf(),
    {
        match self.node_selected {
            Some(i) => {
                if i < self.countries.len() {
                    let cc = self.countries[i].clone();
                    let differs = match &self.selected_country {
                        Some(cur) => !crate::text::str_equal(cur.as_str(), cc.as_str()),
                        None => true,
                    };
                    if differs {
                        self.selected_country = Some(cc.clone());
                        self.last_switch_target = Some(cc.clone());
                        self.switch_in_progress = true;
                        self.switch_started_at = Some(env.now_ms);
                        return KeyOutcome::SwitchExit { target: Some(cc) };
                    }
                }
                KeyOutcome::Continue
            },
            None => KeyOutcome::Continue,
        }
    }

    fn nodes_auto(&mut self, env: KeyEnv) -> (out: KeyOutcome)
        ensures
            (*final(self), out@) == nodes_auto_step(*old(self), env),
            old(self).wf() ==> final(self).wf(),
    {
        if self.selected_country.is_some() {
            self.selected_country = None;
            self.last_switch_target = None;
            self.switch_in_progress = true;
            self.switch_started_at = Some(env.now_ms);
            KeyOutcome::SwitchExit { target: None }
        } else {
            KeyOutcome::Continue
        }
    }

    fn redeem_key(&mut self) -> (out: KeyOutcome)
        ensures
            (*final(self), out@) == redeem_step(*old(self)),
            old(self).wf() ==> final(self).wf(),
    {
        if self.secret.as_str().is_empty() {
            self.plus_action_status = PlusStatus::LoginFirst;
            return KeyOutcome::Continue;
        }
        if self.redeem_code.as_str().is_empty() {
            self.plus_action_status = PlusStatus::EnterRedeemCode;
            return KeyOutcome::Continue;
        }
        self.plus_action_in_progress = true;
        self.plus_action_status = PlusStatus::Redeeming;
        KeyOutcome::RedeemVoucher { secret: self.secret.clone(), code: self.redeem_code.clone() }
    }

    fn buy_key(&mut self) -> (out: KeyOutcome)
        requires
            old(self).wf(),
        ensures
            (*final(self), out@) == buy_step(*old(self)),
            old(self).wf() ==> final(self).wf(),
    {
        if self.secret.as_str().is_empty() {
            self.plus_action_status = PlusStatus::LoginFirst;
            return KeyOutcome::Continue;
        }
        if self.price_points.len() == 0 || self.payment_methods.len() == 0 {
            self.plus_action_status = PlusStatus::LoadingPrices;
            return KeyOutcome::Continue;
        }
        let days = self.price_points[self.selected_price_idx].0;
        let mut method = self.payment_methods[self.selected_method_idx].clone();
        if !self.promo_code.as_str().is_empty() {
            method.append("+++");
            method.append(self.promo_code.as_str());
        }
        self.plus_action_in_progress = true;
        self.plus_action_status = PlusStatus::CreatingPayment;
        KeyOutcome::CreatePayment { secret: self.secret.clone(), days, method }
    }

    fn char_key(&mut self, c: char, env: KeyEnv) -> (out: KeyOutcome)
        requires
            old(self).wf(),
        ensures
            (*final(self), out@) == char_step(*old(self), c, env),
            old(self).wf() ==> final(self).wf(),
    {
        if c == 'q' {
            return KeyOutcome::Quit;
        } else if c == '1' {
            self.tab = TabIdx::Status;
        } else if c == '2' {
            self.tab = TabIdx::Nodes;
        } else if c == '3' {
            self.tab = TabIdx::Config;
        } else if c == '4' {
            self.tab = TabIdx::Debug;
        } else if c == '5' {
            self.tab = TabIdx::Plus;
        } else if c == 's' {
            return self.start_key();
        } else if c == 'x' {
            if self.is_running {
                return KeyOutcome::StopDaemon;
            }
        } else if self.tab == TabIdx::Config {
            if c == 'e' {
                self.focus = Focus::Secret;
            } else if c == 'p' {
                self.focus = Focus::SocksPort;
            } else if c == 'h' {
                self.focus = Focus::HttpPort;
            } else if c == 'r' {
                return KeyOutcome::Register { start_daemon_first: !self.is_running };
            } else if c == 'l' {
                self.listen_all = !self.listen_all;
            } else if c == 'b' {
                self.allow_direct = !self.allow_direct;
            }
        } else if self.tab == TabIdx::Nodes {
            if c == 'a' {
                return self.nodes_auto(env);
            }
        } else if self.tab == TabIdx::Status {
            if c == 'j' {
                self.status_scroll = self.status_scroll.saturating_add(1);
            } else if c == 'k' {
                self.status_scroll = self.status_scroll.saturating_sub(1);
            }
        } else if self.tab == TabIdx::Debug {
            if c == 'd' {
                self.enable_debug_log = !self.enable_debug_log;
            }
        } else {
            if c == 'v' {
                self.focus = Focus::RedeemCode;
            } else if c == 'o' {
                self.focus = Focus::PromoCode;
            } else if c == 'c' {
                self.plus_url_to_show = None;
                self.plus_action_status = PlusStatus::UrlCleared;
            } else if c == 'b' && self.focus == Focus::NoField && !self.plus_action_in_progress {
                return self.buy_key();
            }
        }
        KeyOutcome::Continue
    }

    #[verifier::spinoff_prover]
    #[verifier::rlimit(40)]
    fn arrow_key(&mut self, key: Key, env: KeyEnv)
        requires
            old(self).wf(),
            env.log_len <= LOG_CAPACITY,
        ensures
            *final(self) == arrow_step(*old(self), key, env),
            final(self).wf(),
    {
        if self.tab == TabIdx::Nodes && key == Key::Down {
            let len = self.countries.len();
            let i = match self.node_selected {
                Some(i) => if i >= len.saturating_sub(1) { 0 } else { i + 1 },
                None => 0,
            };
            self.node_selected = Some(i);
        } else if self.tab == TabIdx::Nodes && key == Key::Up {
            let len = self.countries.len();
            let i = match self.node_selected {
                Some(i) => if i == 0 { len.saturating_sub(1) } else { i - 1 },
                None => 0,
            };
            self.node_selected = Some(i);
        } else if self.tab == TabIdx::Debug && key == Key::Up {
            self.debug_scroll = self.debug_scroll.saturating_sub(1);
            self.debug_auto_scroll = false;
        } else if self.tab == TabIdx::Debug && key == Key::Down {
            let max_scroll = env.log_len.saturating_sub(1) as u16;
            let next = self.debug_scroll + 1;
            self.debug_scroll = if next < max_scroll { next } else { max_scroll };
            if self.debug_scroll >= max_scroll {
                self.debug_auto_scroll = true;
            }
        } else if self.tab == TabIdx::Plus && key == Key::Up && self.price_points.len() > 0 {
            self.selected_price_idx = prev_index(self.selected_price_idx, self.price_points.len());
        } else if self.tab == TabIdx::Plus && key == Key::Down && self.price_points.len() > 0 {
            self.selected_price_idx = next_index(self.selected_price_idx, self.price_points.len());
        } else if self.tab == TabIdx::Plus && key == Key::Left && self.payment_methods.len() > 0 {
            self.selected_method_idx = prev_index(
                self.selected_method_idx,
                self.payment_methods.len(),
            );
        } else if self.tab == TabIdx::Plus && key == Key::Right && self.payment_methods.len() > 0 {
            self.selected_method_idx = next_index(
                self.selected_method_idx,
                self.payment_methods.len(),
            );
        }
    }

    /// Handles a key while no text field has the focus: changes the state as
    /// `global_key` says and returns the outside work asked for.
    pub fn handle_global_key(&mut self, key: Key, env: KeyEnv) -> (out: KeyOutcome)
        requires
            old(self).wf(),
            env.log_len <= LOG_CAPACITY,
        ensures
            (*final(self), out@) == global_key(*old(self), key, env),
            final(self).wf(),
    {
        match key {
            Key::Char(c) => self.char_key(c, env),
            Key::Up | Key::Down | Key::Left | Key::Right => {
                self.arrow_key(key, env);
                KeyOutcome::Continue
            },
            Key::Enter => {
                if self.tab == TabIdx::Nodes {
                    self.nodes_enter(env)
                } else if self.tab == TabIdx::Plus && self.focus == Focus::NoField
                    && !self.plus_action_in_progress {
                    self.redeem_key()
                } else {
                    KeyOutcome::Continue
                }
            },
            _ => KeyOutcome::Continue,
        }
    }
}

/// The previous index in a cyclic list.
fn prev_index(i: usize, len: usize) -> (r: usize)
    requires
        i < len,
    ensures
        r == cyclic_prev(i, len as nat),
        r < len,
{
    if i == 0 {
        assert((0 + len - 1) % (len as int) == len - 1) by (nonlinear_arith)
            requires len > 0;
        len - 1
    } else {
        assert((i + len - 1) % (len as int) == i - 1) by (nonlinear_arith)
            requires 0 < i < len;
        i - 1
    }
}

/// The next index in a cyclic list.
fn next_index(i: usize, len: usize) -> (r: usize)
    requires
        i < len,
    ensures
        r == cyclic_next(i, len as nat),
        r < len,
{
    if i + 1 == len {
        assert((i + 1) % (len as int) == 0) by (nonlinear_arith)
            requires i + 1 == len, len > 0;
        0
    } else {
        assert((i + 1) % (len as int) == i + 1) by (nonlinear_arith)
            requires i + 1 < len;
        i + 1
    }
}


// ---------------------------------------------------------------------------
// Laws of the key bindings.
// ---------------------------------------------------------------------------

/// `q` quits from any state and changes nothing.
pub proof fn law_q_quits(s: AppState, env: KeyEnv)
    ensures
        global_key(s, Key::Char('q'), env) == (s, OutcomeView::Quit),
{
}

/// The keys `1` to `5` select the Status, Nodes, Config, Debug and Plus tabs
/// from any state, and change nothing else.
pub proof fn law_digits_select_tabs(s: AppState, env: KeyEnv)
    ensures
        global_key(s, Key::Char('1'), env) == (AppState { tab: TabIdx::Status, ..s }, OutcomeView::Continue),
        global_key(s, Key::Char('2'), env) == (AppState { tab: TabIdx::Nodes, ..s }, OutcomeView::Continue),
        global_key(s, Key::Char('3'), env) == (AppState { tab: TabIdx::Config, ..s }, OutcomeView::Continue),
        global_key(s, Key::Char('4'), env) == (AppState { tab: TabIdx::Debug, ..s }, OutcomeView::Continue),
        global_key(s, Key::Char('5'), env) == (AppState { tab: TabIdx::Plus, ..s }, OutcomeView::Continue),
{
}

/// The toggles (`l` and `b` on the Config tab, `d` on the Debug tab) undo
/// themselves: pressing one twice gives the state back.
pub proof fn law_toggles_undo_themselves(s: AppState, env: KeyEnv, c: char)
    requires
        (s.tab == TabIdx::Config && (c == 'l' || c == 'b')) || (s.tab == TabIdx::Debug && c == 'd'),
    ensures
        global_key(global_key(s, Key::Char(c), env).0, Key::Char(c), env).0 == s,
        global_key(s, Key::Char(c), env).1 == OutcomeView::Continue,
{
}

/// On the Plus tab the price tiers form a cycle: Down undoes Up and Up
/// undoes Down.
pub proof fn law_price_tiers_cycle(s: AppState, env: KeyEnv)
    requires
        s.wf(),
        s.tab == TabIdx::Plus,
    ensures
        arrow_step(arrow_step(s, Key::Up, env), Key::Down, env) == s,
        arrow_step(arrow_step(s, Key::Down, env), Key::Up, env) == s,
{
    let n = s.price_points.len();
    let i = s.selected_price_idx;
    if n > 0 {
        lemma_cyclic(i, n);
        let up = AppState { selected_price_idx: cyclic_prev(i, n as nat), ..s };
        let down = AppState { selected_price_idx: cyclic_next(i, n as nat), ..s };
        assert(arrow_step(s, Key::Up, env) == up);
        assert(arrow_step(s, Key::Down, env) == down);
        lemma_cyclic(cyclic_prev(i, n as nat), n);
        lemma_cyclic(cyclic_next(i, n as nat), n);
        assert(arrow_step(up, Key::Down, env) == s);
        assert(arrow_step(down, Key::Up, env) == s);
    }
}

/// On the Plus tab the payment methods form a cycle: Right undoes Left and
/// Left undoes Right.
pub proof fn law_payment_methods_cycle(s: AppState, env: KeyEnv)
    requires
        s.wf(),
        s.tab == TabIdx::Plus,
    ensures
        arrow_step(arrow_step(s, Key::Left, env), Key::Right, env) == s,
        arrow_step(arrow_step(s, Key::Right, env), Key::Left, env) == s,
{
    let n = s.payment_methods.len();
    let i = s.selected_method_idx;
    if n > 0 {
        lemma_cyclic(i, n);
        let left = AppState { selected_method_idx: cyclic_prev(i, n as nat), ..s };
        let right = AppState { selected_method_idx: cyclic_next(i, n as nat), ..s };
        assert(arrow_step(s, Key::Left, env) == left);
        assert(arrow_step(s, Key::Right, env) == right);
        lemma_cyclic(cyclic_prev(i, n as nat), n);
        lemma_cyclic(cyclic_next(i, n as nat), n);
        assert(arrow_step(left, Key::Right, env) == s);
        assert(arrow_step(right, Key::Left, env) == s);
    }
}

/// The cyclic neighbours of an index of a nonempty list, without `%`.
proof fn lemma_cyclic(i: usize, n: usize)
    ensures
        i < n ==> cyclic_prev(i, n as nat) == (if i == 0 { (n - 1) as usize } else { (i - 1) as usize }),
        i < n ==> cyclic_next(i, n as nat) == (if i + 1 == n { 0 } else { (i + 1) as usize }),
{
    if i < n {
        let ii = i as int;
        let nn = n as int;
        assert((ii + nn - 1) % nn == (if ii == 0 { nn - 1 } else { ii - 1 })) by (nonlinear_arith)
            requires 0 <= ii < nn;
        assert((ii + 1) % nn == (if ii + 1 == nn { 0 } else { ii + 1 })) by (nonlinear_arith)
            requires 0 <= ii < nn;
    }
}

/// The node list wraps around: Down from the last entry selects the first,
/// Up from the first selects the last.
pub proof fn law_node_selection_wraps(s: AppState, env: KeyEnv)
    requires
        s.tab == TabIdx::Nodes,
        s.countries.len() > 0,
    ensures
        s.node_selected == Some((s.countries.len() - 1) as usize) ==> global_key(s, Key::Down, env).0.node_selected == Some(0usize),
        s.node_selected == Some(0usize) ==> global_key(s, Key::Up, env).0.node_selected == Some((s.countries.len() - 1) as usize),
{
}

/// Starting records the secret: with the daemon stopped, `s` makes the
/// current secret the one last connected with and asks for a start; with
/// the daemon running it does nothing.
pub proof fn law_start_records_secret(s: AppState, env: KeyEnv)
    ensures
        !s.is_running ==> global_key(s, Key::Char('s'), env).0.last_connected_secret == Some(s.secret)
            && global_key(s, Key::Char('s'), env).1 is StartDaemon,
        s.is_running ==> global_key(s, Key::Char('s'), env) == (s, OutcomeView::Continue),
{
}

/// A start right after another start clears no cache, unless a level change
/// asked for a clear in between: the secret is then the one last connected with.
pub proof fn law_second_start_keeps_cache(s: AppState, env: KeyEnv)
    requires
        !s.is_running,
    ensures
        global_key(global_key(s, Key::Char('s'), env).0, Key::Char('s'), env).1
            == (OutcomeView::StartDaemon { clear_cache: false }),
{
}

/// While a text field has the focus, Esc and Enter give it up, and no key
/// changes anything but the focus.
pub proof fn law_focus_mode(s: AppState, key: Key)
    ensures
        (key == Key::Esc || key == Key::Enter) ==> focused_key(s, key).0.focus == Focus::NoField,
        focused_key(s, key).0 == (AppState { focus: focused_key(s, key).0.focus, ..s }),
        !(key == Key::Esc || key == Key::Enter) && s.focus != Focus::NoField ==> focused_key(s, key).1
            == FocusedAction::Edit(s.focus),
{
}


/// `x` asks to stop the daemon when it runs, and does nothing else.
pub proof fn law_x_stops(s: AppState, env: KeyEnv)
    ensures
        global_key(s, Key::Char('x'), env) == (s, if s.is_running {
            OutcomeView::StopDaemon
        } else {
            OutcomeView::Continue
        }),
{
}


/// One Plus-tab action at a time: while one is in progress, Enter and `b`
/// on the Plus tab do nothing.
pub proof fn law_one_plus_action_at_a_time(s: AppState, env: KeyEnv)
    requires
        s.tab == TabIdx::Plus,
        s.plus_action_in_progress,
    ensures
        global_key(s, Key::Enter, env) == (s, OutcomeView::Continue),
        global_key(s, Key::Char('b'), env) == (s, OutcomeView::Continue),
{
}


/// Keys are bound per tab: the Config tab's keys (`e`, `p`, `h`, `r`, `l`)
/// do nothing on another tab.
pub proof fn law_config_keys_only_on_config(s: AppState, env: KeyEnv, c: char)
    requires
        s.tab != TabIdx::Config,
        c == 'e' || c == 'p' || c == 'h' || c == 'r' || c == 'l',
    ensures
        global_key(s, Key::Char(c), env) == (s, OutcomeView::Continue),
{
}


/// Editing without typing changes nothing: on the Config tab, `e` and then
/// Esc (or Enter) give back the state as it was, text included.
pub proof fn law_edit_without_typing(s: AppState, env: KeyEnv, leave: Key)
    requires
        s.tab == TabIdx::Config,
        s.focus == Focus::NoField,
        leave == Key::Esc || leave == Key::Enter,
    ensures
        global_key(s, Key::Char('e'), env).0.focus == Focus::Secret,
        focused_key(global_key(s, Key::Char('e'), env).0, leave).0 == s,
        focused_key(global_key(s, Key::Char('e'), env).0, leave).1 == FocusedAction::Unfocused,
{
}


/// Where a key went: to the field that has the focus, or to the global
/// bindings, with what came of it.
pub enum KeyDispatch {
    Focused(FocusedAction),
    Global(KeyOutcome),
}

/// The mathematical content of a `KeyDispatch`.
pub enum DispatchView {
    Focused(FocusedAction),
    Global(OutcomeView),
}

impl View for KeyDispatch {
    type V = DispatchView;

    open spec fn view(&self) -> DispatchView {
        match self {
            KeyDispatch::Focused(a) => DispatchView::Focused(*a),
            KeyDispatch::Global(o) => DispatchView::Global(o@),
        }
    }
}

/// What a key does: while a field has the focus, the key is for that field
/// (`focused_key`); otherwise the global bindings take it (`global_key`).
pub open spec fn dispatch_key(s: AppState, key: Key, env: KeyEnv) -> (AppState, DispatchView) {
    if s.focus != Focus::NoField {
        let (t, a) = focused_key(s, key);
        (t, DispatchView::Focused(a))
    } else {
        let (t, o) = global_key(s, key, env);
        (t, DispatchView::Global(o))
    }
}

impl AppState {
    /// Handles a key: gives it to the focused field when there is one, else
    /// to the global bindings.
    pub fn handle_key(&mut self, key: Key, env: KeyEnv) -> (d: KeyDispatch)
        requires
            old(self).wf(),
            env.log_len <= LOG_CAPACITY,
        ensures
            (*final(self), d@) == dispatch_key(*old(self), key, env),
            final(self).wf(),
    {
        if self.focus != Focus::NoField {
            KeyDispatch::Focused(self.handle_focused_input(key))
        } else {
            KeyDispatch::Global(self.handle_global_key(key, env))
        }
    }
}

/// `q` quits exactly when no field has the focus: while one has it, `q` is
/// typed into the field like any other key, and no other key ever quits.
pub proof fn law_quit_only_unfocused(s: AppState, key: Key, env: KeyEnv)
    ensures
        (dispatch_key(s, key, env).1 == DispatchView::Global(OutcomeView::Quit))
            <==> (s.focus == Focus::NoField && key == Key::Char('q')),
        s.focus != Focus::NoField && key == Key::Char('q') ==> dispatch_key(s, key, env)
            == (s, DispatchView::Focused(FocusedAction::Edit(s.focus))),
{
}

/// Editing without typing, key by key: on the Config tab, `e` and then Esc
/// (or Enter), each handled as `handle_key` handles keys, give back the
/// state as it was, text included.
pub proof fn law_edit_round_trip(s: AppState, env: KeyEnv, leave: Key)
    requires
        s.tab == TabIdx::Config,
        s.focus == Focus::NoField,
        leave == Key::Esc || leave == Key::Enter,
    ensures
        dispatch_key(s, Key::Char('e'), env).0.focus == Focus::Secret,
        dispatch_key(dispatch_key(s, Key::Char('e'), env).0, leave, env).0 == s,
{
}


/// Enter on the Nodes tab switches to the selected country whenever it is
/// not the chosen one, whatever country (if any) was chosen before: the
/// outcome asks for that country, which becomes the chosen one and the
/// switch target, and the switch shows as in progress since the key press.
pub proof fn law_enter_switches_to_selected_country(s: AppState, env: KeyEnv, i: usize)
    requires
        s.tab == TabIdx::Nodes,
        s.node_selected == Some(i),
        i < s.countries@.len(),
        opt_view(s.selected_country) != Some(s.countries@[i as int]@),
    ensures
        global_key(s, Key::Enter, env).1 == (OutcomeView::SwitchExit { target: Some(s.countries@[i as int]@) }),
        global_key(s, Key::Enter, env).0.selected_country == Some(s.countries@[i as int]),
        global_key(s, Key::Enter, env).0.last_switch_target == Some(s.countries@[i as int]),
        global_key(s, Key::Enter, env).0.switch_in_progress,
        global_key(s, Key::Enter, env).0.switch_started_at == Some(env.now_ms),
{
}

/// Enter on the Nodes tab on the country already chosen does nothing.
pub proof fn law_enter_on_chosen_country_does_nothing(s: AppState, env: KeyEnv, i: usize)
    requires
        s.tab == TabIdx::Nodes,
        s.node_selected == Some(i),
        i < s.countries@.len(),
        opt_view(s.selected_country) == Some(s.countries@[i as int]@),
    ensures
        global_key(s, Key::Enter, env) == (s, OutcomeView::Continue),
{
}

/// `b` on the Plus tab, with an account, known tiers and methods and no
/// action in progress, asks for a payment URL for the account's secret, the
/// days of the selected tier, and the selected method, with `+++` and the
/// promo code after it when a promo code is given.
pub proof fn law_buy_asks_for_selected_tier(s: AppState, env: KeyEnv)
    requires
        s.wf(),
        s.tab == TabIdx::Plus,
        s.focus == Focus::NoField,
        !s.plus_action_in_progress,
        s.secret@.len() > 0,
        s.price_points@.len() > 0,
        s.payment_methods@.len() > 0,
    ensures
        global_key(s, Key::Char('b'), env).1 matches OutcomeView::CreatePayment { secret, days, method }
            && secret == s.secret@
            && days == s.price_points@[s.selected_price_idx as int].0
            && (s.promo_code@.len() == 0 ==> method == s.payment_methods@[s.selected_method_idx as int]@)
            && (s.promo_code@.len() > 0 ==> method == s.payment_methods@[s.selected_method_idx as int]@
                + "+++"@ + s.promo_code@),
        global_key(s, Key::Char('b'), env).0.plus_action_in_progress,
{
}

/// `s` with the daemon stopped asks for a cache clear after a switch of
/// account: when a secret other than the current one was last connected with.
pub proof fn law_start_key_clears_cache_on_new_secret(s: AppState, env: KeyEnv, t: String)
    requires
        !s.is_running,
        s.last_connected_secret == Some(t),
        t@ != s.secret@,
    ensures
        global_key(s, Key::Char('s'), env).1 == (OutcomeView::StartDaemon { clear_cache: true }),
{
}

} // verus!
