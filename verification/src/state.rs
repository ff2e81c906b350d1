//! Application state: the tabs, the focused input field, the persisted
//! preferences and the state of the interactive client.
use vstd::prelude::*;
use crate::text::str_equal;

verus! {

/// How many lines of debug log the client keeps; older lines are dropped.
pub const LOG_CAPACITY: usize = 1000;

/// The tabs of the interface, in the order of the number keys that select them.
#[derive(PartialEq, Eq, Structural, Clone, Copy, Debug)]
pub enum TabIdx {
    Status,
    Nodes,
    Config,
    Debug,
    Plus,
}

impl TabIdx {
    /// Position of the tab in the tab bar (0 for Status, 4 for Plus).
    pub open spec fn spec_position(self) -> usize {
        match self {
            TabIdx::Status => 0,
            TabIdx::Nodes => 1,
            TabIdx::Config => 2,
            TabIdx::Debug => 3,
            TabIdx::Plus => 4,
        }
    }

    /// Position of the tab in the tab bar.
    pub fn position(&self) -> (r: usize)
        ensures
            r == self.spec_position(),
            r < 5,
    {
        match self {
            TabIdx::Status => 0,
            TabIdx::Nodes => 1,
            TabIdx::Config => 2,
            TabIdx::Debug => 3,
            TabIdx::Plus => 4,
        }
    }
}

/// The text field that receives typed keys, if any.
#[derive(PartialEq, Eq, Structural, Clone, Copy, Debug)]
pub enum Focus {
    NoField,
    Secret,
    SocksPort,
    HttpPort,
    RedeemCode,
    PromoCode,
}

/// The account level that the broker reports.
#[derive(PartialEq, Eq, Structural, Clone, Copy, Debug)]
pub enum AccountLevel {
    Free,
    Plus,
}

/// The name under which an account level is persisted.
pub open spec fn level_name(l: AccountLevel) -> Seq<char> {
    match l {
        AccountLevel::Plus => "Plus"@,
        AccountLevel::Free => "Free"@,
    }
}

/// The level that a persisted level name stands for: Plus for exactly "Plus",
/// Free for anything else and for no name at all.
pub open spec fn level_from_name(name: Option<Seq<char>>) -> AccountLevel {
    match name {
        Some(n) => if n == "Plus"@ { AccountLevel::Plus } else { AccountLevel::Free },
        None => AccountLevel::Free,
    }
}

/// The characters of an optional string.
pub open spec fn opt_view(o: Option<String>) -> Option<Seq<char>> {
    match o {
        Some(s) => Some(s@),
        None => None,
    }
}

/// Copies an optional string.
pub fn clone_opt(o: &Option<String>) -> (r: Option<String>)
    ensures
        r == *o,
{
    match o {
        Some(s) => Some(s.clone()),
        None => None,
    }
}

/// Preferences kept across runs of the client.
#[derive(Debug)]
pub struct TuiPrefs {
    pub secret: String,
    pub socks_port: String,
    pub http_port: String,
    pub listen_all: bool,
    pub enable_debug_log: bool,
    pub allow_direct: bool,
    pub selected_country: Option<String>,
    pub last_known_level: Option<String>,
    pub last_connected_secret: Option<String>,
}

/// The mathematical content of a set of preferences.
pub struct PrefsView {
    pub secret: Seq<char>,
    pub socks_port: Seq<char>,
    pub http_port: Seq<char>,
    pub listen_all: bool,
    pub enable_debug_log: bool,
    pub allow_direct: bool,
    pub selected_country: Option<Seq<char>>,
    pub last_known_level: Option<Seq<char>>,
    pub last_connected_secret: Option<Seq<char>>,
}

impl View for TuiPrefs {
    type V = PrefsView;

    open spec fn view(&self) -> PrefsView {
        PrefsView {
            secret: self.secret@,
            socks_port: self.socks_port@,
            http_port: self.http_port@,
            listen_all: self.listen_all,
            enable_debug_log: self.enable_debug_log,
            allow_direct: self.allow_direct,
            selected_country: opt_view(self.selected_country),
            last_known_level: opt_view(self.last_known_level),
            last_connected_secret: opt_view(self.last_connected_secret),
        }
    }
}

/// The preferences of a first run: empty except for the two proxy ports.
pub open spec fn fresh_prefs() -> PrefsView {
    PrefsView {
        secret: Seq::empty(),
        socks_port: "9909"@,
        http_port: "9910"@,
        listen_all: false,
        enable_debug_log: false,
        allow_direct: false,
        selected_country: None,
        last_known_level: None,
        last_connected_secret: None,
    }
}

impl Default for TuiPrefs {
    fn default() -> (r: Self)
        ensures
            r@.secret == Seq::<char>::empty(),
            r@.socks_port == Seq::<char>::empty(),
            r@.http_port == Seq::<char>::empty(),
            !r.listen_all,
            !r.enable_debug_log,
            !r.allow_direct,
            r.selected_country is None,
            r.last_known_level is None,
            r.last_connected_secret is None,
    {
        TuiPrefs {
            secret: String::new(),
            socks_port: String::new(),
            http_port: String::new(),
            listen_all: false,
            enable_debug_log: false,
            allow_direct: false,
            selected_country: None,
            last_known_level: None,
            last_connected_secret: None,
        }
    }
}

impl TuiPrefs {
    /// The preferences of a first run: empty, with the SOCKS5 port 9909 and
    /// the HTTP port 9910.
    pub fn fresh() -> (r: Self)
        ensures
            r@ == fresh_prefs(),
    {
        TuiPrefs {
            socks_port: String::from_str("9909"),
            http_port: String::from_str("9910"),
            ..Default::default()
        }
    }

    /// The preferences that a start of the client works with: those read
    /// back from storage when there were any that could be read, else the
    /// preferences of a first run.
    pub fn from_loaded(loaded: Option<TuiPrefs>) -> (r: Self)
        ensures
            match loaded {
                Some(p) => r == p,
                None => r@ == fresh_prefs(),
            },
    {
        match loaded {
            Some(p) => p,
            None => Self::fresh(),
        }
    }

    /// Whether an account is set up: the secret is not empty.
    pub fn has_account(&self) -> (b: bool)
        ensures
            b == (self.secret@.len() > 0),
    {
        !self.secret.as_str().is_empty()
    }

    /// A copy of the preferences.
    pub fn duplicate(&self) -> (r: Self)
        ensures
            r == *self,
    {
        TuiPrefs {
            secret: self.secret.clone(),
            socks_port: self.socks_port.clone(),
            http_port: self.http_port.clone(),
            listen_all: self.listen_all,
            enable_debug_log: self.enable_debug_log,
            allow_direct: self.allow_direct,
            selected_country: clone_opt(&self.selected_country),
            last_known_level: clone_opt(&self.last_known_level),
            last_connected_secret: clone_opt(&self.last_connected_secret),
        }
    }
}


/// The message line of the Plus tab.
pub enum PlusStatus {
    Empty,
    UrlCleared,
    LoginFirst,
    EnterRedeemCode,
    Redeeming,
    Redeemed(i32),
    RedeemFailed(String),
    RpcError(String),
    LoadingPrices,
    CreatingPayment,
    EmptyUrl,
    UrlReady,
    PaymentFailed(String),
    Extended,
}

/// Where the registration of a new account stands.
pub enum RegistrationStatus {
    Empty,
    DaemonFailed(String),
    Started,
    FailedToStart(String),
    RpcError(String),
    Progress(String),
    Complete,
    Failed(String),
    DaemonStopped,
}

/// A notice about the account level, shown until the next connection.
#[derive(PartialEq, Eq, Structural, Clone, Copy, Debug)]
pub enum LevelNotice {
    VipDetected,
    VipExpired,
    NewAccount,
}

/// The state of the interactive client, as plain values. Times are
/// milliseconds on a monotonic clock; the text fields hold their text.
pub struct AppState {
    pub tab: TabIdx,
    pub is_running: bool,
    pub secret: String,
    pub socks_port: String,
    pub http_port: String,
    pub listen_all: bool,
    pub allow_direct: bool,
    pub countries: Vec<String>,
    pub node_selected: Option<usize>,
    pub selected_country: Option<String>,
    pub switch_in_progress: bool,
    pub last_switch_target: Option<String>,
    pub switch_started_at: Option<u64>,
    pub level_notice: Option<LevelNotice>,
    pub needs_cache_clear: bool,
    pub last_detected_level: AccountLevel,
    /// Seconds of Plus time left, as last reported by the broker.
    pub plus_remaining_secs: Option<u64>,
    pub last_connected_secret: Option<String>,
    pub focus: Focus,
    pub registration_status: RegistrationStatus,
    pub registration_idx: Option<usize>,
    pub debug_scroll: u16,
    pub debug_auto_scroll: bool,
    pub enable_debug_log: bool,
    pub status_scroll: u16,
    pub redeem_code: String,
    pub promo_code: String,
    pub plus_action_status: PlusStatus,
    pub plus_action_in_progress: bool,
    pub plus_url_to_show: Option<String>,
    pub selected_price_idx: usize,
    pub selected_method_idx: usize,
    /// Price tiers as (days, cents).
    pub price_points: Vec<(u32, u32)>,
    pub payment_methods: Vec<String>,
    pub poll_plus_until: Option<u64>,
    pub poll_plus_prev_expires: Option<u64>,
}

/// A selection index into a list of `len` entries: the first entry of an
/// empty list, or an entry of the list.
pub open spec fn index_in(i: usize, len: nat) -> bool {
    if len == 0 {
        i == 0
    } else {
        i < len
    }
}

/// The preferences that a state persists.
pub open spec fn prefs_of(s: AppState) -> PrefsView {
    PrefsView {
        secret: s.secret@,
        socks_port: s.socks_port@,
        http_port: s.http_port@,
        listen_all: s.listen_all,
        enable_debug_log: s.enable_debug_log,
        allow_direct: s.allow_direct,
        selected_country: opt_view(s.selected_country),
        last_known_level: Some(level_name(s.last_detected_level)),
        last_connected_secret: opt_view(s.last_connected_secret),
    }
}

/// What the persisted level of a set of preferences becomes once it has been
/// read back: the name of the level it stands for.
pub open spec fn normalized(p: PrefsView) -> PrefsView {
    PrefsView { last_known_level: Some(level_name(level_from_name(p.last_known_level))), ..p }
}

impl AppState {
    /// The state is well formed: the debug scroll position is within the log
    /// capacity and both selection indices of the Plus tab are within their lists.
    pub open spec fn wf(&self) -> bool {
        &&& self.debug_scroll < LOG_CAPACITY
        &&& index_in(self.selected_price_idx, self.price_points@.len())
        &&& index_in(self.selected_method_idx, self.payment_methods@.len())
    }

    /// The state at start-up for the given preferences: the preferences in
    /// their fields, the Status tab, nothing running, nothing selected,
    /// fetched or in progress, and the debug log following its end.
    pub open spec fn starts_from(self, p: TuiPrefs) -> bool {
        &&& self.tab == TabIdx::Status
        &&& !self.is_running
        &&& self.secret == p.secret
        &&& self.socks_port == p.socks_port
        &&& self.http_port == p.http_port
        &&& self.listen_all == p.listen_all
        &&& self.allow_direct == p.allow_direct
        &&& self.countries@.len() == 0
        &&& self.node_selected is None
        &&& self.selected_country == p.selected_country
        &&& !self.switch_in_progress
        &&& self.last_switch_target == p.selected_country
        &&& self.switch_started_at is None
        &&& self.level_notice is None
        &&& !self.needs_cache_clear
        &&& self.last_detected_level == level_from_name(opt_view(p.last_known_level))
        &&& self.plus_remaining_secs is None
        &&& self.last_connected_secret == p.last_connected_secret
        &&& self.focus == Focus::NoField
        &&& self.registration_status is Empty
        &&& self.registration_idx is None
        &&& self.debug_scroll == 0
        &&& self.debug_auto_scroll
        &&& self.enable_debug_log == p.enable_debug_log
        &&& self.status_scroll == 0
        &&& self.redeem_code@.len() == 0
        &&& self.promo_code@.len() == 0
        &&& self.plus_action_status is Empty
        &&& !self.plus_action_in_progress
        &&& self.plus_url_to_show is None
        &&& self.selected_price_idx == 0
        &&& self.selected_method_idx == 0
        &&& self.price_points@.len() == 0
        &&& self.payment_methods@.len() == 0
        &&& self.poll_plus_until is None
        &&& self.poll_plus_prev_expires is None
    }

    /// The start-up state for the given preferences.
    pub fn new(prefs: TuiPrefs) -> (s: AppState)
        ensures
            s.starts_from(prefs),
            s.wf(),
    {
        let level = match &prefs.last_known_level {
            Some(name) => if str_equal(name.as_str(), "Plus") {
                AccountLevel::Plus
            } else {
                AccountLevel::Free
            },
            None => AccountLevel::Free,
        };
        let last_switch_target = clone_opt(&prefs.selected_country);
        AppState {
            tab: TabIdx::Status,
            is_running: false,
            secret: prefs.secret,
            socks_port: prefs.socks_port,
            http_port: prefs.http_port,
            listen_all: prefs.listen_all,
            allow_direct: prefs.allow_direct,
            countries: Vec::new(),
            node_selected: None,
            selected_country: prefs.selected_country,
            switch_in_progress: false,
            last_switch_target,
            switch_started_at: None,
            level_notice: None,
            needs_cache_clear: false,
            last_detected_level: level,
            plus_remaining_secs: None,
            last_connected_secret: prefs.last_connected_secret,
            focus: Focus::NoField,
            registration_status: RegistrationStatus::Empty,
            registration_idx: None,
            debug_scroll: 0,
            debug_auto_scroll: true,
            enable_debug_log: prefs.enable_debug_log,
            status_scroll: 0,
            redeem_code: String::new(),
            promo_code: String::new(),
            plus_action_status: PlusStatus::Empty,
            plus_action_in_progress: false,
            plus_url_to_show: None,
            selected_price_idx: 0,
            selected_method_idx: 0,
            price_points: Vec::new(),
            payment_methods: Vec::new(),
            poll_plus_until: None,
            poll_plus_prev_expires: None,
        }
    }

    /// The preferences that this state persists: its text fields and toggles,
    /// its chosen country, the name of its detected account level and the
    /// secret it last connected with.
    pub fn to_prefs(&self) -> (p: TuiPrefs)
        ensures
            p@ == prefs_of(*self),
    {
        TuiPrefs {
            secret: self.secret.clone(),
            socks_port: self.socks_port.clone(),
            http_port: self.http_port.clone(),
            listen_all: self.listen_all,
            enable_debug_log: self.enable_debug_log,
            allow_direct: self.allow_direct,
            selected_country: clone_opt(&self.selected_country),
            last_known_level: Some(
                match self.last_detected_level {
                    AccountLevel::Plus => String::from_str("Plus"),
                    AccountLevel::Free => String::from_str("Free"),
                },
            ),
            last_connected_secret: clone_opt(&self.last_connected_secret),
        }
    }
}

/// Preferences survive a start of the client: the preferences that the
/// start-up state for `p` persists are `p`, with its level name read back
/// as the level it stands for.
pub proof fn law_prefs_survive_restart(p: TuiPrefs, s: AppState)
    requires
        s.starts_from(p),
    ensures
        prefs_of(s) == normalized(p@),
{
}

/// Persisting is stable: the preferences that a state persists come back
/// unchanged through a start of the client.
pub proof fn law_persisted_prefs_are_stable(s: AppState, p: TuiPrefs, s2: AppState)
    requires
        p@ == prefs_of(s),
        s2.starts_from(p),
    ensures
        prefs_of(s2) == prefs_of(s),
        s2.last_detected_level == s.last_detected_level,
{
    reveal_strlit("Plus");
    reveal_strlit("Free");
    assert("Free"@[0] != "Plus"@[0]);
}

} // verus!
