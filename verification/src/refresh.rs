//! The decisions of each tick of the event loop: what the state becomes
//! once the daemon's status, the account, the exit list, the price tiers
//! and the registration progress have been fetched.
use vstd::prelude::*;
use crate::keys::rounded_remaining;
use crate::replies::{round_remaining, RpcReply};
use crate::state::{AccountLevel, AppState, LevelNotice, PlusStatus, RegistrationStatus, TabIdx};
use crate::text::{lex_lt, str_equal, str_less, lemma_lex_lt_transitive, lemma_lex_lt_total, lemma_lex_lt_irreflexive, lemma_lex_lt_asymmetric};

verus! {

/// How long a switch of exit shows as in progress, in milliseconds.
pub const SWITCH_SETTLE_MS: u64 = 3000;

/// How long after its deadline the account is still watched for added Plus
/// time, in milliseconds.
pub const PLUS_POLL_WINDOW_MS: u64 = 300_000;

/// What the broker reports of an account.
#[derive(PartialEq, Eq, Structural, Clone, Copy, Debug)]
pub struct UserSnapshot {
    /// When Plus time ends, in seconds since the Unix epoch.
    pub plus_expires_unix: Option<u64>,
}

/// An exit that the daemon knows of: its country (ISO alpha-2 code) and the
/// account levels that may use it.
pub struct ExitSummary {
    pub country: String,
    pub allowed_levels: Vec<AccountLevel>,
}

/// The progress of a registration: the secret of the new account once it
/// is done, and the percentage done, as text, until then.
pub struct RegistrationProgress {
    pub secret: Option<String>,
    pub percent_text: String,
}

/// The state after a switch of exit had time to settle: a switch shows as
/// in progress until 3 s after it started.
pub open spec fn switch_settle_step(s: AppState, now_ms: u64) -> AppState {
    if s.switch_in_progress {
        match s.switch_started_at {
            Some(t) => if (if now_ms >= t { now_ms - t } else { 0 }) >= SWITCH_SETTLE_MS {
                AppState { switch_in_progress: false, ..s }
            } else {
                s
            },
            None => AppState { switch_in_progress: false, ..s },
        }
    } else {
        s
    }
}

/// The account level that a report shows at time `now_secs`: Plus while
/// the Plus time has not ended.
pub open spec fn level_at(u: UserSnapshot, now_secs: u64) -> AccountLevel {
    if (match u.plus_expires_unix {
        Some(e) => e,
        None => 0,
    }) > now_secs {
        AccountLevel::Plus
    } else {
        AccountLevel::Free
    }
}

/// Seconds of Plus time left at `now_secs`.
pub open spec fn remaining_at(u: UserSnapshot, now_secs: u64) -> Option<u64> {
    match u.plus_expires_unix {
        Some(e) => Some(if e >= now_secs { (e - now_secs) as u64 } else { 0 }),
        None => None,
    }
}

/// The state after the account was refreshed, and the account level that
/// the exit list is filtered with. The days of Plus time known before are
/// kept for comparison. While the daemon runs, a report (if one came)
/// updates the Plus time and the level; a change of level asks for a cache
/// clear and shows a notice.
pub open spec fn account_refresh_step(s: AppState, report: Option<UserSnapshot>, now_secs: u64) -> (AppState, AccountLevel) {
    let s1 = AppState { poll_plus_prev_expires: rounded_remaining(s.plus_remaining_secs), ..s };
    if !s.is_running {
        (s1, s.last_detected_level)
    } else {
        let (s2, level) = match report {
            Some(u) => (AppState { plus_remaining_secs: remaining_at(u, now_secs), ..s1 }, level_at(u, now_secs)),
            None => (s1, s.last_detected_level),
        };
        if level != s.last_detected_level {
            (
                AppState {
                    needs_cache_clear: true,
                    level_notice: Some(
                        match level {
                            AccountLevel::Plus => LevelNotice::VipDetected,
                            AccountLevel::Free => LevelNotice::VipExpired,
                        },
                    ),
                    last_detected_level: level,
                    ..s2
                },
                level,
            )
        } else {
            (s2, level)
        }
    }
}

/// The state after the watch for added Plus time was checked at `now_ms`:
/// within five minutes after its deadline, more rounded days than before
/// end the watch with a success message; after that the watch ends.
pub open spec fn plus_poll_step(s: AppState, now_ms: u64) -> AppState {
    match s.poll_plus_until {
        Some(deadline) => {
            let elapsed: int = if now_ms >= deadline { now_ms - deadline } else { 0 };
            if elapsed < PLUS_POLL_WINDOW_MS {
                let new_days = match rounded_remaining(s.plus_remaining_secs) {
                    Some(d) => d,
                    None => 0,
                };
                let old_days = match s.poll_plus_prev_expires {
                    Some(d) => d,
                    None => 0,
                };
                if new_days > old_days {
                    AppState { plus_action_status: PlusStatus::Extended, poll_plus_until: None, ..s }
                } else {
                    s
                }
            } else {
                AppState { poll_plus_until: None, ..s }
            }
        },
        None => s,
    }
}

/// The state after a registration was polled. A finished registration puts
/// the new secret in its field and starts the account afresh as a Free
/// account (asking for a cache clear, and showing a notice when the daemon
/// runs); a refused one ends; a failed poll ends it only when the daemon
/// stopped.
pub open spec fn registration_poll_step(s: AppState, reply: RpcReply<RegistrationProgress>) -> AppState {
    match reply {
        RpcReply::Done(p) => match p.secret {
            Some(sec) => AppState {
                secret: sec,
                registration_status: RegistrationStatus::Complete,
                registration_idx: None,
                needs_cache_clear: true,
                last_detected_level: AccountLevel::Free,
                plus_remaining_secs: None,
                level_notice: if s.is_running { Some(LevelNotice::NewAccount) } else { None },
                ..s
            },
            None => AppState { registration_status: RegistrationStatus::Progress(p.percent_text), ..s },
        },
        RpcReply::Rejected(msg) => AppState {
            registration_status: RegistrationStatus::Failed(msg),
            registration_idx: None,
            ..s
        },
        RpcReply::Failed(_) => if !s.is_running {
            AppState {
                registration_status: RegistrationStatus::DaemonStopped,
                registration_idx: None,
                ..s
            }
        } else {
            s
        },
    }
}

/// Whether an exit may be used at an account level.
pub open spec fn exit_allows(e: ExitSummary, level: AccountLevel) -> bool {
    e.allowed_levels@.contains(level)
}

/// Whether `c` is the country of one of the first `n` exits that may be
/// used at `level`.
pub open spec fn offered_among(exits: Seq<ExitSummary>, n: int, level: AccountLevel, c: Seq<char>) -> bool {
    exists|k: int| 0 <= k < n && #[trigger] exit_allows(exits[k], level) && exits[k].country@ == c
}

/// Whether `c` is one of the countries in a list.
pub open spec fn listed(v: Seq<String>, c: Seq<char>) -> bool {
    exists|k: int| 0 <= k < v.len() && #[trigger] v[k]@ == c
}

/// A list of countries in strictly increasing lexicographic order (so
/// without repetitions).
pub open spec fn strictly_sorted(v: Seq<String>) -> bool {
    forall|i: int, j: int| 0 <= i < j < v.len() ==> lex_lt(#[trigger] v[i]@, #[trigger] v[j]@)
}

impl AppState {
    /// Records whether the daemon runs.
    pub fn set_daemon_running(&mut self, running: bool)
        requires
            old(self).wf(),
        ensures
            *final(self) == (AppState { is_running: running, ..*old(self) }),
            final(self).wf(),
    {
        self.is_running = running;
    }

    /// Ends the display of a switch of exit once it had time to settle.
    pub fn settle_switch(&mut self, now_ms: u64)
        requires
            old(self).wf(),
        ensures
            *final(self) == switch_settle_step(*old(self), now_ms),
            final(self).wf(),
    {
        if self.switch_in_progress {
            match self.switch_started_at {
                Some(t) => {
                    if now_ms.saturating_sub(t) >= SWITCH_SETTLE_MS {
                        self.switch_in_progress = false;
                    }
                },
                None => {
                    self.switch_in_progress = false;
                },
            }
        }
    }

    /// Whether the account should be asked for: the daemon runs and there is a secret.
    pub fn wants_user_info(&self) -> (b: bool)
        ensures
            b == (self.is_running && self.secret@.len() > 0),
    {
        self.is_running && !self.secret.as_str().is_empty()
    }

    /// Refreshes the account from the broker's report, if one came, at
    /// `now_secs` (seconds since the Unix epoch); returns the account level
    /// to filter the exit list with.
    pub fn refresh_account(&mut self, report: Option<UserSnapshot>, now_secs: u64) -> (level: AccountLevel)
        requires
            old(self).wf(),
        ensures
            (*final(self), level) == account_refresh_step(*old(self), report, now_secs),
            final(self).wf(),
    {
        self.poll_plus_prev_expires = round_remaining(self.plus_remaining_secs);
        let mut level = self.last_detected_level;
        if !self.is_running {
            return level;
        }
        match report {
            Some(u) => {
                self.plus_remaining_secs = match u.plus_expires_unix {
                    Some(e) => Some(e.saturating_sub(now_secs)),
                    None => None,
                };
                let e = match u.plus_expires_unix {
                    Some(e) => e,
                    None => 0,
                };
                level = if e > now_secs { AccountLevel::Plus } else { AccountLevel::Free };
            },
            None => {},
        }
        if level != self.last_detected_level {
            self.needs_cache_clear = true;
            self.level_notice = Some(
                match level {
                    AccountLevel::Plus => LevelNotice::VipDetected,
                    AccountLevel::Free => LevelNotice::VipExpired,
                },
            );
            self.last_detected_level = level;
        }
        level
    }

    /// Checks the watch for added Plus time.
    pub fn check_plus_poll(&mut self, now_ms: u64)
        requires
            old(self).wf(),
        ensures
            *final(self) == plus_poll_step(*old(self), now_ms),
            final(self).wf(),
    {
        match self.poll_plus_until {
            Some(deadline) => {
                if now_ms.saturating_sub(deadline) < PLUS_POLL_WINDOW_MS {
                    let new_days = match round_remaining(self.plus_remaining_secs) {
                        Some(d) => d,
                        None => 0,
                    };
                    let old_days = match self.poll_plus_prev_expires {
                        Some(d) => d,
                        None => 0,
                    };
                    if new_days > old_days {
                        self.plus_action_status = PlusStatus::Extended;
                        self.poll_plus_until = None;
                    }
                } else {
                    self.poll_plus_until = None;
                }
            },
            None => {},
        }
    }

    /// Whether the news should be fetched: none is held and the daemon runs.
    pub fn wants_news(&self, news_held: bool) -> (b: bool)
        ensures
            b == (!news_held && self.is_running),
    {
        !news_held && self.is_running
    }

    /// Whether the price tiers should be fetched: the Plus tab shows, the
    /// daemon runs and none are known yet.
    pub fn wants_price_points(&self) -> (b: bool)
        ensures
            b == (self.tab == TabIdx::Plus && self.is_running && self.price_points@.len() == 0),
    {
        self.tab == TabIdx::Plus && self.is_running && self.price_points.len() == 0
    }

    /// Whether the payment methods should be fetched: the Plus tab shows,
    /// the daemon runs and none are known yet.
    pub fn wants_payment_methods(&self) -> (b: bool)
        ensures
            b == (self.tab == TabIdx::Plus && self.is_running && self.payment_methods@.len() == 0),
    {
        self.tab == TabIdx::Plus && self.is_running && self.payment_methods.len() == 0
    }

    /// Takes fetched price tiers (days, cents), when none are known yet.
    pub fn load_price_points(&mut self, points: Vec<(u32, u32)>)
        requires
            old(self).wf(),
        ensures
            old(self).price_points@.len() == 0 ==> *final(self) == (AppState { price_points: points, ..*old(self) }),
            old(self).price_points@.len() != 0 ==> *final(self) == *old(self),
            final(self).wf(),
    {
        if self.price_points.len() == 0 {
            self.price_points = points;
        }
    }

    /// Takes fetched payment methods, when none are known yet.
    pub fn load_payment_methods(&mut self, methods: Vec<String>)
        requires
            old(self).wf(),
        ensures
            old(self).payment_methods@.len() == 0 ==> *final(self) == (AppState { payment_methods: methods, ..*old(self) }),
            old(self).payment_methods@.len() != 0 ==> *final(self) == *old(self),
            final(self).wf(),
    {
        if self.payment_methods.len() == 0 {
            self.payment_methods = methods;
        }
    }

    /// Takes the answer to a poll of the registration in progress.
    /// Returns whether the registration finished (so that the new secret
    /// is shown and saved).
    pub fn registration_polled(&mut self, reply: RpcReply<RegistrationProgress>) -> (done: bool)
        requires
            old(self).wf(),
        ensures
            *final(self) == registration_poll_step(*old(self), reply),
            done == (reply matches RpcReply::Done(p) && p.secret is Some),
            final(self).wf(),
    {
        match reply {
            RpcReply::Done(p) => match p.secret {
                Some(sec) => {
                    self.secret = sec;
                    self.registration_status = RegistrationStatus::Complete;
                    self.registration_idx = None;
                    self.needs_cache_clear = true;
                    self.last_detected_level = AccountLevel::Free;
                    self.plus_remaining_secs = None;
                    self.level_notice = if self.is_running {
                        Some(LevelNotice::NewAccount)
                    } else {
                        None
                    };
                    true
                },
                None => {
                    self.registration_status = RegistrationStatus::Progress(p.percent_text);
                    false
                },
            },
            RpcReply::Rejected(msg) => {
                self.registration_status = RegistrationStatus::Failed(msg);
                self.registration_idx = None;
                false
            },
            RpcReply::Failed(_) => {
                if !self.is_running {
                    self.registration_status = RegistrationStatus::DaemonStopped;
                    self.registration_idx = None;
                }
                false
            },
        }
    }
}


/// Whether an exit may be used at an account level.
fn allows(e: &ExitSummary, level: AccountLevel) -> (b: bool)
    ensures
        b == exit_allows(*e, level),
{
    let mut i: usize = 0;
    while i < e.allowed_levels.len()
        invariant
            i <= e.allowed_levels@.len(),
            forall|k: int| 0 <= k < i ==> e.allowed_levels@[k] != level,
        decreases e.allowed_levels@.len() - i,
    {
        if e.allowed_levels[i] == level {
            assert(e.allowed_levels@[i as int] == level);
            return true;
        }
        i = i + 1;
    }
    false
}

/// Inserting `c` at a position `p` that separates the smaller entries from
/// the larger ones keeps a list strictly sorted.
proof fn lemma_insert_sorted(v: Seq<String>, p: int, c: String)
    requires
        strictly_sorted(v),
        0 <= p <= v.len(),
        forall|q: int| 0 <= q < p ==> lex_lt(#[trigger] v[q]@, c@),
        p < v.len() ==> lex_lt(c@, v[p]@),
    ensures
        strictly_sorted(v.insert(p, c)),
{
    let w = v.insert(p, c);
    assert forall|i: int, j: int| 0 <= i < j < w.len() implies lex_lt(#[trigger] w[i]@, #[trigger] w[j]@) by {
        if j < p {
        } else if j == p {
            assert(w[i] == v[i]);
        } else if i < p {
            assert(w[j] == v[j - 1]);
            assert(w[i] == v[i]);
            if p < v.len() {
                if j - 1 > p {
                    lemma_lex_lt_transitive(c@, v[p]@, v[j - 1]@);
                }
                lemma_lex_lt_transitive(v[i]@, c@, v[j - 1]@);
            }
        } else if i == p {
            assert(w[j] == v[j - 1]);
            if j - 1 > p {
                lemma_lex_lt_transitive(c@, v[p]@, v[j - 1]@);
            }
        } else {
            assert(w[i] == v[i - 1]);
            assert(w[j] == v[j - 1]);
        }
    }
}

/// Adds a text to a strictly sorted list of texts, unless it is there
/// already, keeping the list strictly sorted.
pub fn insert_sorted_unique(out: &mut Vec<String>, c: &String)
    requires
        strictly_sorted(old(out)@),
    ensures
        strictly_sorted(final(out)@),
        forall|x: Seq<char>| listed(final(out)@, x) <==> (listed(old(out)@, x) || x == c@),
{
    let mut p: usize = 0;
    while p < out.len() && str_less(out[p].as_str(), c.as_str())
        invariant
            p <= out@.len(),
            forall|q: int| 0 <= q < p ==> lex_lt(#[trigger] out@[q]@, c@),
        decreases out@.len() - p,
    {
        p = p + 1;
    }
    if p < out.len() && str_equal(out[p].as_str(), c.as_str()) {
        assert forall|x: Seq<char>| listed(out@, x) <==> (listed(out@, x) || x == c@) by {
            if x == c@ {
                assert(out@[p as int]@ == x);
            }
        }
        return;
    }
    let ghost before = out@;
    proof {
        if p < out@.len() {
            lemma_lex_lt_total(out@[p as int]@, c@);
        }
        lemma_insert_sorted(before, p as int, *c);
    }
    out.insert(p, c.clone());
    assert(out@ == before.insert(p as int, *c));
    assert forall|x: Seq<char>| listed(out@, x) <==> (listed(before, x) || x == c@) by {
        if x == c@ {
            assert(out@[p as int]@ == x);
        }
        if listed(before, x) {
            let m = choose|m: int| 0 <= m < before.len() && #[trigger] before[m]@ == x;
            if m < p {
                assert(out@[m]@ == x);
            } else {
                assert(out@[m + 1]@ == x);
            }
        }
        if listed(out@, x) {
            let m = choose|m: int| 0 <= m < out@.len() && #[trigger] out@[m]@ == x;
            if m < p {
                assert(before[m]@ == x);
            } else if m > p {
                assert(before[m - 1]@ == x);
            }
        }
    }
}

/// The countries of the exits that may be used at an account level, each
/// once, in increasing lexicographic order.
pub fn offered_countries(exits: &Vec<ExitSummary>, level: AccountLevel) -> (out: Vec<String>)
    ensures
        strictly_sorted(out@),
        forall|c: Seq<char>| listed(out@, c) <==> offered_among(exits@, exits@.len() as int, level, c),
{
    let mut out: Vec<String> = Vec::new();
    let mut i: usize = 0;
    while i < exits.len()
        invariant
            i <= exits@.len(),
            strictly_sorted(out@),
            forall|c: Seq<char>| listed(out@, c) <==> offered_among(exits@, i as int, level, c),
        decreases exits@.len() - i,
    {
        let e = &exits[i];
        let ok = allows(e, level);
        let ghost before = out@;
        if ok {
            insert_sorted_unique(&mut out, &e.country);
        }
        assert forall|c: Seq<char>| listed(out@, c) <==> offered_among(exits@, i + 1, level, c) by {
            if offered_among(exits@, i + 1, level, c) {
                let k = choose|k: int| 0 <= k < i + 1 && #[trigger] exit_allows(exits@[k], level) && exits@[k].country@ == c;
                if k < i {
                    assert(offered_among(exits@, i as int, level, c));
                }
            }
            if listed(out@, c) {
                if listed(before, c) {
                    assert(offered_among(exits@, i as int, level, c));
                    let k = choose|k: int| 0 <= k < i && #[trigger] exit_allows(exits@[k], level) && exits@[k].country@ == c;
                    assert(0 <= k < i + 1 && exit_allows(exits@[k], level) && exits@[k].country@ == c);
                } else {
                    assert(0 <= i < i + 1 && exit_allows(exits@[i as int], level) && exits@[i as int].country@ == c);
                }
            }
        }
        i = i + 1;
    }
    out
}

/// Two strictly sorted lists of texts with the same entries are the same
/// list: a strictly sorted list is determined by the texts it holds.
pub proof fn lemma_sorted_determined(a: Seq<String>, b: Seq<String>)
    requires
        strictly_sorted(a),
        strictly_sorted(b),
        forall|x: Seq<char>| listed(a, x) <==> listed(b, x),
    ensures
        crate::logbuf::texts(a) == crate::logbuf::texts(b),
    decreases a.len(),
{
    if a.len() == 0 {
        if b.len() > 0 {
            assert(listed(b, b[0]@));
        }
        assert(crate::logbuf::texts(a) =~= crate::logbuf::texts(b));
    } else if b.len() == 0 {
        assert(listed(a, a[0]@));
    } else {
        // the last entries are the greatest, so they are equal
        let la = a.last();
        let lb = b.last();
        assert(listed(a, la@));
        assert(listed(b, lb@));
        let ka = choose|k: int| 0 <= k < b.len() && #[trigger] b[k]@ == la@;
        let kb = choose|k: int| 0 <= k < a.len() && #[trigger] a[k]@ == lb@;
        if la@ != lb@ {
            lemma_lex_lt_total(la@, lb@);
            if lex_lt(la@, lb@) {
                // lb is in a at kb, below the last entry la
                if kb < a.len() - 1 {
                    assert(lex_lt(a[kb]@, la@));
                    lemma_lex_lt_asymmetric(la@, lb@);
                }
            } else {
                if ka < b.len() - 1 {
                    assert(lex_lt(b[ka]@, lb@));
                    lemma_lex_lt_asymmetric(lb@, la@);
                }
            }
        }
        let a2 = a.drop_last();
        let b2 = b.drop_last();
        assert forall|x: Seq<char>| listed(a2, x) <==> listed(b2, x) by {
            if listed(a2, x) {
                let m = choose|m: int| 0 <= m < a2.len() && #[trigger] a2[m]@ == x;
                assert(lex_lt(a[m]@, la@));
                assert(listed(a, x));
                let n = choose|n: int| 0 <= n < b.len() && #[trigger] b[n]@ == x;
                if n == b.len() - 1 {
                    lemma_lex_lt_irreflexive(x);
                }
                assert(b2[n]@ == x);
            }
            if listed(b2, x) {
                let m = choose|m: int| 0 <= m < b2.len() && #[trigger] b2[m]@ == x;
                assert(lex_lt(b[m]@, lb@));
                assert(listed(b, x));
                let n = choose|n: int| 0 <= n < a.len() && #[trigger] a[n]@ == x;
                if n == a.len() - 1 {
                    lemma_lex_lt_irreflexive(x);
                }
                assert(a2[n]@ == x);
            }
        }
        lemma_sorted_determined(a2, b2);
        assert(crate::logbuf::texts(a) =~= crate::logbuf::texts(a2).push(la@));
        assert(crate::logbuf::texts(b) =~= crate::logbuf::texts(b2).push(lb@));
    }
}

impl AppState {
    /// Replaces the country list with the countries of the exits that may be
    /// used at `level`, each once, in increasing order.
    pub fn refresh_countries(&mut self, exits: &Vec<ExitSummary>, level: AccountLevel)
        requires
            old(self).wf(),
        ensures
            *final(self) == (AppState { countries: final(self).countries, ..*old(self) }),
            strictly_sorted(final(self).countries@),
            forall|c: Seq<char>| listed(final(self).countries@, c) <==> offered_among(exits@, exits@.len() as int, level, c),
            final(self).wf(),
    {
        self.countries = offered_countries(exits, level);
    }
}


/// While the daemon runs, a report of the account decides its level: Plus
/// exactly while its Plus time has not ended; a change of level asks for a
/// cache clear on the next start and shows a notice.
pub proof fn law_level_follows_expiry(s: AppState, u: UserSnapshot, now_secs: u64)
    requires
        s.is_running,
    ensures
        account_refresh_step(s, Some(u), now_secs).1 == level_at(u, now_secs),
        account_refresh_step(s, Some(u), now_secs).0.last_detected_level == level_at(u, now_secs),
        level_at(u, now_secs) != s.last_detected_level ==> account_refresh_step(s, Some(u), now_secs).0.needs_cache_clear
            && account_refresh_step(s, Some(u), now_secs).0.level_notice is Some,
        (level_at(u, now_secs) == AccountLevel::Plus) == (u.plus_expires_unix matches Some(e) && e > now_secs),
{
}

/// With the daemon stopped, a refresh of the account changes nothing but
/// the days kept for comparison, and keeps the level.
pub proof fn law_stopped_daemon_keeps_level(s: AppState, r: Option<UserSnapshot>, now_secs: u64)
    requires
        !s.is_running,
    ensures
        account_refresh_step(s, r, now_secs).0 == (AppState {
            poll_plus_prev_expires: rounded_remaining(s.plus_remaining_secs),
            ..s
        }),
        account_refresh_step(s, r, now_secs).1 == s.last_detected_level,
{
}

/// A switch of exit shows as in progress for 3 s at most.
pub proof fn law_switch_settles(s: AppState, now_ms: u64)
    requires
        s.switch_started_at matches Some(t) && now_ms >= t + SWITCH_SETTLE_MS,
    ensures
        !switch_settle_step(s, now_ms).switch_in_progress,
{
}

/// A finished registration puts the new secret in place and starts the
/// account afresh as a Free account whose cache is cleared on the next start.
pub proof fn law_registration_starts_fresh_account(s: AppState, sec: String, percent: String)
    ensures
        ({
            let t = registration_poll_step(
                s,
                RpcReply::Done(RegistrationProgress { secret: Some(sec), percent_text: percent }),
            );
            &&& t.secret == sec
            &&& t.last_detected_level == AccountLevel::Free
            &&& t.needs_cache_clear
            &&& t.plus_remaining_secs is None
            &&& t.registration_idx is None
        }),
{
}


/// Whether the client starts the daemon when it starts: an account is set
/// up and the daemon does not run yet.
pub fn autostart_wanted(prefs: &crate::state::TuiPrefs, running: bool) -> (b: bool)
    ensures
        b == (prefs.secret@.len() > 0 && !running),
{
    prefs.has_account() && !running
}


/// The watch for added Plus time reports it within its window: when the
/// days left (rounded) are more than the days known before, counting no
/// earlier days as 0, the watch ends with the success message. So an
/// account that never had Plus time sees its first days reported, and an
/// account whose days grew sees them reported.
pub proof fn law_plus_watch_reports_added_days(s: AppState, now_ms: u64, deadline: u64, secs: u64)
    requires
        s.poll_plus_until == Some(deadline),
        now_ms < deadline + PLUS_POLL_WINDOW_MS,
        s.plus_remaining_secs == Some(secs),
    ensures
        s.poll_plus_prev_expires is None && secs >= 43200 ==> plus_poll_step(s, now_ms).plus_action_status
            is Extended && plus_poll_step(s, now_ms).poll_plus_until is None,
        s.poll_plus_prev_expires matches Some(p) && (secs + 43200) / 86400 > p ==> plus_poll_step(s, now_ms).plus_action_status
            is Extended && plus_poll_step(s, now_ms).poll_plus_until is None,
        s.poll_plus_prev_expires matches Some(p) && (secs + 43200) / 86400 <= p ==> plus_poll_step(s, now_ms) == s,
{
}

/// After its window the watch ends without a message.
pub proof fn law_plus_watch_ends_after_window(s: AppState, now_ms: u64, deadline: u64)
    requires
        s.poll_plus_until == Some(deadline),
        now_ms >= deadline + PLUS_POLL_WINDOW_MS,
    ensures
        plus_poll_step(s, now_ms) == (AppState { poll_plus_until: None, ..s }),
{
}

} // verus!
