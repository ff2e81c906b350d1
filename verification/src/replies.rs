//! What the state becomes once the outside work that a key asked for has
//! answered: the start of the daemon, and the replies of the daemon and
//! the broker.
use vstd::prelude::*;
use crate::keys::rounded_remaining;
use crate::state::{AppState, PlusStatus, RegistrationStatus};

verus! {

/// The reply to a request to the daemon: its answer, its refusal with a
/// message, or the failure of the request itself with a message.
pub enum RpcReply<T> {
    Done(T),
    Rejected(String),
    Failed(String),
}

/// The state once the daemon that a registration needed was started or
/// could not be started (with a message).
pub open spec fn daemon_started_step(s: AppState, started: Result<bool, String>) -> (AppState, bool) {
    match started {
        Ok(running) => (AppState { is_running: running, ..s }, true),
        Err(msg) => (AppState { registration_status: RegistrationStatus::DaemonFailed(msg), ..s }, false),
    }
}

/// The state once the daemon answered the request to register an account.
pub open spec fn registration_started_step(s: AppState, reply: RpcReply<usize>) -> AppState {
    match reply {
        RpcReply::Done(idx) => AppState {
            registration_idx: Some(idx),
            registration_status: RegistrationStatus::Started,
            ..s
        },
        RpcReply::Rejected(msg) => AppState {
            registration_status: RegistrationStatus::FailedToStart(msg),
            ..s
        },
        RpcReply::Failed(msg) => AppState { registration_status: RegistrationStatus::RpcError(msg), ..s },
    }
}

/// The state once the broker answered a voucher redemption (with the days
/// added, when they could be read) at time `now_ms`: on success the URL is
/// dropped and the account is watched for a minute for the added time.
pub open spec fn redeem_finished_step(s: AppState, reply: RpcReply<Option<i32>>, now_ms: u64) -> AppState {
    match reply {
        RpcReply::Done(days) => AppState {
            plus_action_status: PlusStatus::Redeemed(
                match days {
                    Some(d) => d,
                    None => 0,
                },
            ),
            plus_url_to_show: None,
            poll_plus_prev_expires: rounded_remaining(s.plus_remaining_secs),
            poll_plus_until: Some((now_ms + 60_000) as u64),
            plus_action_in_progress: false,
            ..s
        },
        RpcReply::Rejected(msg) => AppState {
            plus_action_status: PlusStatus::RedeemFailed(msg),
            plus_action_in_progress: false,
            ..s
        },
        RpcReply::Failed(msg) => AppState {
            plus_action_status: PlusStatus::RpcError(msg),
            plus_action_in_progress: false,
            ..s
        },
    }
}

/// The state once the broker answered a request for a payment URL (with
/// the URL, when it could be read) at time `now_ms`: a nonempty URL is
/// shown and the account is watched for five minutes for the added time.
pub open spec fn payment_finished_step(s: AppState, reply: RpcReply<Option<String>>, now_ms: u64) -> AppState {
    match reply {
        RpcReply::Done(url) => {
            let nonempty = match url {
                Some(u) => u@.len() > 0,
                None => false,
            };
            if nonempty {
                AppState {
                    plus_url_to_show: url,
                    plus_action_status: PlusStatus::UrlReady,
                    poll_plus_prev_expires: rounded_remaining(s.plus_remaining_secs),
                    poll_plus_until: Some((now_ms + 300_000) as u64),
                    plus_action_in_progress: false,
                    ..s
                }
            } else {
                AppState {
                    plus_action_status: PlusStatus::EmptyUrl,
                    plus_action_in_progress: false,
                    ..s
                }
            }
        },
        RpcReply::Rejected(msg) => AppState {
            plus_action_status: PlusStatus::PaymentFailed(msg),
            plus_action_in_progress: false,
            ..s
        },
        RpcReply::Failed(msg) => AppState {
            plus_action_status: PlusStatus::RpcError(msg),
            plus_action_in_progress: false,
            ..s
        },
    }
}

/// Rounded whole days in a number of seconds (halves up).
pub fn round_days(secs: u64) -> (d: u64)
    ensures
        d == crate::keys::rounded_days(secs),
{
    let q = secs / 86400;
    if secs % 86400 >= 43200 {
        q + 1
    } else {
        q
    }
}

/// Rounded whole days of an optional number of seconds.
pub fn round_remaining(o: Option<u64>) -> (r: Option<u64>)
    ensures
        r == rounded_remaining(o),
{
    match o {
        Some(secs) => Some(round_days(secs)),
        None => None,
    }
}

impl AppState {
    /// Takes the outcome of starting the daemon for a registration: whether
    /// it runs now, or the message of its failure. Returns whether the
    /// registration goes on.
    pub fn registration_daemon_started(&mut self, started: Result<bool, String>) -> (go_on: bool)
        requires
            old(self).wf(),
        ensures
            (*final(self), go_on) == daemon_started_step(*old(self), started),
            final(self).wf(),
    {
        match started {
            Ok(running) => {
                self.is_running = running;
                true
            },
            Err(msg) => {
                self.registration_status = RegistrationStatus::DaemonFailed(msg);
                false
            },
        }
    }

    /// Takes the daemon's answer to the request to register an account.
    pub fn registration_started(&mut self, reply: RpcReply<usize>)
        requires
            old(self).wf(),
        ensures
            *final(self) == registration_started_step(*old(self), reply),
            final(self).wf(),
    {
        match reply {
            RpcReply::Done(idx) => {
                self.registration_idx = Some(idx);
                self.registration_status = RegistrationStatus::Started;
            },
            RpcReply::Rejected(msg) => {
                self.registration_status = RegistrationStatus::FailedToStart(msg);
            },
            RpcReply::Failed(msg) => {
                self.registration_status = RegistrationStatus::RpcError(msg);
            },
        }
    }

    /// Takes the broker's answer to a voucher redemption.
    pub fn redeem_finished(&mut self, reply: RpcReply<Option<i32>>, now_ms: u64)
        requires
            old(self).wf(),
            now_ms + 60_000 <= u64::MAX,
        ensures
            *final(self) == redeem_finished_step(*old(self), reply, now_ms),
            final(self).wf(),
    {
        match reply {
            RpcReply::Done(days) => {
                self.plus_action_status = PlusStatus::Redeemed(
                    match days {
                        Some(d) => d,
                        None => 0,
                    },
                );
                self.plus_url_to_show = None;
                self.poll_plus_prev_expires = round_remaining(self.plus_remaining_secs);
                self.poll_plus_until = Some(now_ms + 60_000);
                self.plus_action_in_progress = false;
            },
            RpcReply::Rejected(msg) => {
                self.plus_action_status = PlusStatus::RedeemFailed(msg);
                self.plus_action_in_progress = false;
            },
            RpcReply::Failed(msg) => {
                self.plus_action_status = PlusStatus::RpcError(msg);
                self.plus_action_in_progress = false;
            },
        }
    }

    /// Takes the broker's answer to a request for a payment URL.
    pub fn payment_finished(&mut self, reply: RpcReply<Option<String>>, now_ms: u64)
        requires
            old(self).wf(),
            now_ms + 300_000 <= u64::MAX,
        ensures
            *final(self) == payment_finished_step(*old(self), reply, now_ms),
            final(self).wf(),
    {
        match reply {
            RpcReply::Done(url) => {
                let nonempty = match &url {
                    Some(u) => !u.as_str().is_empty(),
                    None => false,
                };
                if nonempty {
                    self.plus_url_to_show = url;
                    self.plus_action_status = PlusStatus::UrlReady;
                    self.poll_plus_prev_expires = round_remaining(self.plus_remaining_secs);
                    self.poll_plus_until = Some(now_ms + 300_000);
                } else {
                    self.plus_action_status = PlusStatus::EmptyUrl;
                }
                self.plus_action_in_progress = false;
            },
            RpcReply::Rejected(msg) => {
                self.plus_action_status = PlusStatus::PaymentFailed(msg);
                self.plus_action_in_progress = false;
            },
            RpcReply::Failed(msg) => {
                self.plus_action_status = PlusStatus::RpcError(msg);
                self.plus_action_in_progress = false;
            },
        }
    }
}


/// Every answer to a Plus-tab action ends it: whatever the broker replied,
/// no action is in progress afterwards, and the message line says how it went.
pub proof fn law_replies_end_plus_actions(
    s: AppState,
    r1: RpcReply<Option<i32>>,
    r2: RpcReply<Option<String>>,
    now_ms: u64,
)
    ensures
        !redeem_finished_step(s, r1, now_ms).plus_action_in_progress,
        !payment_finished_step(s, r2, now_ms).plus_action_in_progress,
        !(redeem_finished_step(s, r1, now_ms).plus_action_status is Empty),
        !(payment_finished_step(s, r2, now_ms).plus_action_status is Empty),
{
}

} // verus!
