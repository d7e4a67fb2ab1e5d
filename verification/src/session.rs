//! What the client believes of the user's session: whether it is active,
//! and for how long.

use vstd::prelude::*;

verus! {

/// How long a session lasts where nothing else says so, in milliseconds:
/// one hour.
pub const DEFAULT_LIFETIME_MS: u32 = 3_600_000;

/// The instant that a text in the format of RFC 3339 names, in
/// milliseconds since the first of January 1970, or nothing where the text
/// is not in that format.
pub uninterp spec fn parsed_instant(text: Seq<char>) -> Option<i64>;

/// Reads a date and time with `chrono::DateTime::parse_from_rfc3339` and
/// gives what `timestamp_millis` makes of the result. The contract names
/// the result and claims nothing else of it.
#[verifier::external_body]
pub(crate) fn parse_instant(text: &str) -> (r: Option<i64>)
    ensures
        r == parsed_instant(text@),
{
    match chrono::DateTime::parse_from_rfc3339(text) {
        Ok(instant) => Some(instant.timestamp_millis()),
        Err(_) => None,
    }
}

/// The milliseconds from `now` until `expiry`, where they are a number
/// that a timer takes, and zero otherwise: for an instant that has passed
/// and for one that is too far away.
pub open spec fn remaining_millis(expiry: int, now: int) -> int {
    if 0 <= expiry - now <= u32::MAX {
        expiry - now
    } else {
        0
    }
}

/// The milliseconds from `now` until `expiry`.
pub fn remaining(expiry: i64, now: i64) -> (r: u32)
    ensures
        r == remaining_millis(expiry as int, now as int),
{
    let d: i128 = expiry as i128 - now as i128;
    if 0 <= d && d <= 0xFFFF_FFFF {
        d as u32
    } else {
        0
    }
}

/// What the identity service says of a session.
#[derive(Debug, PartialEq, Eq)]
pub struct SessionReport {
    pub active: Option<bool>,
    /// When the session ends, in the format of RFC 3339.
    pub expires_at: Option<String>,
}

/// The mathematical value of a [`SessionReport`].
pub struct SessionReportView {
    pub active: Option<bool>,
    pub expires_at: Option<Seq<char>>,
}

impl View for SessionReport {
    type V = SessionReportView;

    open spec fn view(&self) -> SessionReportView {
        SessionReportView { active: self.active, expires_at: self.expires_at.deep_view() }
    }
}

impl DeepView for SessionReport {
    type V = SessionReportView;

    open spec fn deep_view(&self) -> SessionReportView {
        self@
    }
}

/// The instant at which a session ends, where the service gives one that
/// can be read.
pub open spec fn expiry_of(expires_at: Option<Seq<char>>) -> Option<i64> {
    match expires_at {
        Some(text) => parsed_instant(text),
        None => None,
    }
}

/// The state of a session at the instant `now`: whether it is active, and
/// the milliseconds after which it has to be looked at again.
///
/// A session is active where the service says so, and where it ends later
/// than `now`. Only in the second case there is a time to wait.
pub open spec fn state_at(active: Option<bool>, expiry: Option<i64>, now: int) -> (
    bool,
    Option<u32>,
) {
    let left = match expiry {
        Some(e) => remaining_millis(e as int, now),
        None => 0,
    };
    (active == Some(true) || left > 0, if left > 0 {
        Some(left as u32)
    } else {
        None
    })
}

/// The state of a session at the instant `now`, from what the service says
/// of it and the instant at which it ends.
pub fn session_state_at(active: Option<bool>, expiry: Option<i64>, now: i64) -> (r: (
    bool,
    Option<u32>,
))
    ensures
        r == state_at(active, expiry, now as int),
{
    let left = match expiry {
        Some(e) => remaining(e, now),
        None => 0,
    };
    let is_active = match active {
        Some(a) => a || left > 0,
        None => left > 0,
    };
    (is_active, if left > 0 {
        Some(left)
    } else {
        None
    })
}

/// The state of a session where the service has answered with `report`,
/// and of no session where it has not.
pub open spec fn session_state(report: Option<SessionReportView>, now: int) -> (
    bool,
    Option<u32>,
) {
    match report {
        Some(r) => state_at(r.active, expiry_of(r.expires_at), now),
        None => (false, None),
    }
}

/// Reads the instant at which a session ends.
pub fn expiry_instant(expires_at: &Option<String>) -> (r: Option<i64>)
    ensures
        r == expiry_of(expires_at.deep_view()),
{
    match expires_at {
        Some(text) => parse_instant(text.as_str()),
        None => None,
    }
}

/// The state of the session at the instant `now`, in milliseconds since
/// the first of January 1970. `report` is what the service has answered,
/// and nothing where it has not answered or has refused.
pub fn use_session_state(report: &Option<SessionReport>, now: i64) -> (r: (bool, Option<u32>))
    ensures
        r == session_state(report.deep_view(), now as int),
{
    match report {
        Some(found) => session_state_at(found.active, expiry_instant(&found.expires_at), now),
        None => (false, None),
    }
}

/// What the owner of a session store has to do with its timers after a
/// change: stop the timer named in `cancel`, and start the one named in
/// `arm`, which fires after so many milliseconds.
#[derive(Clone, Copy, Debug, PartialEq, Eq)]
pub struct TimerChange {
    pub cancel: Option<u64>,
    pub arm: Option<(u64, u32)>,
}

/// How the identity service took a submission.
#[derive(Clone, Copy, Debug, PartialEq, Eq, Structural)]
pub enum SubmitOutcome {
    /// The service accepted what was submitted.
    Accepted,
    /// The service refused it.
    Refused,
    /// No answer has come.
    Unanswered,
}

/// The one place that knows whether the user is signed in. It owns the
/// timer that ends the session: at most one timer is armed at a time, and
/// a timer that was replaced ends nothing when it fires.
#[derive(Debug)]
pub struct SessionStore {
    active: bool,
    timer: Option<u64>,
    issued: u64,
}

/// The number that follows `n` among the numbers of timers.
pub open spec fn next_timer(n: u64) -> u64 {
    if n == u64::MAX {
        0
    } else {
        (n + 1) as u64
    }
}

impl SessionStore {
    /// Whether the user is signed in.
    pub closed spec fn is_active(&self) -> bool {
        self.active
    }

    /// The timer that is armed, if one is.
    pub closed spec fn armed(&self) -> Option<u64> {
        self.timer
    }

    /// The number that the next timer gets.
    pub closed spec fn upcoming(&self) -> u64 {
        self.issued
    }

    /// A timer is armed only while the session is active, and the armed
    /// timer is the one that was issued last.
    #[verifier::type_invariant]
    spec fn wf(self) -> bool {
        self.timer matches Some(id) ==> self.active && next_timer(id) == self.issued
    }

    /// A store for a user who is not signed in.
    pub fn new() -> (store: Self)
        ensures
            !store.is_active(),
            store.armed() is None,
    {
        SessionStore { active: false, timer: None, issued: 0 }
    }

    /// Whether the user is signed in.
    pub fn active(&self) -> (r: bool)
        ensures
            r == self.is_active(),
    {
        self.active
    }

    /// The timer that is armed, if one is. A timer is armed only while the
    /// session is active, and the next timer gets another number than the
    /// armed one.
    pub fn timer(&self) -> (r: Option<u64>)
        ensures
            r == self.armed(),
            r is Some ==> self.is_active(),
            r != Some(self.upcoming()),
    {
        proof {
            use_type_invariant(self);
        }
        self.timer
    }

    /// Marks the session as active. With a lifetime a new timer is armed
    /// that ends the session after so many milliseconds; without one the
    /// session lasts until it is cleared. A timer that was armed before is
    /// cancelled either way, and is not the one that is armed now.
    pub fn set_active(&mut self, lifetime: Option<u32>) -> (change: TimerChange)
        ensures
            final(self).is_active(),
            change.cancel == old(self).armed(),
            lifetime matches Some(ms) ==> {
                &&& change.arm == Some((old(self).upcoming(), ms))
                &&& final(self).armed() == Some(old(self).upcoming())
                &&& final(self).upcoming() == next_timer(old(self).upcoming())
                &&& change.cancel != Some(old(self).upcoming())
            },
            lifetime is None ==> {
                &&& change.arm is None
                &&& final(self).armed() is None
                &&& final(self).upcoming() == old(self).upcoming()
            },
    {
        proof {
            use_type_invariant(&*self);
        }
        let cancel = self.timer;
        let id = self.issued;
        match lifetime {
            Some(ms) => {
                let next = if id == u64::MAX {
                    0
                } else {
                    id + 1
                };
                *self = SessionStore { active: true, timer: Some(id), issued: next };
                TimerChange { cancel, arm: Some((id, ms)) }
            },
            None => {
                *self = SessionStore { active: true, timer: None, issued: id };
                TimerChange { cancel, arm: None }
            },
        }
    }

    /// Marks the session as ended and cancels the timer that was armed.
    pub fn clear(&mut self) -> (change: TimerChange)
        ensures
            !final(self).is_active(),
            final(self).armed() is None,
            final(self).upcoming() == old(self).upcoming(),
            change.cancel == old(self).armed(),
            change.arm is None,
    {
        let cancel = self.timer;
        *self = SessionStore { active: false, timer: None, issued: self.issued };
        TimerChange { cancel, arm: None }
    }

    /// Takes note that the timer `id` has fired. The armed timer ends the
    /// session; any other timer changes nothing. Says whether the session
    /// was ended.
    pub fn timer_fired(&mut self, id: u64) -> (ended: bool)
        ensures
            ended == (old(self).armed() == Some(id)),
            ended ==> !final(self).is_active() && final(self).armed() is None,
            !ended ==> final(self).is_active() == old(self).is_active() && final(self).armed()
                == old(self).armed(),
            final(self).upcoming() == old(self).upcoming(),
    {
        match self.timer {
            Some(current) => {
                if current == id {
                    *self = SessionStore { active: false, timer: None, issued: self.issued };
                    true
                } else {
                    false
                }
            },
            None => false,
        }
    }

    /// Brings the store in line with a state that [`use_session_state`]
    /// has found.
    pub fn apply(&mut self, state: (bool, Option<u32>)) -> (change: TimerChange)
        ensures
            final(self).is_active() == state.0,
            change.cancel == old(self).armed(),
            state.0 && state.1 is Some ==> change.arm == Some((old(self).upcoming(), state.1->0))
                && final(self).armed() == Some(old(self).upcoming()),
            !(state.0 && state.1 is Some) ==> change.arm is None && final(self).armed() is None,
    {
        if state.0 {
            self.set_active(state.1)
        } else {
            self.clear()
        }
    }
}

/// Takes note of how the service took a sign-in. Where it accepted, the
/// session is active for `lifetime` milliseconds from now on. Where it
/// refused or has not answered, nothing changes.
pub fn login_submit_callback(
    store: &mut SessionStore,
    outcome: SubmitOutcome,
    lifetime: u32,
) -> (change: TimerChange)
    ensures
        outcome == SubmitOutcome::Accepted ==> {
            &&& final(store).is_active()
            &&& final(store).armed() == Some(old(store).upcoming())
            &&& change.cancel == old(store).armed()
            &&& change.arm == Some((old(store).upcoming(), lifetime))
        },
        outcome != SubmitOutcome::Accepted ==> {
            &&& final(store).is_active() == old(store).is_active()
            &&& final(store).armed() == old(store).armed()
            &&& final(store).upcoming() == old(store).upcoming()
            &&& change.cancel is None
            &&& change.arm is None
        },
{
    match outcome {
        SubmitOutcome::Accepted => store.set_active(Some(lifetime)),
        SubmitOutcome::Refused => TimerChange { cancel: None, arm: None },
        SubmitOutcome::Unanswered => TimerChange { cancel: None, arm: None },
    }
}

} // verus!
