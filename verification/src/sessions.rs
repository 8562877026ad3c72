//! Session lifetimes: how long a login lasts, when a session counts as live,
//! and which sessions the periodic sweep removes.

use vstd::prelude::*;
use crate::protocol::{Command, CommandView, Outcome};
use crate::records::Session;

verus! {

/// Seconds that a session lasts after login.
pub const SESSION_LIFE: i64 = 1800;

/// Seconds between two sweeps of expired sessions.
pub const SESSION_CLEANING_FREQUENCY: u64 = 1800;

/// The expiration date of a session opened at `now`.
pub open spec fn expiry_after(now: int) -> int {
    now + SESSION_LIFE
}

/// A session counts as live at `now` up to and including its expiration date.
pub open spec fn is_live(expiration_date: int, now: int) -> bool {
    now <= expiration_date
}

/// The sweep at `now` removes the sessions whose expiration date is before `now`.
pub open spec fn is_swept(expiration_date: int, now: int) -> bool {
    expiration_date < now
}

/// The expiration date of a session opened at `now`.
pub fn session_expiry(now: i64) -> (res: i64)
    requires
        now <= i64::MAX - SESSION_LIFE,
    ensures
        res == expiry_after(now as int),
{
    now + SESSION_LIFE
}

/// Whether a session is still live at `now`.
pub fn session_is_live(session: &Session, now: i64) -> (res: bool)
    ensures
        res == is_live(session.expiration_date as int, now as int),
{
    now <= session.expiration_date
}

/// Calls `chrono::Utc::now().timestamp()`: the current time in whole seconds
/// since the Unix epoch. Nothing is stated of the value: it is the time.
#[verifier::external_body]
fn clock_seconds() -> i64 {
    chrono::Utc::now().timestamp()
}

/// Reads the clock, as the answer to `Command::ReadClock`.
pub fn read_clock() -> (res: Outcome)
    ensures
        res is Clock,
{
    Outcome::Clock(clock_seconds())
}

/// The command of one sweep of expired sessions, given the clock's answer.
pub fn sweep_expired_sessions(clock: &Outcome) -> (res: Option<Command>)
    ensures
        match clock {
            Outcome::Clock(now) => res matches Some(c) && c@ == (CommandView::DeleteExpiredSessions { now: *now }),
            _ => res is None,
        },
{
    match clock {
        Outcome::Clock(now) => Some(Command::DeleteExpiredSessions { now: *now }),
        _ => None,
    }
}

/// A session is live at a moment exactly when the sweep at that moment keeps it.
pub proof fn lemma_live_iff_not_swept(expiration_date: int, now: int)
    ensures
        is_live(expiration_date, now) <==> !is_swept(expiration_date, now),
{
}

/// A session opened at `opened` is live from then until `SESSION_LIFE`
/// seconds later, and is swept by any sweep after that.
pub proof fn lemma_session_lifetime(opened: int, now: int)
    ensures
        opened <= now <= opened + SESSION_LIFE ==> is_live(expiry_after(opened), now),
        now > opened + SESSION_LIFE ==> is_swept(expiry_after(opened), now) && !is_live(
            expiry_after(opened),
            now,
        ),
{
}

} // verus!
