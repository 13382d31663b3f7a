//! Transient status banners.  At most one alert is visible at a time; a new
//! one replaces the previous one, and an alert expires lazily: it is cleared
//! the first time it is observed after its time to live has elapsed.

use vstd::prelude::*;

verus! {

/// How long an alert stays visible, in milliseconds.
pub const ALERT_TTL_MS: u64 = 5000;

/// How urgently an alert is displayed.
#[derive(Debug, Clone, Copy, PartialEq, Eq, Structural)]
pub enum AlertPriority {
    Green,
    Yellow,
    Red,
}

/// A transient banner: its text, priority, creation time, and time to live.
#[derive(Debug, Clone)]
pub struct AlertPopup {
    pub duration_ms: u64,
    pub start_ms: u64,
    pub priority: AlertPriority,
    pub text: String,
}

impl AlertPopup {
    /// Whether the alert is still visible at time `now_ms`: strictly less
    /// than `duration_ms` milliseconds have passed since its creation.
    pub open spec fn valid_at(self, now_ms: u64) -> bool {
        now_ms - self.start_ms < self.duration_ms
    }

    /// A banner created at time `now_ms`.
    pub fn new(duration_ms: u64, text: String, priority: AlertPriority, now_ms: u64) -> (r: Self)
        ensures
            r == (AlertPopup { duration_ms, start_ms: now_ms, priority, text }),
    {
        AlertPopup { duration_ms, start_ms: now_ms, priority, text }
    }

    /// Checks whether the popup should still be displayed.  If not, the
    /// caller must clear it.
    pub fn is_valid(&self, now_ms: u64) -> (r: bool)
        requires
            self.start_ms <= now_ms,
        ensures
            r == self.valid_at(now_ms),
    {
        now_ms - self.start_ms < self.duration_ms
    }
}

/// The life of an alert: visible the moment it is created (given a positive
/// time to live), and invalid from the moment its time to live has elapsed;
/// nothing but a new creation makes an alert visible again.
pub proof fn lemma_alert_lifecycle(a: AlertPopup, t: u64)
    ensures
        a.duration_ms > 0 ==> a.valid_at(a.start_ms),
        a.start_ms + a.duration_ms <= t ==> !a.valid_at(t),
{
}

} // verus!
