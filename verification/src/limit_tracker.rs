//! A quota tracker that warns through a user-supplied messenger as a value
//! approaches its maximum.

use vstd::prelude::*;

verus! {

/// The sink a tracker reports through; implemented by the user of the
/// library (a test doubles it with a recording mock).
pub trait Messenger {
    fn send(&self, msg: &str);
}

/// The message class a value/maximum pair calls for.
#[derive(Debug, Clone, Copy, PartialEq, Eq, Structural)]
pub enum QuotaLevel {
    /// Below three quarters of the maximum: nothing to say.
    Quiet,
    /// At or above three quarters of the maximum.
    Warning,
    /// At or above nine tenths of the maximum.
    Urgent,
    /// At or above the maximum itself.
    OverQuota,
}

/// The message class for `value` against `max`: the ratio `value / max`
/// measured against the fixed 0.75, 0.9 and 1.0 thresholds. An exhausted
/// zero maximum is over quota as soon as any value is set.
pub open spec fn quota_level_of(value: int, max: int) -> QuotaLevel {
    if max == 0 {
        if value > 0 {
            QuotaLevel::OverQuota
        } else {
            QuotaLevel::Quiet
        }
    } else if value >= max {
        QuotaLevel::OverQuota
    } else if 10 * value >= 9 * max {
        QuotaLevel::Urgent
    } else if 4 * value >= 3 * max {
        QuotaLevel::Warning
    } else {
        QuotaLevel::Quiet
    }
}

/// The message class for `value` against `max`; exactly
/// `quota_level_of`.
pub fn quota_level(value: usize, max: usize) -> (r: QuotaLevel)
    ensures
        r == quota_level_of(value as int, max as int),
{
    if max == 0 {
        if value > 0 {
            QuotaLevel::OverQuota
        } else {
            QuotaLevel::Quiet
        }
    } else if value >= max {
        QuotaLevel::OverQuota
    } else if (value as u128) * 10 >= (max as u128) * 9 {
        QuotaLevel::Urgent
    } else if (value as u128) * 4 >= (max as u128) * 3 {
        QuotaLevel::Warning
    } else {
        QuotaLevel::Quiet
    }
}

/// Tracks a value against a maximum and sends one message through the
/// messenger whenever a newly set value is at warning level or worse.
pub struct LimitTracker<'a, T: Messenger> {
    messenger: &'a T,
    value: usize,
    max: usize,
}

impl<'a, T: Messenger> LimitTracker<'a, T> {
    /// The tracked value.
    pub closed spec fn value_view(self) -> usize {
        self.value
    }

    /// The tracked maximum.
    pub closed spec fn max_view(self) -> usize {
        self.max
    }

    /// A tracker at value zero.
    pub fn new(messenger: &'a T, max: usize) -> (r: LimitTracker<'a, T>)
        ensures
            r.value_view() == 0,
            r.max_view() == max,
    {
        LimitTracker { messenger, value: 0, max }
    }

    /// Stores `value` and sends the message its quota level calls for:
    /// nothing below three quarters of the maximum, a warning from three
    /// quarters, an urgent warning from nine tenths, and an over-quota
    /// error from the maximum on.
    pub fn set_value(&mut self, value: usize)
        ensures
            final(self).value_view() == value,
            final(self).max_view() == old(self).max_view(),
    {
        self.value = value;
        let level = quota_level(self.value, self.max);
        match level {
            QuotaLevel::OverQuota => {
                self.messenger.send("Error: You are over your quota!");
            },
            QuotaLevel::Urgent => {
                self.messenger.send("Urgent warning: You've used up over 90% of your quota!");
            },
            QuotaLevel::Warning => {
                self.messenger.send("Warning: You've used up over 75% of your quota!");
            },
            QuotaLevel::Quiet => {},
        }
    }
}

} // verus!
