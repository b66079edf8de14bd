//! A quota tracker that tells a messenger how close a value has come to a
//! maximum: a warning from three quarters, an urgent warning from nine
//! tenths, and an error once the maximum is exceeded.

use vstd::prelude::*;

verus! {

/// A sink for warning messages.
pub trait Messenger {
    fn send(&self, msg: &str);
}

/// How urgently a fill level calls for a warning.
#[derive(PartialEq, Eq, Structural, Clone, Copy, Debug)]
pub enum QuotaLevel {
    Quiet,
    Warning,
    Urgent,
    Over,
}

/// The warning owed when `value` of `max` units are used: over quota when
/// the value exceeds the maximum, urgent from nine tenths on, a plain
/// warning from three quarters on, and silence below that. A maximum of
/// zero warns only for a nonzero value.
pub open spec fn spec_quota_level(value: nat, max: nat) -> QuotaLevel {
    if value > max {
        QuotaLevel::Over
    } else if max > 0 && 10 * value >= 9 * max {
        QuotaLevel::Urgent
    } else if max > 0 && 4 * value >= 3 * max {
        QuotaLevel::Warning
    } else {
        QuotaLevel::Quiet
    }
}

/// Computes the warning level for `value` used out of `max`.
pub fn quota_level(value: usize, max: usize) -> (r: QuotaLevel)
    ensures
        r == spec_quota_level(value as nat, max as nat),
{
    if value > max {
        QuotaLevel::Over
    } else if max > 0 && (value as u128) * 10 >= (max as u128) * 9 {
        QuotaLevel::Urgent
    } else if max > 0 && (value as u128) * 4 >= (max as u128) * 3 {
        QuotaLevel::Warning
    } else {
        QuotaLevel::Quiet
    }
}

/// The message owed for a fill level of `value` out of `max`: exactly one
/// fixed sentence per warning level, and none when the level is quiet.
pub fn quota_message(value: usize, max: usize) -> (r: Option<&'static str>)
    ensures
        spec_quota_level(value as nat, max as nat) == QuotaLevel::Over ==> (r matches Some(m)
            && m@ == "Error: You are over your quota!"@),
        spec_quota_level(value as nat, max as nat) == QuotaLevel::Urgent ==> (r matches Some(m)
            && m@ == "Urgent warning: You've used up over 90% of your quota!"@),
        spec_quota_level(value as nat, max as nat) == QuotaLevel::Warning ==> (r matches Some(m)
            && m@ == "Warning: You've used up over 75% of your quota!"@),
        spec_quota_level(value as nat, max as nat) == QuotaLevel::Quiet ==> r is None,
{
    match quota_level(value, max) {
        QuotaLevel::Over => Some("Error: You are over your quota!"),
        QuotaLevel::Urgent => Some("Urgent warning: You've used up over 90% of your quota!"),
        QuotaLevel::Warning => Some("Warning: You've used up over 75% of your quota!"),
        QuotaLevel::Quiet => None,
    }
}

/// Watches a value against a maximum and warns a messenger as the value
/// approaches or exceeds it.
pub struct LimitTracker<'a, T: Messenger> {
    messenger: &'a T,
    value: usize,
    max: usize,
}

impl<'a, T: Messenger> LimitTracker<'a, T> {
    /// The value most recently set.
    pub closed spec fn spec_value(&self) -> usize {
        self.value
    }

    /// The maximum the tracker watches against.
    pub closed spec fn spec_max(&self) -> usize {
        self.max
    }

    /// A tracker that has used none of its `max` units yet.
    pub fn new(messenger: &'a T, max: usize) -> (r: LimitTracker<'a, T>)
        ensures
            r.spec_value() == 0,
            r.spec_max() == max,
    {
        LimitTracker { messenger, value: 0, max }
    }

    /// Records the new value and sends the one message that
    /// `quota_message` owes for it, or none when the level is quiet.
    pub fn set_value(&mut self, value: usize)
        ensures
            final(self).spec_value() == value,
            final(self).spec_max() == old(self).spec_max(),
    {
        self.value = value;
        match quota_message(value, self.max) {
            Some(msg) => self.messenger.send(msg),
            None => {},
        }
    }
}

} // verus!
