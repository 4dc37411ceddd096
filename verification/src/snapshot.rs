//! One fetched rate-limit status and the quantities derived from it.

use vstd::prelude::*;

verus! {

/// Seconds to the reset below which the countdown counts as imminent.
pub const IMMINENT_SECONDS: i128 = 120;

/// Bucket of the remaining share of the quota.
#[derive(Clone, Copy, Debug, PartialEq, Eq, Structural)]
pub enum ColorTier {
    /// More than half of the quota is left.
    Normal,
    /// At most half, but more than eight hundredths, of the quota is left.
    Warning,
    /// At most eight hundredths of the quota is left, or the quota is zero.
    Critical,
}

/// Bucket of the time left until the window resets.
#[derive(Clone, Copy, Debug, PartialEq, Eq, Structural)]
pub enum MessageTier {
    /// Two minutes or more are left.
    Normal,
    /// Fewer than two minutes are left, or the reset time has passed.
    Imminent,
}

/// A point-in-time rate-limit status.
///
/// `reset` is the time at which the window resets, in seconds since the Unix
/// epoch. A value that came over the network may have `remaining > limit`;
/// every derived quantity is defined for such a value too.
#[derive(Clone, Copy, Debug, PartialEq, Eq, Structural)]
pub struct RateLimit {
    pub limit: u64,
    pub remaining: u64,
    pub reset: u64,
}

impl RateLimit {
    /// A snapshot is valid when no more is left than the quota allows.
    pub open spec fn valid(self) -> bool {
        self.remaining <= self.limit
    }

    /// Requests spent in the window: `limit - remaining`, held within `[0, limit]`.
    pub open spec fn spec_used(self) -> int {
        if self.remaining >= self.limit {
            0
        } else {
            self.limit - self.remaining
        }
    }

    /// Seconds from `now` to the reset; negative once the reset time has passed.
    pub open spec fn spec_resets_in(self, now: u64) -> int {
        self.reset - now
    }

    /// The tier of `remaining / limit`, compared exactly:
    /// `remaining / limit <= 8 / 100` is `100 * remaining <= 8 * limit`.
    pub open spec fn spec_color_tier(self) -> ColorTier {
        if self.limit == 0 || 100 * self.remaining <= 8 * self.limit {
            ColorTier::Critical
        } else if 2 * self.remaining <= self.limit {
            ColorTier::Warning
        } else {
            ColorTier::Normal
        }
    }

    /// The tier of the time left at `now`.
    pub open spec fn spec_message_tier(self, now: u64) -> MessageTier {
        if self.spec_resets_in(now) < IMMINENT_SECONDS {
            MessageTier::Imminent
        } else {
            MessageTier::Normal
        }
    }

    /// A snapshot of these three numbers.
    pub fn new(limit: u64, remaining: u64, reset: u64) -> (snapshot: RateLimit)
        ensures
            snapshot == (RateLimit { limit, remaining, reset }),
    {
        RateLimit { limit, remaining, reset }
    }

    /// Requests spent in the window, never more than `limit`.
    pub fn used(&self) -> (used: u64)
        ensures
            used == self.spec_used(),
            used <= self.limit,
            self.valid() ==> used + self.remaining == self.limit,
    {
        if self.remaining >= self.limit {
            0
        } else {
            self.limit - self.remaining
        }
    }

    /// Seconds from `now` to the reset.
    pub fn resets_in(&self, now: u64) -> (seconds: i128)
        ensures
            seconds == self.reset - now,
    {
        self.reset as i128 - now as i128
    }

    /// The colour tier of the remaining share: critical when at most eight
    /// hundredths of the quota are left or the quota is zero, warning when at
    /// most half is left, normal otherwise. The shares are compared exactly,
    /// in integers.
    pub fn color_tier(&self) -> (tier: ColorTier)
        ensures
            tier == self.spec_color_tier(),
            self.limit == 0 ==> tier == ColorTier::Critical,
            tier == ColorTier::Critical <==> (self.limit == 0
                || 100 * self.remaining <= 8 * self.limit),
            tier == ColorTier::Warning <==> (self.limit > 0
                && 8 * self.limit < 100 * self.remaining
                && 2 * self.remaining <= self.limit),
            tier == ColorTier::Normal <==> (self.limit > 0 && self.limit < 2 * self.remaining),
    {
        let limit: u128 = self.limit as u128;
        let remaining: u128 = self.remaining as u128;
        if limit == 0 || 100 * remaining <= 8 * limit {
            ColorTier::Critical
        } else if 2 * remaining <= limit {
            ColorTier::Warning
        } else {
            ColorTier::Normal
        }
    }

    /// The message tier of the time left at `now`: imminent when fewer than
    /// 120 seconds are left.
    pub fn message_tier(&self, now: u64) -> (tier: MessageTier)
        ensures
            tier == self.spec_message_tier(now),
            tier == MessageTier::Imminent <==> self.reset - now < 120,
    {
        if self.resets_in(now) < IMMINENT_SECONDS {
            MessageTier::Imminent
        } else {
            MessageTier::Normal
        }
    }
}

} // verus!
