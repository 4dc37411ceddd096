//! What the renderer hands to the display on one tick.

use vstd::prelude::*;
use crate::decimal::{format_signed, signed_decimal};
use crate::snapshot::{ColorTier, MessageTier, RateLimit};

verus! {

/// Milliseconds between two draws: thirty draws a second.
pub const RENDER_TICK_MILLIS: u64 = 1000 / 30;

impl ColorTier {
    /// The tier's name.
    pub open spec fn spec_name(self) -> Seq<char> {
        match self {
            ColorTier::Normal => "normal"@,
            ColorTier::Warning => "warning"@,
            ColorTier::Critical => "critical"@,
        }
    }

    /// The colour the gauge position is drawn in.
    pub open spec fn spec_color(self) -> Seq<char> {
        match self {
            ColorTier::Normal => "green"@,
            ColorTier::Warning => "yellow"@,
            ColorTier::Critical => "red"@,
        }
    }

    /// The tier's name: `normal`, `warning` or `critical`.
    pub fn name(self) -> (name: &'static str)
        ensures
            name@ == self.spec_name(),
    {
        match self {
            ColorTier::Normal => "normal",
            ColorTier::Warning => "warning",
            ColorTier::Critical => "critical",
        }
    }

    /// The colour the gauge position is drawn in: green, yellow or red.
    pub fn color(self) -> (color: &'static str)
        ensures
            color@ == self.spec_color(),
    {
        match self {
            ColorTier::Normal => "green",
            ColorTier::Warning => "yellow",
            ColorTier::Critical => "red",
        }
    }
}

impl MessageTier {
    /// The tier's name.
    pub open spec fn spec_name(self) -> Seq<char> {
        match self {
            MessageTier::Normal => "normal"@,
            MessageTier::Imminent => "imminent"@,
        }
    }

    /// The colour the countdown is drawn in.
    pub open spec fn spec_color(self) -> Seq<char> {
        match self {
            MessageTier::Normal => "white"@,
            MessageTier::Imminent => "green"@,
        }
    }

    /// The tier's name: `normal` or `imminent`.
    pub fn name(self) -> (name: &'static str)
        ensures
            name@ == self.spec_name(),
    {
        match self {
            MessageTier::Normal => "normal",
            MessageTier::Imminent => "imminent",
        }
    }

    /// The colour the countdown is drawn in: green when the reset is
    /// imminent, white otherwise.
    pub fn color(self) -> (color: &'static str)
        ensures
            color@ == self.spec_color(),
    {
        match self {
            MessageTier::Normal => "white",
            MessageTier::Imminent => "green",
        }
    }
}

/// The gauge of one tick.
#[derive(Clone, Debug, PartialEq, Eq)]
pub struct Presentation {
    /// The length of the gauge: the quota.
    pub gauge_length: u64,
    /// The filled part of the gauge: the requests spent, at most the length.
    pub gauge_position: u64,
    pub color_tier: ColorTier,
    pub message_tier: MessageTier,
    /// The seconds to the reset as a decimal count.
    pub message: String,
}

/// The gauge of one tick, with its message as text.
pub struct PresentationModel {
    pub gauge_length: u64,
    pub gauge_position: u64,
    pub color_tier: ColorTier,
    pub message_tier: MessageTier,
    pub message: Seq<char>,
}

impl View for Presentation {
    type V = PresentationModel;

    open spec fn view(&self) -> PresentationModel {
        PresentationModel {
            gauge_length: self.gauge_length,
            gauge_position: self.gauge_position,
            color_tier: self.color_tier,
            message_tier: self.message_tier,
            message: self.message@,
        }
    }
}

impl RateLimit {
    /// The gauge that shows this snapshot at `now`.
    pub open spec fn spec_presentation(self, now: u64) -> PresentationModel {
        PresentationModel {
            gauge_length: self.limit,
            gauge_position: self.spec_used() as u64,
            color_tier: self.spec_color_tier(),
            message_tier: self.spec_message_tier(now),
            message: signed_decimal(self.spec_resets_in(now)),
        }
    }

    /// Derives the gauge that shows this snapshot at `now`. The position
    /// never exceeds the length, whatever the snapshot holds.
    pub fn presentation(&self, now: u64) -> (shown: Presentation)
        ensures
            shown@ == self.spec_presentation(now),
            0 <= shown.gauge_position <= shown.gauge_length,
    {
        Presentation {
            gauge_length: self.limit,
            gauge_position: self.used(),
            color_tier: self.color_tier(),
            message_tier: self.message_tier(now),
            message: format_signed(self.resets_in(now)),
        }
    }
}

/// The position of a gauge lies within its length for every snapshot, also
/// for one with more left than its quota; for a valid snapshot it is the
/// quota less what is left.
pub proof fn lemma_gauge_within_length(snapshot: RateLimit, now: u64)
    ensures
        0 <= snapshot.spec_presentation(now).gauge_position
            <= snapshot.spec_presentation(now).gauge_length,
        snapshot.valid() ==> snapshot.spec_presentation(now).gauge_position == snapshot.limit
            - snapshot.remaining,
{
}

} // verus!
