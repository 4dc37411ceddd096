use grlm::presentation::{Presentation, RENDER_TICK_MILLIS};
use grlm::snapshot::{ColorTier, MessageTier, RateLimit, IMMINENT_SECONDS};

const NOW: u64 = 1_700_000_000;

#[test]
fn used_is_limit_minus_remaining() {
    assert_eq!(RateLimit::new(5000, 300, NOW).used(), 4700);
    assert_eq!(RateLimit::new(60, 60, NOW).used(), 0);
    assert_eq!(RateLimit::new(60, 0, NOW).used(), 60);
}

#[test]
fn used_is_clamped_when_more_remains_than_the_limit() {
    assert_eq!(RateLimit::new(60, 61, NOW).used(), 0);
    assert_eq!(RateLimit::new(0, 5, NOW).used(), 0);
    assert_eq!(RateLimit::new(10, u64::MAX, NOW).used(), 0);
}

#[test]
fn gauge_position_never_exceeds_gauge_length() {
    let limits = [0u64, 1, 59, 60, 5000, u64::MAX];
    let remainings = [0u64, 1, 30, 60, 61, 4999, 5000, 5001, u64::MAX];
    for limit in limits {
        for remaining in remainings {
            let shown = RateLimit::new(limit, remaining, NOW + 10).presentation(NOW);
            assert!(shown.gauge_position <= shown.gauge_length);
            assert_eq!(shown.gauge_length, limit);
        }
    }
}

#[test]
fn zero_limit_is_critical() {
    assert_eq!(RateLimit::new(0, 0, NOW).color_tier(), ColorTier::Critical);
    assert_eq!(RateLimit::new(0, 1, NOW).color_tier(), ColorTier::Critical);
    assert_eq!(RateLimit::new(0, u64::MAX, NOW).color_tier(), ColorTier::Critical);
}

#[test]
fn color_tier_at_the_boundaries() {
    assert_eq!(RateLimit::new(1000, 80, NOW).color_tier(), ColorTier::Critical);
    assert_eq!(RateLimit::new(1000, 81, NOW).color_tier(), ColorTier::Warning);
    assert_eq!(RateLimit::new(1000, 500, NOW).color_tier(), ColorTier::Warning);
    assert_eq!(RateLimit::new(1000, 501, NOW).color_tier(), ColorTier::Normal);
}

#[test]
fn color_tier_of_common_quotas() {
    assert_eq!(RateLimit::new(5000, 400, NOW).color_tier(), ColorTier::Critical);
    assert_eq!(RateLimit::new(5000, 401, NOW).color_tier(), ColorTier::Warning);
    assert_eq!(RateLimit::new(5000, 2500, NOW).color_tier(), ColorTier::Warning);
    assert_eq!(RateLimit::new(5000, 2501, NOW).color_tier(), ColorTier::Normal);
    assert_eq!(RateLimit::new(60, 4, NOW).color_tier(), ColorTier::Critical);
    assert_eq!(RateLimit::new(60, 5, NOW).color_tier(), ColorTier::Warning);
    assert_eq!(RateLimit::new(60, 60, NOW).color_tier(), ColorTier::Normal);
    assert_eq!(RateLimit::new(60, 0, NOW).color_tier(), ColorTier::Critical);
}

#[test]
fn color_tier_is_exact_for_the_largest_quota() {
    // 8 hundredths of u64::MAX lie between these two.
    let limit = u64::MAX;
    let edge = (limit as u128 * 8 / 100) as u64;
    assert_eq!(RateLimit::new(limit, edge, NOW).color_tier(), ColorTier::Critical);
    assert_eq!(RateLimit::new(limit, edge + 1, NOW).color_tier(), ColorTier::Warning);
    assert_eq!(RateLimit::new(limit, limit / 2, NOW).color_tier(), ColorTier::Warning);
    assert_eq!(RateLimit::new(limit, limit / 2 + 1, NOW).color_tier(), ColorTier::Normal);
    assert_eq!(RateLimit::new(limit, limit, NOW).color_tier(), ColorTier::Normal);
}

#[test]
fn color_tier_when_more_remains_than_the_limit() {
    assert_eq!(RateLimit::new(60, 61, NOW).color_tier(), ColorTier::Normal);
}

#[test]
fn message_tier_at_the_boundaries() {
    assert_eq!(IMMINENT_SECONDS, 120);
    assert_eq!(RateLimit::new(60, 60, NOW + 119).message_tier(NOW), MessageTier::Imminent);
    assert_eq!(RateLimit::new(60, 60, NOW + 120).message_tier(NOW), MessageTier::Normal);
    assert_eq!(RateLimit::new(60, 60, NOW + 121).message_tier(NOW), MessageTier::Normal);
}

#[test]
fn seconds_to_reset_may_be_negative() {
    let snapshot = RateLimit::new(60, 10, NOW - 5);
    assert_eq!(snapshot.resets_in(NOW), -5);
    assert_eq!(snapshot.message_tier(NOW), MessageTier::Imminent);
    assert_eq!(snapshot.presentation(NOW).message, "-5");
}

#[test]
fn seconds_to_reset_at_the_ends_of_the_clock() {
    assert_eq!(RateLimit::new(1, 1, u64::MAX).resets_in(0), u64::MAX as i128);
    assert_eq!(RateLimit::new(1, 1, 0).resets_in(u64::MAX), -(u64::MAX as i128));
    assert_eq!(RateLimit::new(1, 1, 0).presentation(u64::MAX).message, "-18446744073709551615");
    assert_eq!(RateLimit::new(1, 1, u64::MAX).presentation(0).message, "18446744073709551615");
    assert_eq!(RateLimit::new(1, 1, 77).resets_in(77), 0);
    assert_eq!(RateLimit::new(1, 1, 77).presentation(77).message, "0");
}

#[test]
fn presentation_of_a_fresh_anonymous_window() {
    let shown = RateLimit::new(60, 60, NOW + 3600).presentation(NOW);
    assert_eq!(
        shown,
        Presentation {
            gauge_length: 60,
            gauge_position: 0,
            color_tier: ColorTier::Normal,
            message_tier: MessageTier::Normal,
            message: String::from("3600"),
        }
    );
}

#[test]
fn presentation_of_a_nearly_spent_window() {
    let shown = RateLimit::new(5000, 300, NOW + 90).presentation(NOW);
    assert_eq!(shown.gauge_length, 5000);
    assert_eq!(shown.gauge_position, 4700);
    assert_eq!(shown.color_tier, ColorTier::Critical);
    assert_eq!(shown.message_tier, MessageTier::Imminent);
    assert_eq!(shown.message, "90");
}

#[test]
fn tier_names_and_colors() {
    assert_eq!(ColorTier::Normal.name(), "normal");
    assert_eq!(ColorTier::Warning.name(), "warning");
    assert_eq!(ColorTier::Critical.name(), "critical");
    assert_eq!(ColorTier::Normal.color(), "green");
    assert_eq!(ColorTier::Warning.color(), "yellow");
    assert_eq!(ColorTier::Critical.color(), "red");
    assert_eq!(MessageTier::Normal.name(), "normal");
    assert_eq!(MessageTier::Imminent.name(), "imminent");
    assert_eq!(MessageTier::Normal.color(), "white");
    assert_eq!(MessageTier::Imminent.color(), "green");
}

#[test]
fn render_tick_is_a_thirtieth_of_a_second() {
    assert_eq!(RENDER_TICK_MILLIS, 33);
}
