use grlm::decimal::{append_decimal, format_signed};
use grlm::fetch::FetchError;
use grlm::style;

#[test]
fn decimal_text_of_small_numbers() {
    assert_eq!(format_signed(0), "0");
    assert_eq!(format_signed(7), "7");
    assert_eq!(format_signed(9), "9");
    assert_eq!(format_signed(10), "10");
    assert_eq!(format_signed(119), "119");
    assert_eq!(format_signed(3600), "3600");
    assert_eq!(format_signed(1002003), "1002003");
}

#[test]
fn decimal_text_of_negative_numbers() {
    assert_eq!(format_signed(-1), "-1");
    assert_eq!(format_signed(-10), "-10");
    assert_eq!(format_signed(-35), "-35");
    assert_eq!(format_signed(-9000), "-9000");
}

#[test]
fn decimal_text_at_the_ends_of_the_range() {
    assert_eq!(format_signed(i128::MAX), i128::MAX.to_string());
    assert_eq!(format_signed(i128::MIN), i128::MIN.to_string());
    assert_eq!(format_signed(i128::MIN + 1), (i128::MIN + 1).to_string());
}

#[test]
fn decimal_text_agrees_with_the_standard_library() {
    let mut value: i128 = 1;
    while value < i128::MAX / 7 {
        assert_eq!(format_signed(value), value.to_string());
        assert_eq!(format_signed(-value), (-value).to_string());
        assert_eq!(format_signed(value - 1), (value - 1).to_string());
        value *= 7;
    }
}

#[test]
fn append_decimal_keeps_what_was_there() {
    let mut text = String::from("n=");
    append_decimal(&mut text, 0);
    assert_eq!(text, "n=0");
    append_decimal(&mut text, 405);
    assert_eq!(text, "n=0405");
    append_decimal(&mut text, u128::MAX);
    assert_eq!(text, format!("n=0405{}", u128::MAX));
}

#[test]
fn fetch_error_messages() {
    assert_eq!(
        FetchError::Transport(String::from("connection refused")).message(),
        "request failed: connection refused"
    );
    assert_eq!(FetchError::Status(403).message(), "unexpected status 403");
    assert_eq!(FetchError::Status(0).message(), "unexpected status 0");
    assert_eq!(FetchError::Status(u16::MAX).message(), "unexpected status 65535");
    assert_eq!(
        FetchError::Malformed(String::from("missing field `rate`")).message(),
        "malformed response: missing field `rate`"
    );
}

#[test]
fn fetch_error_reports() {
    assert_eq!(
        FetchError::Transport(String::from("timed out")).report(),
        "Error request failed: timed out"
    );
    assert_eq!(FetchError::Status(500).report(), "Error unexpected status 500");
    assert_eq!(
        FetchError::Malformed(String::new()).report(),
        "Error malformed response: "
    );
}

#[test]
fn gauge_prefix_and_initial_template() {
    assert_eq!(style::prefix(), "Requests");
    assert_eq!(
        style::initial_template(),
        "{prefix:.bold} {pos} {wide_bar:.yellow} of {len} {msg.yellow} "
    );
}

#[test]
fn gauge_template_holds_both_colors() {
    assert_eq!(
        style::template("red", "green"),
        "{prefix:.bold} {pos:.red} {wide_bar:.yellow} of {len} resets in {msg:.green} "
    );
    assert_eq!(
        style::template("green", "white"),
        "{prefix:.bold} {pos:.green} {wide_bar:.yellow} of {len} resets in {msg:.white} "
    );
    assert_eq!(
        style::template("", ""),
        "{prefix:.bold} {pos:.} {wide_bar:.yellow} of {len} resets in {msg:.} "
    );
}

#[test]
fn gauge_bar_characters() {
    assert_eq!(style::progress_chars(), " \u{15E7}\u{FF65}");
    assert_eq!(style::progress_chars().chars().count(), 3);
    assert_eq!(style::exhausted_chars(), "#####");
}
