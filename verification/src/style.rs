//! The look of the gauge: its template, its prefix and its bar characters.

use vstd::prelude::*;

verus! {

/// The template of the gauge before any snapshot has arrived.
pub open spec fn spec_initial_template() -> Seq<char> {
    "{prefix:.bold} {pos} {wide_bar:.yellow} of {len} {msg.yellow} "@
}

/// The template of a gauge whose position is drawn in `rate_color` and whose
/// countdown is drawn in `message_color`.
pub open spec fn spec_template(rate_color: Seq<char>, message_color: Seq<char>) -> Seq<char> {
    "{prefix:.bold} {pos:."@ + rate_color + "} {wide_bar:.yellow} of {len} resets in {msg:."@
        + message_color + "} "@
}

/// The bar characters of a gauge with requests left.
pub open spec fn spec_progress_chars() -> Seq<char> {
    " \u{15E7}\u{FF65}"@
}

/// The bar characters of a gauge with no request left.
pub open spec fn spec_exhausted_chars() -> Seq<char> {
    "#####"@
}

/// The text shown before the gauge.
pub fn prefix() -> (text: &'static str)
    ensures
        text@ == "Requests"@,
{
    "Requests"
}

/// The template of the gauge before any snapshot has arrived.
pub fn initial_template() -> (template: &'static str)
    ensures
        template@ == spec_initial_template(),
{
    "{prefix:.bold} {pos} {wide_bar:.yellow} of {len} {msg.yellow} "
}

/// Builds the template of a gauge with the given colours.
pub fn template(rate_color: &str, message_color: &str) -> (template: String)
    ensures
        template@ == spec_template(rate_color@, message_color@),
{
    let mut template = String::from_str("{prefix:.bold} {pos:.");
    template.append(rate_color);
    template.append("} {wide_bar:.yellow} of {len} resets in {msg:.");
    template.append(message_color);
    template.append("} ");
    template
}

/// The bar characters of a gauge with requests left.
pub fn progress_chars() -> (chars: &'static str)
    ensures
        chars@ == spec_progress_chars(),
{
    " \u{15E7}\u{FF65}"
}

/// The bar characters of a gauge with no request left.
pub fn exhausted_chars() -> (chars: &'static str)
    ensures
        chars@ == spec_exhausted_chars(),
{
    "#####"
}

} // verus!
