//! Sizes and time spans in words, as the `size` and `timeago` crates put
//! them.

use vstd::prelude::*;

verus! {

/// The text that a size of `bytes` bytes is shown as.
pub uninterp spec fn size_display(bytes: u64) -> Seq<char>;

/// The text that a time span of `secs` seconds and `nanos` nanoseconds in the
/// past is shown as.
pub uninterp spec fn elapsed_display(secs: u64, nanos: u32) -> Seq<char>;

/// Formats a size with `size::Size::from_bytes` and its `Display`, which
/// chooses a unit and rounds. The contract gives the text a name.
#[verifier::external_body]
pub(crate) fn format_size(bytes: u64) -> (text: String)
    ensures
        text@ == size_display(bytes),
{
    size::Size::from_bytes(bytes).to_string()
}

/// Formats a time span with `timeago::Formatter::new().convert`, which names
/// the largest unit that fits, as in "5 days ago". The contract gives the
/// text a name. `Duration::new` carries whole seconds out of the nanoseconds,
/// so these are kept below one second.
#[verifier::external_body]
pub(crate) fn format_elapsed(secs: u64, nanos: u32) -> (text: String)
    requires
        nanos < 1_000_000_000,
    ensures
        text@ == elapsed_display(secs, nanos),
{
    timeago::Formatter::new().convert(std::time::Duration::new(secs, nanos))
}

} // verus!
