//! Text that outside crates lay out: relative times and aligned tables.

use vstd::prelude::*;

verus! {

/// The largest number of seconds, in either direction, that can be put
/// into words.
pub const MAX_HUMAN_SECONDS: i64 = 9_223_372_036_854_775;

/// The English words of `chrono_humanize` for a span of `seconds` seconds
/// from now: "now", "in 3 hours", "2 days ago".
pub uninterp spec fn human_time(seconds: int) -> Seq<char>;

/// What `tabwriter` makes of `text` with its default settings: the cells
/// that tabs end are padded so that the columns of neighbouring lines
/// line up.
pub uninterp spec fn tab_layout(text: Seq<char>) -> Seq<char>;

/// `chrono_humanize::HumanTime`, made from a `chrono::Duration` of
/// `seconds` whole seconds and written out with `to_string`. The words
/// depend on the duration alone. `Duration::seconds` panics beyond
/// `MAX_HUMAN_SECONDS`, which `requires` leaves out.
#[verifier::external_body]
pub(crate) fn humanize(seconds: i64) -> (s: String)
    requires
        -MAX_HUMAN_SECONDS <= seconds <= MAX_HUMAN_SECONDS,
    ensures
        s@ == human_time(seconds as int),
{
    chrono_humanize::HumanTime::from(chrono::Duration::seconds(seconds)).to_string()
}

/// `tabwriter::TabWriter` over a byte vector: `text` is written to it and
/// `into_inner` flushes it and hands the vector back. `None` stands for a
/// failure of the writer or for bytes that are no UTF-8; on success the
/// text is what the writer laid out, which depends on `text` alone.
#[verifier::external_body]
pub(crate) fn align(text: &str) -> (r: Option<String>)
    ensures
        r matches Some(s) ==> s@ == tab_layout(text@),
{
    let mut writer = tabwriter::TabWriter::new(Vec::new());
    if std::io::Write::write_all(&mut writer, text.as_bytes()).is_err() {
        return None;
    }
    match writer.into_inner() {
        Ok(bytes) => String::from_utf8(bytes).ok(),
        Err(_) => None,
    }
}

} // verus!
