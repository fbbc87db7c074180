//! Points in time as the messages carry them: RFC 3339 texts.

use vstd::prelude::*;

verus! {

/// A point in time with the offset of its local time from UTC.
#[derive(Debug, Clone, Copy, PartialEq, Eq, Structural)]
pub struct Timestamp {
    /// Nanoseconds since the Unix epoch.
    pub unix_nanos: i128,
    /// Seconds that the local time is ahead of UTC.
    pub offset_seconds: i32,
}

/// The point in time that the `time` crate reads from an RFC 3339 text, as
/// nanoseconds since the Unix epoch and seconds of offset; `None` where the
/// text is not RFC 3339.
pub uninterp spec fn rfc3339_instant(text: Seq<char>) -> Option<(int, int)>;

/// The RFC 3339 text that the `time` crate writes for a point in time;
/// `None` where it writes none, as for a year that RFC 3339 cannot hold.
pub uninterp spec fn rfc3339_text(unix_nanos: int, offset_seconds: int) -> Option<Seq<char>>;

/// Reads a text with `time::OffsetDateTime::parse` in the RFC 3339 format.
/// The result is named by `rfc3339_instant`.
#[verifier::external_body]
fn read_rfc3339(text: &str) -> (r: Option<Timestamp>)
    ensures
        match r {
            Some(t) => rfc3339_instant(text@) == Some((t.unix_nanos as int, t.offset_seconds as int)),
            None => rfc3339_instant(text@) is None,
        },
{
    let at = time::OffsetDateTime::parse(
        text,
        &time::format_description::well_known::Rfc3339,
    ).ok()?;
    Some(
        Timestamp {
            unix_nanos: at.unix_timestamp_nanos(),
            offset_seconds: at.offset().whole_seconds(),
        },
    )
}

/// Writes a point in time with `time::OffsetDateTime::format` in the RFC 3339
/// format. The result is named by `rfc3339_text`; there is none where the
/// `time` crate cannot hold the point in time or the offset.
#[verifier::external_body]
fn write_rfc3339(at: &Timestamp) -> (r: Option<String>)
    ensures
        match r {
            Some(text) => rfc3339_text(at.unix_nanos as int, at.offset_seconds as int) == Some(
                text@,
            ),
            None => rfc3339_text(at.unix_nanos as int, at.offset_seconds as int) is None,
        },
{
    let utc = time::OffsetDateTime::from_unix_timestamp_nanos(at.unix_nanos).ok()?;
    let offset = time::UtcOffset::from_whole_seconds(at.offset_seconds).ok()?;
    utc.checked_to_offset(offset)?.format(&time::format_description::well_known::Rfc3339).ok()
}

/// The RFC 3339 text in the form in which it is written back: `None` where
/// the text is not RFC 3339 or cannot be written.
pub open spec fn rfc3339_rewritten(text: Seq<char>) -> Option<Seq<char>> {
    match rfc3339_instant(text) {
        Some((unix_nanos, offset_seconds)) => rfc3339_text(unix_nanos, offset_seconds),
        None => None,
    }
}

impl Timestamp {
    /// Reads an RFC 3339 text.
    pub fn parse_rfc3339(text: &str) -> (r: Option<Timestamp>)
        ensures
            match r {
                Some(t) => rfc3339_instant(text@) == Some(
                    (t.unix_nanos as int, t.offset_seconds as int),
                ),
                None => rfc3339_instant(text@) is None,
            },
    {
        read_rfc3339(text)
    }

    /// The RFC 3339 text of the point in time.
    pub fn to_rfc3339(&self) -> (r: Option<String>)
        ensures
            match r {
                Some(text) => rfc3339_text(self.unix_nanos as int, self.offset_seconds as int)
                    == Some(text@),
                None => rfc3339_text(self.unix_nanos as int, self.offset_seconds as int) is None,
            },
    {
        write_rfc3339(self)
    }
}

/// Reads an RFC 3339 text and writes it back.
pub fn rewrite_rfc3339(text: &str) -> (r: Option<String>)
    ensures
        match r {
            Some(rewritten) => rfc3339_rewritten(text@) == Some(rewritten@),
            None => rfc3339_rewritten(text@) is None,
        },
{
    match Timestamp::parse_rfc3339(text) {
        Some(at) => at.to_rfc3339(),
        None => None,
    }
}

} // verus!
