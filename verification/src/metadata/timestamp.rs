use vstd::prelude::*;

verus! {

/// A point in time together with the offset from UTC that it was recorded at.
///
/// Two timestamps are equal when both the instant and the offset are equal.
#[derive(Debug, Copy, Clone, PartialEq, Eq, Hash, Structural)]
pub struct Timestamp {
    /// Nanoseconds since midnight, 1 January 1970 (UTC).
    pub unix_nanos: i128,
    /// Seconds that the local clock is ahead of UTC.
    pub offset_seconds: i32,
}

/// The RFC 3339 text that `time` writes for the instant `unix_nanos` seen at
/// the offset `offset_seconds`, or `None` where it writes none.
pub uninterp spec fn rfc3339_text(unix_nanos: i128, offset_seconds: i32) -> Option<Seq<char>>;

/// The instant, in nanoseconds since the Unix epoch, and the offset, in
/// seconds, that `time` reads from `text` as RFC 3339, or `None` where `text`
/// is no such date and time.
pub uninterp spec fn rfc3339_value(text: Seq<char>) -> Option<(i128, i32)>;

/// Calls `time::OffsetDateTime::format` with the `Rfc3339` description, on the
/// date and time that `time` builds from the instant and the offset
/// (`from_unix_timestamp_nanos`, `UtcOffset::from_whole_seconds`,
/// `checked_to_offset`).
///
/// The contract gives the outcome a name and claims only that equal arguments
/// give equal outcomes: `time` computes the text from its arguments alone.
#[verifier::external_body]
fn format_rfc3339(unix_nanos: i128, offset_seconds: i32) -> (text: Option<String>)
    ensures
        match text {
            Some(text) => rfc3339_text(unix_nanos, offset_seconds) == Some(text@),
            None => rfc3339_text(unix_nanos, offset_seconds) is None,
        },
{
    let offset = time::UtcOffset::from_whole_seconds(offset_seconds).ok()?;
    let utc = time::OffsetDateTime::from_unix_timestamp_nanos(unix_nanos).ok()?;
    let local = utc.checked_to_offset(offset)?;
    local.format(&time::format_description::well_known::Rfc3339).ok()
}

/// Calls `time::OffsetDateTime::parse` with the `Rfc3339` description, and
/// hands back the instant (`unix_timestamp_nanos`) and the offset
/// (`offset().whole_seconds()`) of what was read.
///
/// The contract gives the outcome a name and claims only that equal texts give
/// equal outcomes: `time` reads the text and nothing else.
#[verifier::external_body]
fn parse_rfc3339(text: &str) -> (value: Option<(i128, i32)>)
    ensures
        value == rfc3339_value(text@),
{
    let read = time::OffsetDateTime::parse(text, &time::format_description::well_known::Rfc3339)
        .ok()?;
    Some((read.unix_timestamp_nanos(), read.offset().whole_seconds()))
}

impl Timestamp {
    /// The timestamp of the instant `unix_nanos`, recorded at the offset
    /// `offset_seconds`.
    pub fn new(unix_nanos: i128, offset_seconds: i32) -> (stamp: Timestamp)
        ensures
            stamp == (Timestamp { unix_nanos, offset_seconds }),
    {
        Timestamp { unix_nanos, offset_seconds }
    }

    /// The timestamp that a pair of instant and offset stands for.
    pub open spec fn of_pair(pair: Option<(i128, i32)>) -> Option<Timestamp> {
        match pair {
            Some(pair) => Some(Timestamp { unix_nanos: pair.0, offset_seconds: pair.1 }),
            None => None,
        }
    }

    /// The timestamp that `text` denotes on the wire, if it denotes one.
    pub open spec fn read(text: Seq<char>) -> Option<Timestamp> {
        Timestamp::of_pair(rfc3339_value(text))
    }

    /// Whether `text` is a faithful way to write this timestamp: whether
    /// `reread`, which is what `text` reads as, is this very timestamp.
    pub open spec fn reads_back(self, reread: Option<(i128, i32)>) -> bool {
        reread == Some((self.unix_nanos, self.offset_seconds))
    }

    /// The text of this timestamp on the wire: its RFC 3339 form, provided
    /// that it has one and that reading the form gives this timestamp back.
    pub open spec fn wire_text(self) -> Option<Seq<char>> {
        match rfc3339_text(self.unix_nanos, self.offset_seconds) {
            Some(text) => if self.reads_back(rfc3339_value(text)) {
                Some(text)
            } else {
                None
            },
            None => None,
        }
    }

    /// The timestamp for what was read from a text: `pair` is the instant and
    /// the offset, or `None` where the text was no date and time.
    pub fn from_pair(pair: Option<(i128, i32)>) -> (stamp: Option<Timestamp>)
        ensures
            stamp == Timestamp::of_pair(pair),
    {
        match pair {
            Some((unix_nanos, offset_seconds)) => Some(Timestamp { unix_nanos, offset_seconds }),
            None => None,
        }
    }

    /// Reads a timestamp from its RFC 3339 form.
    pub fn from_rfc3339(text: &str) -> (stamp: Option<Timestamp>)
        ensures
            stamp == Timestamp::read(text@),
    {
        Timestamp::from_pair(parse_rfc3339(text))
    }

    /// Accepts `text` as the way to write this timestamp if `reread`, which is
    /// what `text` reads as, is this timestamp, and refuses it otherwise.
    pub fn confirm(&self, text: String, reread: Option<(i128, i32)>) -> (confirmed: Option<String>)
        ensures
            match confirmed {
                Some(confirmed) => self.reads_back(reread) && confirmed@ == text@,
                None => !self.reads_back(reread),
            },
    {
        match reread {
            Some((unix_nanos, offset_seconds)) => {
                if unix_nanos == self.unix_nanos && offset_seconds == self.offset_seconds {
                    Some(text)
                } else {
                    None
                }
            },
            None => None,
        }
    }

    /// Writes this timestamp in its RFC 3339 form.
    ///
    /// The result is `None` where the timestamp has no such form, or where the
    /// form would not read as this timestamp again.
    pub fn to_rfc3339(&self) -> (text: Option<String>)
        ensures
            match text {
                Some(text) => self.wire_text() == Some(text@),
                None => self.wire_text() is None,
            },
    {
        match format_rfc3339(self.unix_nanos, self.offset_seconds) {
            Some(text) => {
                let reread = parse_rfc3339(text.as_str());
                self.confirm(text, reread)
            },
            None => None,
        }
    }
}

/// A timestamp that can be written reads back from its text as itself.
pub proof fn lemma_timestamp_round_trip(stamp: Timestamp)
    ensures
        stamp.wire_text() matches Some(text) ==> Timestamp::read(text) == Some(stamp),
{
}

} // verus!
