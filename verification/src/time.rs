use vstd::prelude::*;

verus! {

/// Whether chrono can hold the instant `secs` seconds and `nanos` nanoseconds
/// after the Unix epoch as a `DateTime<Utc>`.
pub uninterp spec fn timestamp_in_range(secs: int, nanos: int) -> bool;

/// The RFC 3339 text that chrono writes for an instant.
pub uninterp spec fn rfc3339_text(secs: int, nanos: int) -> Seq<char>;

/// The RFC 7231 date (`Wed, 01 Jan 2025 00:00:00 GMT`) that chrono writes for
/// an instant.
pub uninterp spec fn http_date_text(secs: int, nanos: int) -> Seq<char>;

/// The instant that chrono reads from an RFC 3339 text, if it is one.
pub uninterp spec fn rfc3339_instant(text: Seq<char>) -> Option<(int, int)>;

/// The instant that chrono reads from a `YYYY-MM-DD HH:MM:SS` text taken as
/// UTC, if it is one.
pub uninterp spec fn sqlite_instant(text: Seq<char>) -> Option<(int, int)>;

/// An instant in UTC: whole seconds since the Unix epoch and the nanoseconds
/// into that second. Every value is one that chrono can hold.
#[derive(Debug, Clone, Copy, PartialEq, Eq)]
pub struct Timestamp {
    secs: i64,
    nanos: u32,
}

/// `DateTime::from_timestamp`: tells whether chrono accepts the instant.
#[verifier::external_body]
fn chrono_accepts(secs: i64, nanos: u32) -> (ok: bool)
    ensures
        ok == timestamp_in_range(secs as int, nanos as int),
{
    chrono::DateTime::from_timestamp(secs, nanos).is_some()
}

/// `Utc::now`: the clock's reading. Chrono documents that `timestamp` and
/// `timestamp_subsec_nanos` of any `DateTime` go back through
/// `from_timestamp`, so the reading is in range. Chrono takes the reading
/// from the time that has passed since the Unix epoch, whose part below the
/// second is less than a second: the clock never reads a leap second.
/// Nothing else is known of the reading.
#[verifier::external_body]
fn chrono_now() -> (r: (i64, u32))
    ensures
        timestamp_in_range(r.0 as int, r.1 as int),
        r.1 < 1_000_000_000,
{
    let now = chrono::Utc::now();
    (now.timestamp(), now.timestamp_subsec_nanos())
}

/// `DateTime::to_rfc3339` on the instant.
#[verifier::external_body]
fn chrono_rfc3339(secs: i64, nanos: u32) -> (r: String)
    requires
        timestamp_in_range(secs as int, nanos as int),
    ensures
        r@ == rfc3339_text(secs as int, nanos as int),
{
    match chrono::DateTime::from_timestamp(secs, nanos) {
        Some(at) => at.to_rfc3339(),
        None => String::new(),
    }
}

/// `DateTime::format` with the pattern `%a, %d %b %Y %H:%M:%S GMT`.
#[verifier::external_body]
fn chrono_http_date(secs: i64, nanos: u32) -> (r: String)
    requires
        timestamp_in_range(secs as int, nanos as int),
    ensures
        r@ == http_date_text(secs as int, nanos as int),
{
    match chrono::DateTime::from_timestamp(secs, nanos) {
        Some(at) => at.format("%a, %d %b %Y %H:%M:%S GMT").to_string(),
        None => String::new(),
    }
}

/// `DateTime::parse_from_rfc3339`, the result as an instant in UTC. What
/// chrono parsed it can hold.
#[verifier::external_body]
fn chrono_parse_rfc3339(text: &str) -> (r: Option<(i64, u32)>)
    ensures
        r matches Some(p) ==> rfc3339_instant(text@) == Some((p.0 as int, p.1 as int))
            && timestamp_in_range(p.0 as int, p.1 as int),
        r is None ==> rfc3339_instant(text@) is None,
{
    match chrono::DateTime::parse_from_rfc3339(text) {
        Ok(at) => Some((at.timestamp(), at.timestamp_subsec_nanos())),
        Err(_) => None,
    }
}

/// `NaiveDateTime::parse_from_str` with the pattern `%Y-%m-%d %H:%M:%S`, the
/// result taken as UTC.
#[verifier::external_body]
fn chrono_parse_sqlite(text: &str) -> (r: Option<(i64, u32)>)
    ensures
        r matches Some(p) ==> sqlite_instant(text@) == Some((p.0 as int, p.1 as int))
            && timestamp_in_range(p.0 as int, p.1 as int),
        r is None ==> sqlite_instant(text@) is None,
{
    match chrono::NaiveDateTime::parse_from_str(text, "%Y-%m-%d %H:%M:%S") {
        Ok(at) => Some((at.and_utc().timestamp(), at.and_utc().timestamp_subsec_nanos())),
        Err(_) => None,
    }
}

/// The instant that a stored text stands for: the database's own
/// `YYYY-MM-DD HH:MM:SS` form first, RFC 3339 otherwise.
pub open spec fn stored_instant(text: Seq<char>) -> Option<(int, int)> {
    if sqlite_instant(text) is Some {
        sqlite_instant(text)
    } else {
        rfc3339_instant(text)
    }
}

impl Timestamp {
    #[verifier::type_invariant]
    spec fn in_range(self) -> bool {
        timestamp_in_range(self.secs as int, self.nanos as int)
    }

    /// Seconds and nanoseconds since the Unix epoch.
    pub closed spec fn instant(self) -> (int, int) {
        (self.secs as int, self.nanos as int)
    }

    /// The timestamp of an instant.
    pub closed spec fn at(secs: int, nanos: int) -> Timestamp {
        Timestamp { secs: secs as i64, nanos: nanos as u32 }
    }

    /// The timestamp that an RFC 3339 text stands for, if it is one.
    pub open spec fn parsed(text: Seq<char>) -> Option<Timestamp> {
        match rfc3339_instant(text) {
            Some(i) => Some(Timestamp::at(i.0, i.1)),
            None => None,
        }
    }

    /// The timestamp that a stored text stands for, if it is one.
    pub open spec fn stored(text: Seq<char>) -> Option<Timestamp> {
        match stored_instant(text) {
            Some(i) => Some(Timestamp::at(i.0, i.1)),
            None => None,
        }
    }

    /// The RFC 3339 text of this instant.
    pub open spec fn rfc3339(self) -> Seq<char> {
        rfc3339_text(self.instant().0, self.instant().1)
    }

    /// The RFC 7231 date of this instant.
    pub open spec fn http_date(self) -> Seq<char> {
        http_date_text(self.instant().0, self.instant().1)
    }

    /// The instant `secs` seconds and `nanos` nanoseconds after the Unix
    /// epoch, where chrono can hold it.
    pub fn from_unix(secs: i64, nanos: u32) -> (r: Option<Timestamp>)
        ensures
            r is Some <==> timestamp_in_range(secs as int, nanos as int),
            r matches Some(t) ==> t.instant() == (secs as int, nanos as int),
    {
        if chrono_accepts(secs, nanos) {
            Some(Timestamp { secs, nanos })
        } else {
            None
        }
    }

    /// Whether chrono can hold this instant, and so write it out.
    pub open spec fn representable(self) -> bool {
        timestamp_in_range(self.instant().0, self.instant().1)
    }

    /// The clock's reading: an instant that chrono can hold, with less than
    /// a second's worth of nanoseconds. Which instant it is depends on the
    /// clock alone.
    pub fn now() -> (r: Timestamp)
        ensures
            r.representable(),
            r.instant().1 < 1_000_000_000,
    {
        let reading = chrono_now();
        Timestamp { secs: reading.0, nanos: reading.1 }
    }

    pub fn secs(&self) -> (r: i64)
        ensures
            r as int == self.instant().0,
    {
        self.secs
    }

    pub fn nanos(&self) -> (r: u32)
        ensures
            r as int == self.instant().1,
    {
        self.nanos
    }

    pub fn parse_from_rfc3339(text: &str) -> (r: Option<Timestamp>)
        ensures
            r == Timestamp::parsed(text@),
            r matches Some(t) ==> Some(t.instant()) == rfc3339_instant(text@),
    {
        match chrono_parse_rfc3339(text) {
            Some(p) => Some(Timestamp { secs: p.0, nanos: p.1 }),
            None => None,
        }
    }

    /// Reads a timestamp as the database hands it out.
    pub fn parse_stored(text: &str) -> (r: Option<Timestamp>)
        ensures
            r == Timestamp::stored(text@),
            r matches Some(t) ==> Some(t.instant()) == stored_instant(text@),
    {
        match chrono_parse_sqlite(text) {
            Some(p) => Some(Timestamp { secs: p.0, nanos: p.1 }),
            None => Timestamp::parse_from_rfc3339(text),
        }
    }

    pub fn to_rfc3339(&self) -> (r: String)
        ensures
            r@ == self.rfc3339(),
    {
        proof {
            use_type_invariant(self);
        }
        chrono_rfc3339(self.secs, self.nanos)
    }

    pub fn to_http_date(&self) -> (r: String)
        ensures
            r@ == self.http_date(),
    {
        proof {
            use_type_invariant(self);
        }
        chrono_http_date(self.secs, self.nanos)
    }
}

} // verus!
