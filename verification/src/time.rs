use vstd::prelude::*;

verus! {

/// The earliest UNIX second that chrono's `DateTime` can hold
/// (January 1, 262144 BCE, 00:00:00 UTC).
pub const MIN_UNIX_SECS: i64 = -8334601228800;

/// The latest UNIX second that chrono's `DateTime` can hold
/// (December 31, 262142 CE, 23:59:59 UTC).
pub const MAX_UNIX_SECS: i64 = 8210266876799;

/// Whether chrono can build a `DateTime<FixedOffset>` from a UNIX second, a
/// nanosecond part and an offset east of UTC in seconds: the second lies in
/// chrono's range, the nanosecond part is below one second except on the last
/// second of a minute (a leap second may carry up to two), and the offset is
/// less than a day either way.
pub open spec fn instant_in_range(secs: i64, nanos: u32, offset_secs: i32) -> bool {
    &&& MIN_UNIX_SECS <= secs <= MAX_UNIX_SECS
    &&& nanos < 2_000_000_000
    &&& (nanos >= 1_000_000_000 ==> secs % 60 == 59)
    &&& -86_400 < offset_secs < 86_400
}

/// The RFC 3339 text that chrono's `DateTime::<FixedOffset>::to_rfc3339`
/// writes for the instant `secs`/`nanos` shown at the offset `offset_secs`.
pub uninterp spec fn rfc3339_text(secs: i64, nanos: u32, offset_secs: i32) -> Seq<char>;

/// Formats an instant with chrono: builds the UTC `DateTime` from the UNIX
/// second and nanosecond part (`DateTime::from_timestamp`), moves it to the
/// offset (`FixedOffset::east_opt`, `DateTime::with_timezone`) and writes it
/// with `DateTime::to_rfc3339`. The contract claims that the text is
/// `rfc3339_text` of the three numbers; both `unwrap`s succeed on the
/// arguments that `instant_in_range` admits.
#[verifier::external_body]
fn format_rfc3339(secs: i64, nanos: u32, offset_secs: i32) -> (text: String)
    requires
        instant_in_range(secs, nanos, offset_secs),
    ensures
        text@ == rfc3339_text(secs, nanos, offset_secs),
{
    let utc = chrono::DateTime::from_timestamp(secs, nanos).unwrap();
    let offset = chrono::FixedOffset::east_opt(offset_secs).unwrap();
    utc.with_timezone(&offset).to_rfc3339()
}

/// An instant together with the UTC offset it is shown at, as the database
/// stores a `timestamp with time zone`.
#[derive(Clone, Copy, Debug)]
pub struct Timestamp {
    pub(crate) secs: i64,
    pub(crate) nanos: u32,
    pub(crate) offset_secs: i32,
}

impl View for Timestamp {
    /// The UNIX second, the nanosecond part and the offset east of UTC in seconds.
    type V = (i64, u32, i32);

    closed spec fn view(&self) -> (i64, u32, i32) {
        (self.secs, self.nanos, self.offset_secs)
    }
}

impl Timestamp {
    #[verifier::type_invariant]
    spec fn in_range(self) -> bool {
        instant_in_range(self.secs, self.nanos, self.offset_secs)
    }

    /// Builds a timestamp, or `None` where chrono could not represent it.
    pub fn new(secs: i64, nanos: u32, offset_secs: i32) -> (r: Option<Timestamp>)
        ensures
            r is Some <==> instant_in_range(secs, nanos, offset_secs),
            r matches Some(t) ==> t@ == (secs, nanos, offset_secs),
    {
        // Rust's `%` keeps the dividend's sign: the last second of a minute
        // leaves 59 above zero and -1 below it.
        let in_minute: i64 = secs % 60;
        let last_second = in_minute == 59 || in_minute == -1;
        if MIN_UNIX_SECS <= secs && secs <= MAX_UNIX_SECS && nanos < 2_000_000_000 && (nanos
            < 1_000_000_000 || last_second) && -86_400 < offset_secs && offset_secs < 86_400 {
            Some(Timestamp { secs, nanos, offset_secs })
        } else {
            None
        }
    }

    /// The UNIX second.
    pub fn unix_secs(&self) -> (r: i64)
        ensures
            r == self@.0,
    {
        self.secs
    }

    /// The nanosecond part.
    pub fn subsec_nanos(&self) -> (r: u32)
        ensures
            r == self@.1,
    {
        self.nanos
    }

    /// The offset east of UTC, in seconds.
    pub fn offset_secs(&self) -> (r: i32)
        ensures
            r == self@.2,
    {
        self.offset_secs
    }

    /// The RFC 3339 text of this timestamp, as chrono writes it.
    pub fn to_rfc3339(&self) -> (text: String)
        ensures
            text@ == rfc3339_text(self@.0, self@.1, self@.2),
    {
        proof {
            use_type_invariant(self);
        }
        format_rfc3339(self.secs, self.nanos, self.offset_secs)
    }
}

} // verus!
