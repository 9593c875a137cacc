//! Instants of time in UTC.

use vstd::prelude::*;

verus! {

/// An instant: whole seconds since the Unix epoch and the nanoseconds after
/// them. The nanoseconds pass one thousand million only inside a leap second.
#[derive(Clone, Copy, Debug, PartialEq, Eq, Structural)]
pub struct Timestamp {
    secs: i64,
    nanos: u32,
}

/// Whether the numbers make an instant between the years -262143 and 262142.
pub open spec fn instant_in_range(secs: int, nanos: int) -> bool {
    &&& -8334601228800 <= secs <= 8210266876799
    &&& 0 <= nanos < 2000000000
    &&& nanos >= 1000000000 ==> secs % 60 == 59
}

impl Timestamp {
    pub closed spec fn secs(self) -> int {
        self.secs as int
    }

    pub closed spec fn nanos(self) -> int {
        self.nanos as int
    }

    #[verifier::type_invariant]
    pub closed spec fn valid(self) -> bool {
        instant_in_range(self.secs as int, self.nanos as int)
    }

    /// Whether the instant lies in the years 0 to 9999 and outside a leap second.
    pub open spec fn plain(self) -> bool {
        -62167219200 <= self.secs() <= 253402300799 && self.nanos() < 1000000000
    }

    /// Whether this instant comes before the other.
    pub open spec fn before(self, other: Timestamp) -> bool {
        self.secs() < other.secs() || (self.secs() == other.secs() && self.nanos() < other.nanos())
    }

    /// The instant with these parts, if they make one.
    pub fn new(secs: i64, nanos: u32) -> (r: Option<Timestamp>)
        ensures
            r is Some == instant_in_range(secs as int, nanos as int),
            r matches Some(t) ==> t.secs() == secs && t.nanos() == nanos,
    {
        if secs < -8334601228800 || secs > 8210266876799 || nanos >= 2000000000 {
            return None;
        }
        if nanos >= 1000000000 {
            let shifted: u64 = (secs + 8334601228800) as u64;
            assert(8334601228800int % 60 == 0);
            if shifted % 60 != 59 {
                assert(secs as int % 60 != 59);
                return None;
            }
            assert(secs as int % 60 == 59);
        }
        Some(Timestamp { secs, nanos })
    }

    pub fn seconds(&self) -> (r: i64)
        ensures
            r == self.secs(),
    {
        self.secs
    }

    pub fn nanoseconds(&self) -> (r: u32)
        ensures
            r == self.nanos(),
    {
        self.nanos
    }

    pub fn is_before(&self, other: &Timestamp) -> (r: bool)
        ensures
            r == self.before(*other),
    {
        self.secs < other.secs || (self.secs == other.secs && self.nanos < other.nanos)
    }
}

impl View for Timestamp {
    type V = Timestamp;

    open spec fn view(&self) -> Timestamp {
        *self
    }
}

/// The order of instants is total.
pub proof fn lemma_before_total(a: Timestamp, b: Timestamp)
    ensures
        a.before(b) || b.before(a) || a == b,
        !(a.before(b) && b.before(a)),
        a == b ==> !a.before(b),
{
}

/// The text that `chrono::DateTime::to_rfc3339` gives an instant.
pub uninterp spec fn rfc3339(t: Timestamp) -> Seq<char>;

/// The text that chrono's serde support gives an instant.
pub uninterp spec fn iso_instant(t: Timestamp) -> Seq<char>;

/// The instant that `chrono::DateTime::parse_from_rfc3339` reads from a text,
/// brought to UTC.
pub uninterp spec fn read_rfc3339(s: Seq<char>) -> Option<Timestamp>;

/// `chrono::DateTime::to_rfc3339` on the instant in UTC. The text depends on the
/// instant alone, and `parse_from_rfc3339` reads an instant of the years 0 to
/// 9999 outside a leap second back unchanged.
#[verifier::external_body]
pub(crate) fn to_rfc3339(t: Timestamp) -> (r: String)
    ensures
        r@ == rfc3339(t),
        t.plain() ==> read_rfc3339(r@) == Some(t),
{
    let at = chrono::DateTime::from_timestamp(t.secs, t.nanos);
    at.expect("the instant is in range").to_rfc3339()
}

/// The text of the string into which `serde_json::to_value` turns a
/// `chrono::DateTime<Utc>`. It depends on the instant alone.
#[verifier::external_body]
pub(crate) fn to_iso_instant(t: Timestamp) -> (r: String)
    ensures
        r@ == iso_instant(t),
{
    let at = chrono::DateTime::from_timestamp(t.secs, t.nanos);
    let value = serde_json::to_value(at.expect("the instant is in range"));
    value.unwrap_or_default().as_str().unwrap_or_default().to_string()
}

/// `chrono::DateTime::parse_from_rfc3339`, brought to UTC. What it reads depends
/// on the text alone.
#[verifier::external_body]
pub(crate) fn parse_rfc3339(s: &str) -> (r: Option<Timestamp>)
    ensures
        r == read_rfc3339(s@),
{
    let at = chrono::DateTime::parse_from_rfc3339(s).ok()?.to_utc();
    Some(Timestamp { secs: at.timestamp(), nanos: at.timestamp_subsec_nanos() })
}

/// `chrono::Utc::now`. Nothing is claimed of the instant but that it is one.
#[verifier::external_body]
pub(crate) fn utc_now() -> Timestamp {
    let at = chrono::Utc::now();
    Timestamp { secs: at.timestamp(), nanos: at.timestamp_subsec_nanos() }
}

} // verus!
