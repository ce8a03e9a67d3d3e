//! Points in time, as the chat platform reports them and as replies show them.
//!
//! A [`Timestamp`] holds a UTC time as plain numbers. Two things are left to
//! `serenity`: reading the creation time out of an id, and writing a time in
//! RFC 3339 form.

use vstd::prelude::*;

verus! {

/// The first second that can be written with a four-digit year: `0000-01-01T00:00:00Z`.
pub const EARLIEST_SECOND: i64 = -62_167_219_200;

/// The last second that can be written with a four-digit year: `9999-12-31T23:59:59Z`.
pub const LATEST_SECOND: i64 = 253_402_300_799;

/// Nanoseconds in one second.
pub const NANOS_PER_SECOND: u32 = 1_000_000_000;

/// Milliseconds between the Unix epoch and the epoch that ids count from, `2015-01-01T00:00:00Z`.
pub const ID_EPOCH_MILLIS: u64 = 1_420_070_400_000;

/// Whether a pair of numbers denotes a time that has an RFC 3339 form.
pub open spec fn representable(seconds: int, nanos: int) -> bool {
    &&& EARLIEST_SECOND <= seconds <= LATEST_SECOND
    &&& 0 <= nanos < NANOS_PER_SECOND
}

/// The creation time that an id carries, in milliseconds since the Unix epoch:
/// the bits above the low 22, counted from the id epoch.
pub open spec fn id_unix_millis(id: u64) -> int {
    (id >> 22) + ID_EPOCH_MILLIS
}

/// The RFC 3339 text that `serenity` writes for the UTC time `seconds` and
/// `nanos` after the Unix epoch.
pub uninterp spec fn rfc3339_text(seconds: int, nanos: int) -> Seq<char>;

/// The text that replies show for the creation time that `id` carries.
pub open spec fn created_text(id: u64) -> Seq<char> {
    rfc3339_text(id_unix_millis(id) / 1000, (id_unix_millis(id) % 1000) * 1_000_000)
}

/// A UTC time between the years 0 and 9999, to the nanosecond.
#[derive(Clone, Copy, Debug, PartialEq, Eq)]
pub struct Timestamp {
    seconds: i64,
    nanos: u32,
}

impl Timestamp {
    #[verifier::type_invariant]
    spec fn in_range(self) -> bool {
        representable(self.seconds as int, self.nanos as int)
    }

    /// Whole seconds since the Unix epoch.
    pub closed spec fn unix_seconds(self) -> int {
        self.seconds as int
    }

    /// Nanoseconds past the whole second.
    pub closed spec fn subsec_nanos(self) -> int {
        self.nanos as int
    }

    /// The text that replies show for this time.
    pub open spec fn text(self) -> Seq<char> {
        rfc3339_text(self.unix_seconds(), self.subsec_nanos())
    }

    /// The time `seconds` and `nanos` after the Unix epoch, if it has an RFC 3339 form.
    pub fn new(seconds: i64, nanos: u32) -> (r: Option<Timestamp>)
        ensures
            r is Some <==> representable(seconds as int, nanos as int),
            r matches Some(t) ==> t.unix_seconds() == seconds && t.subsec_nanos() == nanos,
    {
        if EARLIEST_SECOND <= seconds && seconds <= LATEST_SECOND && nanos < NANOS_PER_SECOND {
            Some(Timestamp { seconds, nanos })
        } else {
            None
        }
    }

    /// Whole seconds since the Unix epoch.
    pub fn seconds(&self) -> (r: i64)
        ensures
            r == self.unix_seconds(),
            EARLIEST_SECOND <= r <= LATEST_SECOND,
    {
        proof {
            use_type_invariant(self);
        }
        self.seconds
    }

    /// Nanoseconds past the whole second.
    pub fn nanos(&self) -> (r: u32)
        ensures
            r == self.subsec_nanos(),
            r < NANOS_PER_SECOND,
    {
        proof {
            use_type_invariant(self);
        }
        self.nanos
    }

    /// The time at which the account, guild or other thing with this id was created.
    pub fn created_at(id: u64) -> (r: Timestamp)
        ensures
            r.unix_seconds() == id_unix_millis(id) / 1000,
            r.subsec_nanos() == (id_unix_millis(id) % 1000) * 1_000_000,
            r.text() == created_text(id),
    {
        let (seconds, nanos) = id_creation_time(id);
        assert((id >> 22) <= 0x3ff_ffff_ffffu64) by (bit_vector);
        Timestamp { seconds, nanos }
    }

    /// Writes the time in RFC 3339 form.
    pub fn to_rfc3339(&self) -> (r: String)
        ensures
            r@ == self.text(),
    {
        proof {
            use_type_invariant(self);
        }
        rfc3339(self.seconds, self.nanos)
    }
}

/// `serenity::model::id::UserId::created_at`, with the time it returns taken
/// apart into whole seconds and nanoseconds since the Unix epoch.
///
/// Trusted: the time is `id >> 22` milliseconds after the id epoch, as the
/// method computes it.
#[verifier::external_body]
fn id_creation_time(id: u64) -> (r: (i64, u32))
    ensures
        r.0 == id_unix_millis(id) / 1000,
        r.1 == (id_unix_millis(id) % 1000) * 1_000_000,
{
    let created = serenity::model::id::UserId(id).created_at();
    (created.unix_timestamp(), created.nanosecond())
}

/// `Display` of `serenity::model::Timestamp`, on the UTC time made of
/// `seconds` and `nanos`.
///
/// Trusted: the text depends on the two numbers alone. The bounds keep to
/// times that `serenity` can hold and write; outside them the conversion or
/// the formatting fails.
#[verifier::external_body]
fn rfc3339(seconds: i64, nanos: u32) -> (r: String)
    requires
        representable(seconds as int, nanos as int),
    ensures
        r@ == rfc3339_text(seconds as int, nanos as int),
{
    let whole = serenity::model::Timestamp::from_unix_timestamp(seconds).unwrap();
    let exact = whole.replace_nanosecond(nanos).unwrap();
    serenity::model::Timestamp::from(exact).to_string()
}

} // verus!
