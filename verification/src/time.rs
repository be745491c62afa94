//! Points in time and spans of time, as the store reports them, and the text
//! each is shown as.

use edgedb_protocol::model::{Datetime, Duration};
use vstd::prelude::*;

verus! {

/// Microseconds in one second.
pub const MICROS_PER_SECOND: i64 = 1_000_000;

/// The earliest instant the store can hold, 0001-01-01T00:00:00Z, in
/// microseconds since the Unix epoch.
pub const MIN_UNIX_MICROS: i64 = -62_135_596_800_000_000;

/// The latest instant the store can hold, 9999-12-31T23:59:59.999999Z, in
/// microseconds since the Unix epoch.
pub const MAX_UNIX_MICROS: i64 = 253_402_300_799_999_999;

/// Whether `micros` since the Unix epoch is an instant the store can hold.
pub open spec fn representable(micros: int) -> bool {
    MIN_UNIX_MICROS <= micros <= MAX_UNIX_MICROS
}

/// A UTC instant assigned by the store, with microsecond precision.
#[derive(Clone, Copy, Debug, PartialEq, Eq)]
pub struct Timestamp {
    micros: i64,
}

impl View for Timestamp {
    type V = int;

    /// Microseconds since the Unix epoch.
    closed spec fn view(&self) -> int {
        self.micros as int
    }
}

impl Timestamp {
    #[verifier::type_invariant]
    spec fn in_range(self) -> bool {
        representable(self.micros as int)
    }

    /// The instant `micros` microseconds after the Unix epoch, if the store
    /// can hold it.
    pub fn from_unix_micros(micros: i64) -> (r: Option<Timestamp>)
        ensures
            r is Some <==> representable(micros as int),
            r matches Some(t) ==> t@ == micros,
    {
        if MIN_UNIX_MICROS <= micros && micros <= MAX_UNIX_MICROS {
            Some(Timestamp { micros })
        } else {
            None
        }
    }

    /// Microseconds since the Unix epoch.
    pub fn unix_micros(self) -> (r: i64)
        ensures
            r == self@,
            representable(r as int),
    {
        proof {
            use_type_invariant(&self);
        }
        self.micros
    }

    /// The span from `earlier` to `self` in microseconds; negative when
    /// `self` comes first.
    pub fn micros_since(self, earlier: Timestamp) -> (r: i64)
        ensures
            r == self@ - earlier@,
    {
        self.unix_micros() - earlier.unix_micros()
    }

    /// The text this instant is shown as.
    pub fn to_text(self) -> (r: String)
        ensures
            r@ == datetime_text(self@),
    {
        datetime_to_string(self.unix_micros())
    }
}

/// Whether a span of `micros` microseconds has no sub-second part.
pub open spec fn is_whole(micros: int) -> bool {
    micros % (MICROS_PER_SECOND as int) == 0
}

/// A span of `micros` microseconds with its sub-second part discarded: the
/// whole seconds nearest to zero, still counted in microseconds.
pub open spec fn whole_seconds(micros: int) -> int {
    if micros >= 0 {
        micros - micros % (MICROS_PER_SECOND as int)
    } else {
        -((-micros) - (-micros) % (MICROS_PER_SECOND as int))
    }
}

/// Discards the sub-second part of a span given in microseconds. The result
/// is never rounded up: 90.7 s becomes 90 s.
pub fn floor_to_seconds(micros: i64) -> (r: i64)
    ensures
        r == whole_seconds(micros as int),
        is_whole(r as int),
        r > i64::MIN,
{
    if micros >= 0 {
        micros - micros % MICROS_PER_SECOND
    } else if micros == i64::MIN {
        // The magnitude of the smallest span does not fit; its sub-second
        // part is 775_808 microseconds.
        micros + 775_808
    } else {
        let magnitude: i64 = -micros;
        -(magnitude - magnitude % MICROS_PER_SECOND)
    }
}

/// The digit character for `d`, which is below ten.
pub open spec fn digit(d: int) -> char {
    (('0' as int) + d) as char
}

/// The decimal numeral of `n`, without leading zeros.
pub open spec fn decimal(n: nat) -> Seq<char>
    decreases n,
{
    if n < 10 {
        seq![digit(n as int)]
    } else {
        decimal(n / 10).push(digit((n % 10) as int))
    }
}

/// `n`, which is below one hundred, as exactly two digits.
pub open spec fn two_digits(n: int) -> Seq<char> {
    seq![digit(n / 10), digit(n % 10)]
}

/// `seconds` as hours, minutes and seconds: `H:MM:SS`, the hours unpadded.
pub open spec fn clock_text(seconds: nat) -> Seq<char> {
    decimal(seconds / 3600) + seq![':'] + two_digits((seconds / 60 % 60) as int) + seq![':']
        + two_digits((seconds % 60) as int)
}

/// The text a span of whole seconds is shown as, `micros` being a multiple
/// of a second: `H:MM:SS`, with a leading `-` when negative.
pub open spec fn duration_text(micros: int) -> Seq<char> {
    if micros < 0 {
        seq!['-'] + clock_text((-micros / (MICROS_PER_SECOND as int)) as nat)
    } else {
        clock_text((micros / (MICROS_PER_SECOND as int)) as nat)
    }
}

/// The text an instant is shown as, in UTC: date, time of day, and the
/// letters `UTC`.
pub uninterp spec fn datetime_text(unix_micros: int) -> Seq<char>;

/// Formats a span of whole seconds through `Display` for
/// `edgedb_protocol::model::Duration`, built by `Duration::from_micros`.
///
/// Trusted: for a span without a sub-second part the outside code writes a
/// `-` if the span is negative, then the hours, and the minutes and seconds
/// as two digits each, separated by colons. The smallest `i64` is left out
/// because its magnitude cannot be taken.
#[verifier::external_body]
pub(crate) fn duration_to_string(micros: i64) -> (r: String)
    requires
        micros > i64::MIN,
        is_whole(micros as int),
    ensures
        r@ == duration_text(micros as int),
{
    Duration::from_micros(micros).to_string()
}

/// Formats an instant through `Display` for
/// `edgedb_protocol::model::Datetime`, built by `Datetime::from_unix_micros`.
///
/// Trusted: the text depends on the instant alone. Instants outside the
/// representable range are left out because the constructor panics on them.
#[verifier::external_body]
pub(crate) fn datetime_to_string(unix_micros: i64) -> (r: String)
    requires
        representable(unix_micros as int),
    ensures
        r@ == datetime_text(unix_micros as int),
{
    Datetime::from_unix_micros(unix_micros).to_string()
}

/// The text a span of `micros` microseconds is shown as once its sub-second
/// part is discarded.
pub fn duration_display(micros: i64) -> (r: String)
    ensures
        r@ == duration_text(whole_seconds(micros as int)),
{
    duration_to_string(floor_to_seconds(micros))
}

} // verus!
