//! Points in time, as the tracker protocol writes them.

use crate::decimal::{decimal, format_u128, lemma_decimal_shape};
use crate::json::{encoding, lemma_quoted_plain, quote, quoted, EncodingError, ToJson};
use std::time::SystemTime;
use vstd::prelude::*;

verus! {

/// `std::time::SystemTime`, of which nothing is known here.
#[verifier::external_type_specification]
#[verifier::external_body]
pub struct ExSystemTime(std::time::SystemTime);

/// `SystemTime::now`: a reading of the system clock. Nothing is known of it.
#[verifier::external_body]
fn system_now() -> SystemTime {
    SystemTime::now()
}

/// `SystemTime::duration_since` against `SystemTime::UNIX_EPOCH`, in whole
/// nanoseconds: `Ok` with the distance where `t` is not earlier than the
/// epoch, `Err` with the distance where it is.
#[verifier::external_body]
fn since_unix_epoch(t: &SystemTime) -> Result<u128, u128> {
    match t.duration_since(SystemTime::UNIX_EPOCH) {
        Ok(after) => Ok(after.as_nanos()),
        Err(before) => Err(before.duration().as_nanos()),
    }
}

/// Whether `time` is a reading that the system clock may give.
pub closed spec fn clock_reads(time: SystemTime) -> bool {
    call_ensures(system_now, (), time)
}

/// Whether `distance` is what the system may give as the distance of `time`
/// from the Unix epoch: `Ok` with the nanoseconds by which `time` follows the
/// epoch, `Err` with the nanoseconds by which it precedes it.
pub closed spec fn measures(time: SystemTime, distance: Result<u128, u128>) -> bool {
    call_ensures(since_unix_epoch, (&time,), distance)
}

/// The farthest that a timestamp lies from the Unix epoch, in nanoseconds.
pub open spec fn farthest() -> int {
    0x7fff_ffff_ffff_ffff_ffff_ffff_ffff_ffff
}

/// Nanoseconds from the Unix epoch to the point in time at the distance
/// `distance` from it, negative before the epoch; a distance beyond
/// [`farthest`] counts as that.
pub open spec fn offset(distance: Result<u128, u128>) -> int {
    match distance {
        Ok(after) => if after > farthest() {
            farthest()
        } else {
            after as int
        },
        Err(before) => if before > farthest() {
            -farthest()
        } else {
            -(before as int)
        },
    }
}

/// A snowplow timestamp: a point in time, seen as its distance from the Unix
/// epoch in nanoseconds (negative before the epoch).
///
/// Note that this type encodes as a string, even though it has numeric
/// representation, in keeping with the Snowplow Protocol. You should probably
/// not use it for your own custom event timekeeping.
#[derive(Debug, Copy, Clone, PartialEq, Eq, Structural)]
pub struct SnowplowTimestamp {
    unix_nanos: i128,
}

impl View for SnowplowTimestamp {
    type V = int;

    /// Nanoseconds from the Unix epoch to this point in time.
    closed spec fn view(&self) -> int {
        self.unix_nanos as int
    }
}

impl SnowplowTimestamp {
    /// Whole milliseconds since the Unix epoch, and zero for a point in time
    /// before the epoch: the protocol has no negative timestamps, and an
    /// early clock is no reason to lose the event.
    pub open spec fn millis(self) -> nat {
        if self@ < 0 {
            0
        } else {
            (self@ / 1_000_000) as nat
        }
    }

    /// The timestamp as the protocol writes it: the milliseconds in decimal.
    pub open spec fn text(self) -> Seq<char> {
        decimal(self.millis())
    }

    /// The point in time `nanos` nanoseconds after the Unix epoch (before it
    /// where `nanos` is negative).
    pub fn from_unix_nanos(nanos: i128) -> (t: Self)
        ensures
            t@ == nanos,
    {
        Self { unix_nanos: nanos }
    }

    /// The point in time `millis` milliseconds after the Unix epoch (before
    /// it where `millis` is negative).
    pub fn from_unix_millis(millis: i64) -> (t: Self)
        ensures
            t@ == millis * 1_000_000,
    {
        let wide: i128 = millis as i128;
        Self { unix_nanos: wide * 1_000_000 }
    }

    /// The point in time at the distance `distance` from the Unix epoch:
    /// `Ok` with the nanoseconds after the epoch, `Err` with the nanoseconds
    /// before it. A distance beyond [`farthest`] is cut to that.
    pub fn from_epoch_distance(distance: Result<u128, u128>) -> (t: Self)
        ensures
            t@ == offset(distance),
    {
        let limit: u128 = 0x7fff_ffff_ffff_ffff_ffff_ffff_ffff_ffff;
        match distance {
            Ok(after) => {
                let nanos: u128 = if after > limit { limit } else { after };
                Self { unix_nanos: nanos as i128 }
            },
            Err(before) => {
                let nanos: u128 = if before > limit { limit } else { before };
                Self { unix_nanos: -(nanos as i128) }
            },
        }
    }

    /// The point in time that `time` stands for: the system is asked for the
    /// distance of `time` from the Unix epoch, and the timestamp lies at
    /// that distance.
    pub fn from_system_time(time: SystemTime) -> (t: Self)
        ensures
            exists|distance: Result<u128, u128>| #[trigger]
                measures(time, distance) && t@ == offset(distance),
    {
        let distance = since_unix_epoch(&time);
        assert(measures(time, distance));
        Self::from_epoch_distance(distance)
    }

    /// Create a new timestamp for this moment in time. This is based on
    /// [`std::time::SystemTime`]: the system clock is read once, and the
    /// timestamp lies at the distance of that reading from the Unix epoch.
    pub fn now() -> (t: Self)
        ensures
            exists|time: SystemTime, distance: Result<u128, u128>|
                #![trigger clock_reads(time), measures(time, distance)]
                clock_reads(time) && measures(time, distance) && t@ == offset(distance),
    {
        let time = system_now();
        assert(clock_reads(time));
        Self::from_system_time(time)
    }

    /// Nanoseconds from the Unix epoch to this point in time.
    pub fn unix_nanos(&self) -> (nanos: i128)
        ensures
            nanos == self@,
    {
        self.unix_nanos
    }

    /// The timestamp as the protocol writes it, before quoting.
    pub fn millis_text(&self) -> (r: String)
        ensures
            r@ == self.text(),
    {
        format_u128(self.unix_millis())
    }

    /// Whole milliseconds since the Unix epoch, zero before it.
    pub fn unix_millis(&self) -> (millis: u128)
        ensures
            millis == self.millis(),
    {
        if self.unix_nanos < 0 {
            0
        } else {
            (self.unix_nanos / 1_000_000) as u128
        }
    }
}

impl ToJson for SnowplowTimestamp {
    /// Never fails; the document is the JSON string of the milliseconds.
    fn to_json(&self) -> (r: Result<String, EncodingError>)
        ensures
            encoding(r) == Ok::<Seq<char>, Seq<char>>(quoted(self.text())),
    {
        Ok(quote(self.millis_text().as_str()))
    }
}

/// A timestamp is written as a JSON string that holds its milliseconds in
/// decimal and nothing else.
pub proof fn lemma_timestamp_is_quoted_number(t: SnowplowTimestamp)
    ensures
        quoted(t.text()) == seq!['"'] + decimal(t.millis()) + seq!['"'],
{
    lemma_decimal_shape(t.millis());
    lemma_quoted_plain(t.text());
}

/// A point in time before the Unix epoch is written as `"0"`: never as a
/// negative number, and never as an error.
pub proof fn lemma_before_epoch_is_zero(t: SnowplowTimestamp)
    requires
        t@ < 0,
    ensures
        t.millis() == 0,
        t.text() == seq!['0'],
        quoted(t.text()) == seq!['"', '0', '"'],
{
    lemma_timestamp_is_quoted_number(t);
    assert(decimal(0) =~= seq!['0']);
    assert(seq!['"'] + seq!['0'] + seq!['"'] =~= seq!['"', '0', '"']);
}

} // verus!
