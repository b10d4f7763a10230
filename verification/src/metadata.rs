//! Timestamped metadata published while the node streams, and the RFC 3339
//! rendering of its timestamps (done by the `time` crate).
use vstd::prelude::*;
use vstd::string::*;

use crate::calendar::{civil_date, datetime_seconds, datetime_text, lemma_datetime_text};
use crate::config::{device_type_name, AppConfig};
use crate::text::{
    decimal, digits_value, lemma_trailing_zeros_value, lemma_zero_pad_value, pow10, trim_end_char,
    zero_pad,
};

verus! {

#[verifier::external_type_specification]
#[verifier::external_body]
pub struct ExOffsetDateTime(time::OffsetDateTime);

/// `OffsetDateTime::now_utc`: the current time; nothing is known of it.
pub assume_specification[time::OffsetDateTime::now_utc]() -> time::OffsetDateTime;

/// `OffsetDateTime::unix_timestamp`: its whole seconds since the epoch.
pub assume_specification[time::OffsetDateTime::unix_timestamp](dt: time::OffsetDateTime) -> i64;

/// `OffsetDateTime::nanosecond`: documented to lie in `0..1_000_000_000`.
pub assume_specification[time::OffsetDateTime::nanosecond](dt: time::OffsetDateTime) -> (r: u32)
    ensures
        r < 1_000_000_000,
;

/// Earliest Unix timestamp an `OffsetDateTime` holds (-9999-01-01T00:00:00Z).
pub open spec fn min_timestamp() -> int {
    -377705116800
}

/// Latest Unix timestamp an `OffsetDateTime` holds (9999-12-31T23:59:59Z).
pub open spec fn max_timestamp() -> int {
    253402300799
}

/// Whole seconds (rounded down) of an instant given in nanoseconds.
pub open spec fn nanos_seconds(unix_nanos: int) -> int {
    unix_nanos / 1_000_000_000
}

/// The calendar year of an instant given in nanoseconds since the epoch.
pub open spec fn year_of_nanos(unix_nanos: int) -> int {
    civil_date(nanos_seconds(unix_nanos) / 86400).0
}

/// RFC 3339 text of an instant in UTC as the `time` crate writes it:
/// `YYYY-MM-DDTHH:MM:SS`, then, unless the nanoseconds are zero, a dot and
/// the nine-digit nanoseconds without trailing zeros, then `Z`.
pub open spec fn rfc3339_utc_text(unix_nanos: int) -> Seq<char> {
    datetime_text(nanos_seconds(unix_nanos)) + rfc3339_fraction(unix_nanos % 1_000_000_000)
        + seq!['Z']
}

/// The fraction of a second as RFC 3339 text: nothing for zero
/// nanoseconds, else a dot and the nine-digit nanoseconds without trailing
/// zeros.
pub open spec fn rfc3339_fraction(nanos: int) -> Seq<char> {
    if nanos == 0 {
        Seq::<char>::empty()
    } else {
        seq!['.'] + trim_end_char(zero_pad(decimal(nanos as nat), 9), '0')
    }
}

/// The instant, in nanoseconds since the epoch, that an RFC 3339 text in
/// UTC names: `YYYY-MM-DDTHH:MM:SS`, then optionally a dot and one to nine
/// digits of fraction, then `Z`.
pub open spec fn rfc3339_nanos(text: Seq<char>) -> int {
    let digits = if text.len() > 20 {
        text.subrange(20, text.len() - 1)
    } else {
        Seq::<char>::empty()
    };
    datetime_seconds(text) * 1_000_000_000 + digits_value(digits) * pow10((9 - digits.len()) as nat)
}

/// `OffsetDateTime::from_unix_timestamp(seconds).is_ok()`: whether `time`
/// can represent the timestamp. Its source accepts exactly the seconds from
/// -9999-01-01T00:00:00Z to 9999-12-31T23:59:59Z (the `large-dates` feature
/// is off).
#[verifier::external_body]
fn timestamp_in_range(seconds: i64) -> (r: bool)
    ensures
        r == (min_timestamp() <= seconds <= max_timestamp()),
{
    time::OffsetDateTime::from_unix_timestamp(seconds).is_ok()
}

/// `OffsetDateTime::format(&Rfc3339)` of the instant `unix_nanos` (built
/// with `OffsetDateTime::from_unix_timestamp_nanos`, which cannot fail on
/// the instants admitted). The source fails exactly when the year is
/// outside `0..10000` (a UTC offset is always formattable) and otherwise
/// writes the text that `rfc3339_utc_text` describes.
#[verifier::external_body]
fn format_rfc3339(unix_nanos: i128) -> (r: Option<String>)
    requires
        min_timestamp() <= nanos_seconds(unix_nanos as int) <= max_timestamp(),
    ensures
        r is Some <==> 0 <= year_of_nanos(unix_nanos as int) <= 9999,
        r matches Some(s) ==> s@ == rfc3339_utc_text(unix_nanos as int),
{
    match time::OffsetDateTime::from_unix_timestamp_nanos(unix_nanos) {
        Ok(datetime) => datetime.format(&time::format_description::well_known::Rfc3339).ok(),
        Err(_) => None,
    }
}

/// The text `format_unix_millis_rfc3339` gives: the timestamp's seconds
/// (taken as `(unix_millis / 1000) as i64`, which wraps beyond `i64::MAX`)
/// replaced by the epoch when `time` cannot hold them, plus its milliseconds,
/// in RFC 3339; or `1970-01-01T00:00:00Z` when that instant's year is outside
/// `0..=9999`.
pub open spec fn rfc3339_of_millis(unix_millis: u128) -> Seq<char> {
    let seconds = ((unix_millis / 1000) as i64) as int;
    let base = if min_timestamp() <= seconds <= max_timestamp() {
        seconds
    } else {
        0
    };
    let instant = base * 1_000_000_000 + (unix_millis % 1000) as int * 1_000_000;
    if 0 <= year_of_nanos(instant) <= 9999 {
        rfc3339_utc_text(instant)
    } else {
        "1970-01-01T00:00:00Z"@
    }
}

/// RFC 3339 rendering of a Unix timestamp in milliseconds. Up to the end of
/// year 9999 it is the RFC 3339 text of that instant.
pub fn format_unix_millis_rfc3339(unix_millis: u128) -> (r: String)
    ensures
        r@ == rfc3339_of_millis(unix_millis),
        unix_millis / 1000 <= max_timestamp() ==> r@ == rfc3339_utc_text(
            unix_millis as int * 1_000_000,
        ),
{
    let seconds: i64 = (unix_millis / 1000) as i64;
    let nanos: i32 = ((unix_millis % 1000) * 1_000_000) as i32;
    let base: i64 = if timestamp_in_range(seconds) {
        seconds
    } else {
        0
    };
    let instant: i128 = base as i128 * 1_000_000_000 + nanos as i128;
    assert(nanos_seconds(instant as int) == base as int);
    proof {
        if unix_millis / 1000 <= max_timestamp() {
            assert(seconds as int == (unix_millis / 1000) as int);
            assert(instant as int == unix_millis as int * 1_000_000);
            assert(0 <= year_of_nanos(instant as int) <= 9999) by {
                crate::calendar::lemma_civil_date_year_range(base as int / 86400, 1970, 9999);
            }
        }
    }
    match format_rfc3339(instant) {
        Some(text) => text,
        None => String::from_str("1970-01-01T00:00:00Z"),
    }
}

/// The instant of a millisecond timestamp before the year 10000 is within
/// what `time` holds, with the timestamp's seconds and its milliseconds as
/// nanoseconds, and its RFC 3339 text is that of the instant.
proof fn lemma_millis_instant(unix_millis: u128)
    requires
        unix_millis < 253_402_300_800_000,
    ensures
        unix_millis * 1_000_000 == (unix_millis / 1000) * 1_000_000_000 + (unix_millis % 1000)
            * 1_000_000,
        nanos_seconds(unix_millis * 1_000_000) == unix_millis / 1000,
        (unix_millis * 1_000_000) % 1_000_000_000 == (unix_millis % 1000) * 1_000_000,
        rfc3339_of_millis(unix_millis) == rfc3339_utc_text(unix_millis * 1_000_000),
{
    let seconds = (unix_millis / 1000) as int;
    let millis = (unix_millis % 1000) as int;
    let instant = unix_millis * 1_000_000;
    assert(instant == seconds * 1_000_000_000 + millis * 1_000_000 && 0 <= millis * 1_000_000
        < 1_000_000_000) by (nonlinear_arith)
        requires
            seconds == unix_millis / 1000,
            millis == unix_millis % 1000,
            instant == unix_millis * 1_000_000,
    ;
    assert(((unix_millis / 1000) as i64) as int == seconds);
    assert(nanos_seconds(instant) == seconds);
    assert(instant % 1_000_000_000 == millis * 1_000_000);
    assert(0 <= year_of_nanos(instant) <= 9999) by {
        crate::processor::lemma_iso8601_utc_form(unix_millis);
    }
}

/// The fraction digits of a non-zero millisecond count: one to nine digits,
/// the last not a zero, worth the milliseconds in nanoseconds.
proof fn lemma_fraction_digits(millis: int)
    requires
        0 < millis < 1000,
    ensures
        ({
            let digits = trim_end_char(zero_pad(decimal((millis * 1_000_000) as nat), 9), '0');
            &&& 0 < digits.len() <= 9
            &&& digits.last() != '0'
            &&& digits_value(digits) * pow10((9 - digits.len()) as nat) == millis * 1_000_000
        }),
{
    let nanos = millis * 1_000_000;
    assert(pow10(9) == 1_000_000_000) by {
        reveal_with_fuel(pow10, 10);
    }
    lemma_zero_pad_value(nanos as nat, 9);
    let padded = zero_pad(decimal(nanos as nat), 9);
    lemma_trailing_zeros_value(padded);
    let digits = trim_end_char(padded, '0');
    if digits.len() == 0 {
        assert(digits_value(digits) == 0);
        assert(digits_value(digits) * pow10((9 - digits.len()) as nat) == 0);
    }
}

/// The RFC 3339 text of a time in the years `0 ..= 9999` given as seconds
/// and milliseconds: it reads back as that time, ends in `Z`, and has no
/// fraction for zero milliseconds, else a dot and digits with no trailing
/// zero.
proof fn lemma_rfc3339_text(seconds: int, millis: int)
    requires
        0 <= millis < 1000,
        0 <= civil_date(seconds / 86400).0 <= 9999,
    ensures
        ({
            let text = datetime_text(seconds) + rfc3339_fraction(millis * 1_000_000) + seq!['Z'];
            &&& rfc3339_nanos(text) == seconds * 1_000_000_000 + millis * 1_000_000
            &&& text.subrange(0, 19) == datetime_text(seconds)
            &&& text.last() == 'Z'
            &&& millis == 0 ==> text.len() == 20
            &&& millis != 0 ==> 21 < text.len() <= 30 && text[19] == '.' && text[text.len() - 2]
                != '0'
        }),
{
    let fraction = rfc3339_fraction(millis * 1_000_000);
    let tail = fraction + seq!['Z'];
    let text = datetime_text(seconds) + fraction + seq!['Z'];
    lemma_datetime_text(seconds, tail);
    assert(text =~= datetime_text(seconds) + tail);
    if millis == 0 {
        assert(fraction.len() == 0);
        assert(digits_value(Seq::<char>::empty()) == 0);
    } else {
        lemma_fraction_digits(millis);
        let digits = trim_end_char(zero_pad(decimal((millis * 1_000_000) as nat), 9), '0');
        assert(fraction == seq!['.'] + digits);
        assert(text.subrange(20, text.len() - 1) =~= digits);
        assert(text[19] == '.');
        assert(text[text.len() - 2] == digits.last());
    }
}

/// Before the year 10000, the RFC 3339 text of a millisecond timestamp reads
/// back as exactly that instant. It ends in `Z`; it has no fraction when the
/// milliseconds are zero, else a dot and digits with no trailing zero; and its
/// `YYYY-MM-DDTHH:MM:SS` is that of `format_iso8601_utc` for the same
/// timestamp.
pub proof fn lemma_rfc3339_round_trip(unix_millis: u128)
    requires
        unix_millis < 253_402_300_800_000,
    ensures
        rfc3339_nanos(rfc3339_of_millis(unix_millis)) == unix_millis * 1_000_000,
        rfc3339_of_millis(unix_millis).subrange(0, 19) == crate::processor::iso8601_utc(
            unix_millis,
        ).subrange(0, 19),
        rfc3339_of_millis(unix_millis).last() == 'Z',
        unix_millis % 1000 == 0 ==> rfc3339_of_millis(unix_millis).len() == 20,
        unix_millis % 1000 != 0 ==> ({
            let text = rfc3339_of_millis(unix_millis);
            &&& 21 < text.len() <= 30
            &&& text[19] == '.'
            &&& text[text.len() - 2] != '0'
        }),
{
    let seconds = (unix_millis / 1000) as int;
    let millis = (unix_millis % 1000) as int;
    lemma_millis_instant(unix_millis);
    crate::processor::lemma_iso8601_utc_form(unix_millis);
    lemma_rfc3339_text(seconds, millis);
    assert(rfc3339_of_millis(unix_millis) == datetime_text(seconds) + rfc3339_fraction(
        millis * 1_000_000,
    ) + seq!['Z']);
    let iso = crate::processor::iso8601_utc(unix_millis);
    let iso_rest = seq!['.'] + zero_pad(decimal(millis as nat), 3) + seq!['Z'];
    lemma_datetime_text(seconds, iso_rest);
    assert(iso =~= datetime_text(seconds) + iso_rest);
}

/// Milliseconds since the epoch from whole seconds and nanoseconds, as
/// `(seconds as u128) * 1000 + nanos / 1_000_000` computes them in a release
/// build (wrapping, which only happens for instants before 1970).
pub fn unix_millis_from_parts(unix_timestamp: i64, nanosecond: u32) -> (r: u128)
    ensures
        r == vstd::wrapping::u128_specs::wrapping_add(
            vstd::wrapping::u128_specs::wrapping_mul(unix_timestamp as u128, 1000),
            (nanosecond / 1_000_000) as u128,
        ),
        unix_timestamp >= 0 ==> r == unix_timestamp * 1000 + nanosecond / 1_000_000,
{
    let millis: u128 = (nanosecond / 1_000_000) as u128;
    let r = (unix_timestamp as u128).wrapping_mul(1000).wrapping_add(millis);
    proof {
        if unix_timestamp >= 0 {
            assert((unix_timestamp as u128) as int == unix_timestamp as int);
        }
    }
    r
}

/// What `unix_millis_from_parts` computes from whole seconds and
/// nanoseconds.
pub open spec fn millis_of_parts(unix_timestamp: i64, nanosecond: u32) -> u128 {
    vstd::wrapping::u128_specs::wrapping_add(
        vstd::wrapping::u128_specs::wrapping_mul(unix_timestamp as u128, 1000),
        (nanosecond / 1_000_000) as u128,
    )
}

/// The current time in milliseconds since the epoch: the milliseconds of
/// the clock's whole Unix seconds and its nanoseconds (below one second).
/// Which instant that is depends on the clock and is not stated.
pub fn now_unix_millis() -> (r: u128)
    ensures
        exists|unix_timestamp: i64, nanosecond: u32|
            nanosecond < 1_000_000_000 && r == #[trigger] millis_of_parts(unix_timestamp, nanosecond),
{
    let now: time::OffsetDateTime = time::OffsetDateTime::now_utc();
    let unix_timestamp: i64 = now.unix_timestamp();
    let nanosecond: u32 = now.nanosecond();
    let r = unix_millis_from_parts(unix_timestamp, nanosecond);
    assert(nanosecond < 1_000_000_000 && r == millis_of_parts(unix_timestamp, nanosecond));
    r
}

/// Timestamped metadata published on the metadata topic.
#[derive(Debug, Clone)]
pub struct MetadataMessage {
    pub device_id: String,
    pub device_type: String,
    pub stream_url: String,
    pub sequence: u64,
    pub unix_millis: u128,
    pub iso8601_utc: String,
    pub status: String,
}

/// Builds the metadata message of one tick: the device's id and type, the
/// stream URL, the sequence number, the timestamp in milliseconds and in
/// RFC 3339, and the status `live`.
pub fn build_metadata_message(
    config: &AppConfig,
    stream_url: &str,
    sequence: u64,
    unix_millis: u128,
) -> (r: MetadataMessage)
    ensures
        r.device_id@ == config.device.id@,
        r.device_type@ == device_type_name(config.device.device_type),
        r.stream_url@ == stream_url@,
        r.sequence == sequence,
        r.unix_millis == unix_millis,
        r.iso8601_utc@ == rfc3339_of_millis(unix_millis),
        r.status@ == seq!['l', 'i', 'v', 'e'],
{
    let iso8601_utc: String = format_unix_millis_rfc3339(unix_millis);
    proof {
        reveal_strlit("live");
    }
    MetadataMessage {
        device_id: config.device.id.clone(),
        device_type: String::from_str(config.device.device_type.as_str()),
        stream_url: String::from_str(stream_url),
        sequence,
        unix_millis,
        iso8601_utc,
        status: String::from_str("live"),
    }
}

} // verus!
