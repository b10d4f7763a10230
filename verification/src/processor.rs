//! The metadata processor run as a WebAssembly module: it stamps incoming
//! metadata with an ISO 8601 UTC time computed from its Unix milliseconds.
use vstd::prelude::*;
use vstd::string::*;

use crate::calendar::{
    civil_date, civil_from_days, datetime_seconds, datetime_text, days_from_civil, div_euclid,
    lemma_civil_date_year_range, lemma_datetime_text,
};
use crate::text::{
    decimal, digits_value, lemma_zero_pad_value, pow10, push_signed_zero_padded, signed_zero_pad,
    zero_pad,
};

verus! {

/// Metadata handed to the processor.
pub struct ProcessorInput {
    pub device_id: String,
    pub stream_url: String,
    pub sequence: u64,
    pub unix_millis: u128,
}

/// Metadata the processor hands back.
pub struct ProcessorOutput {
    pub device_id: String,
    pub stream_url: String,
    pub sequence: u64,
    pub unix_millis: u128,
    pub iso8601_utc: String,
}

/// Whole seconds of a millisecond timestamp as the processor takes them:
/// `(unix_millis / 1000) as i64`, which wraps for values beyond `i64::MAX`.
pub open spec fn processor_seconds(unix_millis: u128) -> int {
    ((unix_millis / 1000) as i64) as int
}

/// `YYYY-MM-DDTHH:MM:SS.mmmZ` for the given fields, each written as
/// `format!` writes an `i64` with the `{:04}`, `{:02}` or `{:03}` flag.
pub open spec fn iso8601_fields(
    year: int,
    month: int,
    day: int,
    hour: int,
    minute: int,
    second: int,
    millis: int,
) -> Seq<char> {
    signed_zero_pad(year, 4) + seq!['-'] + signed_zero_pad(month, 2) + seq!['-']
        + signed_zero_pad(day, 2) + seq!['T'] + signed_zero_pad(hour, 2) + seq![':']
        + signed_zero_pad(minute, 2) + seq![':'] + signed_zero_pad(second, 2) + seq!['.']
        + signed_zero_pad(millis, 3) + seq!['Z']
}

/// The text `format_iso8601_utc` produces for a millisecond timestamp, with
/// the date taken from the given (year, month, day).
pub open spec fn iso8601_with_date(unix_millis: u128, date: (int, int, int)) -> Seq<char> {
    let seconds = processor_seconds(unix_millis);
    let secs_of_day = seconds % 86400;
    iso8601_fields(
        date.0,
        date.1,
        date.2,
        secs_of_day / 3600,
        (secs_of_day % 3600) / 60,
        secs_of_day % 60,
        (unix_millis % 1000) as int,
    )
}

/// The text `format_iso8601_utc` produces: the calendar date of the day
/// number of the seconds, then the time of day and the milliseconds.
pub open spec fn iso8601_utc(unix_millis: u128) -> Seq<char> {
    iso8601_with_date(unix_millis, civil_date(processor_seconds(unix_millis) / 86400))
}

/// The milliseconds since the epoch that a text `YYYY-MM-DDTHH:MM:SS.mmmZ`
/// names, reading each field at its fixed position.
pub open spec fn iso8601_millis(text: Seq<char>) -> int {
    datetime_seconds(text) * 1000 + digits_value(text.subrange(20, 23))
}

/// Before the year 10000, `format_iso8601_utc` writes 24 characters of the
/// form `YYYY-MM-DDTHH:MM:SS.mmmZ` with a year from 1970 on: the date and time
/// of day of the instant, then its milliseconds zero-padded to three digits;
/// read back, the text gives the instant.
pub proof fn lemma_iso8601_utc_form(unix_millis: u128)
    requires
        unix_millis < 253_402_300_800_000,
    ensures
        iso8601_utc(unix_millis).len() == 24,
        iso8601_utc(unix_millis) == datetime_text((unix_millis / 1000) as int) + seq!['.']
            + zero_pad(decimal((unix_millis % 1000) as nat), 3) + seq!['Z'],
        1970 <= civil_date((unix_millis / 1000) as int / 86400).0 <= 9999,
        iso8601_millis(iso8601_utc(unix_millis)) == unix_millis,
{
    let seconds = (unix_millis / 1000) as int;
    assert(processor_seconds(unix_millis) == seconds);
    let days = seconds / 86400;
    assert(days_from_civil(1970, 1, 1) == 0);
    assert(days_from_civil(10000, 1, 1) == 2932897);
    lemma_civil_date_year_range(days, 1970, 9999);
    let millis = (unix_millis % 1000) as nat;
    assert(pow10(3) == 1000) by {
        reveal_with_fuel(pow10, 4);
    }
    lemma_zero_pad_value(millis, 3);
    let fraction = seq!['.'] + zero_pad(decimal(millis), 3) + seq!['Z'];
    lemma_datetime_text(seconds, fraction);
    let text = datetime_text(seconds) + seq!['.'] + zero_pad(decimal(millis), 3) + seq!['Z'];
    assert(text =~= datetime_text(seconds) + fraction);
    crate::calendar::lemma_civil_date(days);
    let date = civil_date(days);
    let sod = seconds % 86400;
    assert(signed_zero_pad(date.0, 4) == zero_pad(decimal(date.0 as nat), 4));
    assert(signed_zero_pad(date.1, 2) == zero_pad(decimal(date.1 as nat), 2));
    assert(signed_zero_pad(date.2, 2) == zero_pad(decimal(date.2 as nat), 2));
    assert(signed_zero_pad(sod / 3600, 2) == zero_pad(decimal((sod / 3600) as nat), 2));
    assert(signed_zero_pad((sod % 3600) / 60, 2) == zero_pad(
        decimal(((sod % 3600) / 60) as nat),
        2,
    ));
    assert(signed_zero_pad(sod % 60, 2) == zero_pad(decimal((sod % 60) as nat), 2));
    assert(signed_zero_pad(millis as int, 3) == zero_pad(decimal(millis), 3));
    assert(iso8601_utc(unix_millis) =~= text);
    assert(text.subrange(20, 23) =~= zero_pad(decimal(millis), 3));
}

/// `i64::rem_euclid` for a positive divisor.
fn rem_euclid(a: i64, b: i64) -> (r: i64)
    requires
        b > 0,
    ensures
        r == a % b,
{
    assert(0 <= a % b < b);
    match a.checked_rem_euclid(b) {
        Some(r) => r,
        None => 0,
    }
}

/// Renders a Unix timestamp in milliseconds as `YYYY-MM-DDTHH:MM:SS.mmmZ`,
/// the date being the proleptic Gregorian date of the day.
pub fn format_iso8601_utc(unix_millis: u128) -> (r: String)
    ensures
        r@ == iso8601_utc(unix_millis),
{
    let seconds: i64 = (unix_millis / 1000) as i64;
    let millis: i64 = (unix_millis % 1000) as i64;
    let days: i64 = div_euclid(seconds, 86_400);
    let secs_of_day: i64 = rem_euclid(seconds, 86_400);
    assert(-106751991167301 <= days <= 106751991167300) by (nonlinear_arith)
        requires
            days == seconds as int / 86400,
            i64::MIN <= seconds <= i64::MAX,
    ;
    let (year, month, day) = civil_from_days(days);
    let hour: i64 = secs_of_day / 3600;
    let minute: i64 = (secs_of_day % 3600) / 60;
    let second: i64 = secs_of_day % 60;
    let mut out = String::new();
    proof {
        reveal_strlit("-");
        reveal_strlit("T");
        reveal_strlit(":");
        reveal_strlit(".");
        reveal_strlit("Z");
    }
    push_signed_zero_padded(&mut out, year, 4);
    out.append("-");
    push_signed_zero_padded(&mut out, month, 2);
    out.append("-");
    push_signed_zero_padded(&mut out, day, 2);
    out.append("T");
    push_signed_zero_padded(&mut out, hour, 2);
    out.append(":");
    push_signed_zero_padded(&mut out, minute, 2);
    out.append(":");
    push_signed_zero_padded(&mut out, second, 2);
    out.append(".");
    push_signed_zero_padded(&mut out, millis, 3);
    out.append("Z");
    proof {
        assert(out@ =~= iso8601_utc(unix_millis));
    }
    out
}

/// The processor's output for one input: the input's fields together with
/// the ISO 8601 rendering of its timestamp.
pub fn process_input(input: ProcessorInput) -> (r: ProcessorOutput)
    ensures
        r.device_id == input.device_id,
        r.stream_url == input.stream_url,
        r.sequence == input.sequence,
        r.unix_millis == input.unix_millis,
        r.iso8601_utc@ == iso8601_utc(input.unix_millis),
{
    let iso8601_utc = format_iso8601_utc(input.unix_millis);
    ProcessorOutput {
        device_id: input.device_id,
        stream_url: input.stream_url,
        sequence: input.sequence,
        unix_millis: input.unix_millis,
        iso8601_utc,
    }
}

/// Why the processor's entry point gave up on a request.
#[derive(Debug, Clone, Copy, PartialEq, Eq, Structural)]
pub enum ProcessError {
    /// One of the pointers handed in was null.
    NullPointer,
    /// The input bytes are not UTF-8.
    InvalidUtf8,
    /// The input is not the JSON of a `ProcessorInput`.
    InvalidJson,
    /// The output could not be encoded as JSON.
    EncodeFailed,
}

impl ProcessError {
    /// The status code the entry point returns for this error
    /// (`0` is success).
    pub fn code(self) -> (c: i32)
        ensures
            c == match self {
                ProcessError::NullPointer => -1int,
                ProcessError::InvalidUtf8 => -2int,
                ProcessError::InvalidJson => -3int,
                ProcessError::EncodeFailed => -4int,
            },
    {
        match self {
            ProcessError::NullPointer => -1,
            ProcessError::InvalidUtf8 => -2,
            ProcessError::InvalidJson => -3,
            ProcessError::EncodeFailed => -4,
        }
    }
}

/// The capacity of the buffer that `alloc(len)` reserves: none for a
/// length that is not positive.
pub fn alloc_capacity(len: i32) -> (r: Option<usize>)
    ensures
        len <= 0 ==> r is None,
        len > 0 ==> r == Some(len as usize),
{
    if len <= 0 {
        None
    } else {
        Some(len as usize)
    }
}

/// Whether `free_ptr` releases a buffer: only a non-null one of non-zero
/// length.
pub fn frees_buffer(is_null: bool, len: usize) -> (r: bool)
    ensures
        r == (!is_null && len != 0),
{
    !(is_null || len == 0)
}

} // verus!
