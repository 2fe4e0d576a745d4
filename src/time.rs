//! Calendar times as plain fields, their text renderings, and the clock.
use vstd::prelude::*;
use vstd::utf8::{decode_utf8, valid_utf8};
use chrono::{Datelike, TimeZone, Timelike};

verus! {

/// A calendar date and time of day, as read off a clock.
#[derive(Debug, Clone, Copy, PartialEq, Eq, Structural)]
pub struct CivilTime {
    pub year: i32,
    pub month: u8,
    pub day: u8,
    pub hour: u8,
    pub minute: u8,
    pub second: u8,
}

impl CivilTime {
    /// Fields in the ranges a four-digit-year rendering needs.
    pub open spec fn wf(&self) -> bool {
        &&& 0 <= self.year <= 9999
        &&& 1 <= self.month <= 12
        &&& 1 <= self.day <= 31
        &&& self.hour < 24
        &&& self.minute < 60
        &&& self.second < 60
    }

    /// Tests `wf`.
    pub fn is_valid(&self) -> (r: bool)
        ensures
            r == self.wf(),
    {
        0 <= self.year && self.year <= 9999 && 1 <= self.month && self.month <= 12 && 1 <= self.day
            && self.day <= 31 && self.hour < 24 && self.minute < 60 && self.second < 60
    }
}

/// ASCII digit of `d < 10`.
pub open spec fn digit(d: nat) -> u8 {
    (48 + d) as u8
}

/// Two decimal digits of `n < 100`.
pub open spec fn two_digits(n: nat) -> Seq<u8> {
    seq![digit(n / 10), digit(n % 10)]
}

/// Four decimal digits of `n < 10000`.
pub open spec fn four_digits(n: nat) -> Seq<u8> {
    two_digits(n / 100) + two_digits(n % 100)
}

/// `YYMMDDHHMMSSZ`, the text of an ASN.1 UTCTime.
pub open spec fn utc_time_text(t: CivilTime) -> Seq<u8> {
    two_digits((t.year % 100) as nat) + two_digits(t.month as nat) + two_digits(t.day as nat)
        + two_digits(t.hour as nat) + two_digits(t.minute as nat) + two_digits(t.second as nat)
        + seq![0x5Au8]
}

/// `D:YYYYMMDDHHMMSS`, a PDF date.
pub open spec fn pdf_date_text(t: CivilTime) -> Seq<u8> {
    seq![0x44u8, 0x3A] + four_digits(t.year as nat) + two_digits(t.month as nat) + two_digits(
        t.day as nat,
    ) + two_digits(t.hour as nat) + two_digits(t.minute as nat) + two_digits(t.second as nat)
}

/// `HH:MM:SS DD/MM/YYYY`, the signing time shown to users.
pub open spec fn signing_time_text(t: CivilTime) -> Seq<u8> {
    two_digits(t.hour as nat) + seq![0x3Au8] + two_digits(t.minute as nat) + seq![0x3Au8]
        + two_digits(t.second as nat) + seq![0x20u8] + two_digits(t.day as nat) + seq![0x2Fu8]
        + two_digits(t.month as nat) + seq![0x2Fu8] + four_digits(t.year as nat)
}

/// `YYYY-MM-DDTHH:MM:SSZ`.
pub open spec fn iso_text(t: CivilTime) -> Seq<u8> {
    four_digits(t.year as nat) + seq![0x2Du8] + two_digits(t.month as nat) + seq![0x2Du8]
        + two_digits(t.day as nat) + seq![0x54u8] + two_digits(t.hour as nat) + seq![0x3Au8]
        + two_digits(t.minute as nat) + seq![0x3Au8] + two_digits(t.second as nat) + seq![0x5Au8]
}

/// Appends the two digits of `n`.
pub fn push_two_digits(buf: &mut Vec<u8>, n: u8)
    requires
        n < 100,
    ensures
        final(buf)@ == old(buf)@ + two_digits(n as nat),
{
    buf.push(48 + n / 10);
    buf.push(48 + n % 10);
    assert(final(buf)@ =~= old(buf)@ + two_digits(n as nat));
}

/// Appends the four digits of `n`.
pub fn push_four_digits(buf: &mut Vec<u8>, n: u16)
    requires
        n < 10000,
    ensures
        final(buf)@ == old(buf)@ + four_digits(n as nat),
{
    push_two_digits(buf, (n / 100) as u8);
    push_two_digits(buf, (n % 100) as u8);
    assert(final(buf)@ =~= old(buf)@ + four_digits(n as nat));
}

/// The UTCTime text of `t`.
pub fn utc_time_bytes(t: &CivilTime) -> (r: Vec<u8>)
    requires
        t.wf(),
    ensures
        r@ == utc_time_text(*t),
{
    let mut r: Vec<u8> = Vec::new();
    push_two_digits(&mut r, (t.year % 100) as u8);
    push_two_digits(&mut r, t.month);
    push_two_digits(&mut r, t.day);
    push_two_digits(&mut r, t.hour);
    push_two_digits(&mut r, t.minute);
    push_two_digits(&mut r, t.second);
    r.push(0x5A);
    assert(r@ =~= utc_time_text(*t));
    r
}

/// The PDF date text of `t`.
pub fn pdf_date_bytes(t: &CivilTime) -> (r: Vec<u8>)
    requires
        t.wf(),
    ensures
        r@ == pdf_date_text(*t),
{
    let mut r: Vec<u8> = Vec::new();
    r.push(0x44);
    r.push(0x3A);
    push_four_digits(&mut r, t.year as u16);
    push_two_digits(&mut r, t.month);
    push_two_digits(&mut r, t.day);
    push_two_digits(&mut r, t.hour);
    push_two_digits(&mut r, t.minute);
    push_two_digits(&mut r, t.second);
    assert(r@ =~= pdf_date_text(*t));
    r
}

/// The user-facing signing time text of `t`.
pub fn signing_time_bytes(t: &CivilTime) -> (r: Vec<u8>)
    requires
        t.wf(),
    ensures
        r@ == signing_time_text(*t),
{
    let mut r: Vec<u8> = Vec::new();
    push_two_digits(&mut r, t.hour);
    r.push(0x3A);
    push_two_digits(&mut r, t.minute);
    r.push(0x3A);
    push_two_digits(&mut r, t.second);
    r.push(0x20);
    push_two_digits(&mut r, t.day);
    r.push(0x2F);
    push_two_digits(&mut r, t.month);
    r.push(0x2F);
    push_four_digits(&mut r, t.year as u16);
    assert(r@ =~= signing_time_text(*t));
    r
}

/// The `YYYY-MM-DDTHH:MM:SSZ` text of `t`.
pub fn iso_bytes(t: &CivilTime) -> (r: Vec<u8>)
    requires
        t.wf(),
    ensures
        r@ == iso_text(*t),
{
    let mut r: Vec<u8> = Vec::new();
    push_four_digits(&mut r, t.year as u16);
    r.push(0x2D);
    push_two_digits(&mut r, t.month);
    r.push(0x2D);
    push_two_digits(&mut r, t.day);
    r.push(0x54);
    push_two_digits(&mut r, t.hour);
    r.push(0x3A);
    push_two_digits(&mut r, t.minute);
    r.push(0x3A);
    push_two_digits(&mut r, t.second);
    r.push(0x5A);
    assert(r@ =~= iso_text(*t));
    r
}

/// Relies on `String::from_utf8`: it succeeds exactly on valid UTF-8 and
/// then holds the decoded characters.
#[verifier::external_body]
pub(crate) fn string_from_utf8(bytes: Vec<u8>) -> (r: Option<String>)
    ensures
        r is Some <==> valid_utf8(bytes@),
        r matches Some(s) ==> s@ == decode_utf8(bytes@),
{
    String::from_utf8(bytes).ok()
}

/// Turns ASCII text bytes into a `String`; bytes that are not valid UTF-8
/// give the empty string.
pub fn text_from_bytes(bytes: Vec<u8>) -> (r: String)
    ensures
        valid_utf8(bytes@) ==> r@ == decode_utf8(bytes@),
        !valid_utf8(bytes@) ==> r@.len() == 0,
{
    match string_from_utf8(bytes) {
        Some(s) => s,
        None => String::new(),
    }
}

/// The signing time shown to users, `HH:MM:SS DD/MM/YYYY`.
pub fn format_signing_time(t: &CivilTime) -> (r: String)
    requires
        t.wf(),
    ensures
        valid_utf8(signing_time_text(*t)) ==> r@ == decode_utf8(signing_time_text(*t)),
        !valid_utf8(signing_time_text(*t)) ==> r@.len() == 0,
{
    text_from_bytes(signing_time_bytes(t))
}

/// Relies on `chrono::Utc::now`: the current UTC time, split into fields
/// by chrono's `Datelike` and `Timelike` accessors.
#[verifier::external_body]
pub(crate) fn utc_now() -> (r: CivilTime)
    ensures
        1 <= r.month <= 12,
        1 <= r.day <= 31,
        r.hour < 24,
        r.minute < 60,
        r.second < 60,
{
    let n = chrono::Utc::now();
    CivilTime { year: n.year(), month: n.month() as u8, day: n.day() as u8, hour: n.hour() as u8, minute: n.minute() as u8, second: n.second() as u8 }
}

/// Relies on `chrono::Local::now`: the current local time, split into
/// fields by chrono's `Datelike` and `Timelike` accessors.
#[verifier::external_body]
pub(crate) fn local_now() -> (r: CivilTime)
    ensures
        1 <= r.month <= 12,
        1 <= r.day <= 31,
        r.hour < 24,
        r.minute < 60,
        r.second < 60,
{
    let n = chrono::Local::now();
    CivilTime { year: n.year(), month: n.month() as u8, day: n.day() as u8, hour: n.hour() as u8, minute: n.minute() as u8, second: n.second() as u8 }
}

/// The UTC calendar time of a Unix timestamp.
pub uninterp spec fn civil_of_timestamp(ts: int) -> Option<CivilTime>;

/// Relies on `chrono::Utc.timestamp_opt(ts, 0).single()`: the UTC calendar
/// time of a Unix timestamp, `None` when it is out of chrono's range.
#[verifier::external_body]
pub(crate) fn civil_from_timestamp(ts: i64) -> (r: Option<CivilTime>)
    ensures
        r == civil_of_timestamp(ts as int),
{
    chrono::Utc.timestamp_opt(ts, 0).single().map(|n| CivilTime { year: n.year(), month: n.month() as u8, day: n.day() as u8, hour: n.hour() as u8, minute: n.minute() as u8, second: n.second() as u8 })
}

/// The current local signing time, `HH:MM:SS DD/MM/YYYY`; empty when the
/// clock reads a year outside 0..=9999.
pub fn get_current_signing_time() -> (r: String)
    ensures
        r@.len() == 0 || exists|t: CivilTime| t.wf() && valid_utf8(signing_time_text(t))
            && #[trigger] decode_utf8(signing_time_text(t)) == r@,
{
    let now = local_now();
    if now.is_valid() {
        let r = format_signing_time(&now);
        assert(r@.len() == 0 || (now.wf() && valid_utf8(signing_time_text(now)) && decode_utf8(signing_time_text(now)) == r@));
        r
    } else {
        String::new()
    }
}

/// A Unix timestamp as `YYYY-MM-DDTHH:MM:SSZ` in UTC. A timestamp chrono
/// cannot place, or one outside years 0..=9999, renders the current time
/// instead; when that too is out of range the result is empty.
pub fn format_datetime(timestamp: i64) -> (r: String)
    ensures
        civil_of_timestamp(timestamp as int) matches Some(t) ==> (t.wf() && valid_utf8(iso_text(t))
            ==> r@ == decode_utf8(iso_text(t))),
{
    let t = match civil_from_timestamp(timestamp) {
        Some(t) => if t.is_valid() {
            t
        } else {
            utc_now()
        },
        None => utc_now(),
    };
    if t.is_valid() {
        text_from_bytes(iso_bytes(&t))
    } else {
        String::new()
    }
}

} // verus!
