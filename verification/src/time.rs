//! Decoding of the service's millisecond timestamps into local times of day.
//!
//! The service encodes a moment as milliseconds that are naive of any zone. A local
//! clock reading is obtained by adding the offset of the rail network's home time
//! zone and reducing the seconds modulo one day.

use vstd::prelude::*;
use chrono::{Local, NaiveTime, Offset, TimeZone, Timelike};
use chrono_tz::Europe::Rome;
use crate::error::TrainError;
use crate::text::digit_char;

verus! {

/// A local time of day with second resolution.
///
/// Its view is the number of seconds since local midnight, always below 86 400.
#[derive(Clone, Copy, Debug, PartialEq, Eq, Structural)]
pub struct TimeOfDay {
    hour: u32,
    minute: u32,
    second: u32,
}

impl View for TimeOfDay {
    type V = int;

    closed spec fn view(&self) -> int {
        self.hour * 3600 + self.minute * 60 + self.second
    }
}

impl DeepView for TimeOfDay {
    type V = int;

    open spec fn deep_view(&self) -> int {
        self@
    }
}

/// The local second of the day that a raw timestamp stands for under an offset.
pub open spec fn local_seconds(raw_ms: int, offset_seconds: int) -> int {
    (raw_ms / 1000 + offset_seconds) % 86_400
}

/// The raw timestamp moved forward by a delay in minutes (backward when negative).
pub open spec fn shifted_ms(raw_ms: int, delay_minutes: int) -> int {
    raw_ms + delay_minutes * 60_000
}

/// What decoding gives: nothing for an absent timestamp, else its local second of the day.
pub open spec fn decode_spec(raw_ms: Option<u64>, offset_seconds: int) -> Option<int> {
    match raw_ms {
        None => None,
        Some(t) => Some(local_seconds(t as int, offset_seconds)),
    }
}

/// What delay-adjusted estimation gives. A timestamp that the delay moves before
/// the zero of the encoding stands for no clock reading.
pub open spec fn estimate_spec(raw_ms: Option<u64>, delay_minutes: int, offset_seconds: int)
    -> Result<Option<int>, TrainError> {
    match raw_ms {
        None => Ok(None),
        Some(t) => if shifted_ms(t as int, delay_minutes) < 0 {
            Err(TrainError::MalformedTimestamp)
        } else {
            Ok(Some(local_seconds(shifted_ms(t as int, delay_minutes), offset_seconds)))
        },
    }
}

/// A decoding result with the time replaced by its second of the day.
pub open spec fn time_result_view(r: Result<Option<TimeOfDay>, TrainError>) -> Result<Option<int>, TrainError> {
    match r {
        Ok(t) => Ok(t.deep_view()),
        Err(e) => Err(e),
    }
}

/// The milliseconds within one day that a local second stands for once the offset
/// is taken out again.
pub open spec fn encode_spec(seconds: int, offset_seconds: int) -> int {
    ((seconds - offset_seconds) % 86_400) * 1000
}

/// The text `HH:MM` of an hour and a minute, each padded with a zero to two digits.
pub open spec fn hhmm_text(hour: int, minute: int) -> Seq<char> {
    seq![
        digit_char(hour / 10),
        digit_char(hour % 10),
        ':',
        digit_char(minute / 10),
        digit_char(minute % 10),
    ]
}

/// The text shown for a time that may be absent: `HH:MM`, or `--:--`.
pub open spec fn time_text(seconds: Option<int>) -> Seq<char> {
    match seconds {
        Some(s) => hhmm_text(s / 3600, (s / 60) % 60),
        None => seq!['-', '-', ':', '-', '-'],
    }
}

/// Calls `chrono::NaiveTime::from_num_seconds_from_midnight_opt` with zero nanoseconds
/// and reads the hour, minute and second of the time it makes. Chrono accepts exactly
/// the seconds below 86 400 and splits them into 3600s, 60s and a rest.
#[verifier::external_body]
fn clock_fields(secs: u32) -> (r: Option<(u32, u32, u32)>)
    ensures
        secs < 86_400 ==> r == Some((secs / 3600, (secs / 60) % 60, secs % 60)),
        secs >= 86_400 ==> r is None,
{
    NaiveTime::from_num_seconds_from_midnight_opt(secs, 0).map(
        |t| (t.hour(), t.minute(), t.second()),
    )
}

/// Calls `chrono::NaiveTime::from_hms_opt` and formats the time with `%H:%M`. Chrono
/// accepts an hour below 24 with a minute and a second below 60, and writes the hour
/// and the minute zero-padded to two digits with a colon between them.
#[verifier::external_body]
fn clock_text(hour: u32, minute: u32, second: u32) -> (r: Option<String>)
    ensures
        hour < 24 && minute < 60 && second < 60 ==> r is Some,
        !(hour < 24 && minute < 60 && second < 60) ==> r is None,
        r matches Some(s) ==> s@ == hhmm_text(hour as int, minute as int),
{
    NaiveTime::from_hms_opt(hour, minute, second).map(|t| t.format("%H:%M").to_string())
}

/// Reads the clock and asks `chrono_tz::Europe::Rome` for the offset from UTC that is
/// in force at that moment, in seconds east of Greenwich. Chrono keeps every fixed
/// offset strictly within one day.
#[verifier::external_body]
pub(crate) fn rome_offset_seconds() -> (r: i32)
    ensures
        -86_400 < r < 86_400,
{
    Rome.offset_from_utc_datetime(&Local::now().naive_utc()).fix().local_minus_utc()
}

/// Two numbers a whole number of days apart fall on the same second of the day.
proof fn lemma_same_second(a: int, b: int, days: int)
    requires
        a == b + 86_400 * days,
    ensures
        a % 86_400 == b % 86_400,
{
    vstd::arithmetic::div_mod::lemma_mod_multiples_vanish(days, b, 86_400);
}

/// A number is a whole number of days above its second of the day.
proof fn lemma_day_split(a: int)
    ensures
        a == 86_400 * (a / 86_400) + a % 86_400,
        0 <= a % 86_400 < 86_400,
{
    vstd::arithmetic::div_mod::lemma_fundamental_div_mod(a, 86_400);
    vstd::arithmetic::div_mod::lemma_mod_bound(a, 86_400);
}

/// Hour, minute and second are the digits of the second of the day in the mixed
/// base of the clock.
proof fn lemma_clock_digits(hour: int, minute: int, second: int)
    requires
        0 <= hour < 24,
        0 <= minute < 60,
        0 <= second < 60,
    ensures
        0 <= hour * 3600 + minute * 60 + second < 86_400,
        (hour * 3600 + minute * 60 + second) / 3600 == hour,
        ((hour * 3600 + minute * 60 + second) / 60) % 60 == minute,
        (hour * 3600 + minute * 60 + second) / 60 == hour * 60 + minute,
        (hour * 3600 + minute * 60 + second) % 60 == second,
{
    let x = hour * 3600 + minute * 60 + second;
    vstd::arithmetic::div_mod::lemma_fundamental_div_mod_converse(x, 3600, hour, minute * 60 + second);
    vstd::arithmetic::div_mod::lemma_fundamental_div_mod_converse(x, 60, hour * 60 + minute, second);
    vstd::arithmetic::div_mod::lemma_fundamental_div_mod_converse(hour * 60 + minute, 60, hour, minute);
}

impl TimeOfDay {
    #[verifier::type_invariant]
    closed spec fn in_range(self) -> bool {
        self.hour < 24 && self.minute < 60 && self.second < 60
    }

    /// The time of day at a given hour, minute and second, if the clock has one.
    pub fn from_hms(hour: u32, minute: u32, second: u32) -> (r: Option<TimeOfDay>)
        ensures
            hour < 24 && minute < 60 && second < 60 ==> r is Some,
            r matches Some(t) ==> t@ == hour * 3600 + minute * 60 + second,
            !(hour < 24 && minute < 60 && second < 60) ==> r is None,
    {
        if hour < 24 && minute < 60 && second < 60 {
            Some(TimeOfDay { hour, minute, second })
        } else {
            None
        }
    }

    /// The time of day a number of seconds after midnight.
    pub fn from_seconds(secs: u32) -> (r: Result<TimeOfDay, TrainError>)
        ensures
            secs < 86_400 ==> (r matches Ok(t) && t@ == secs),
            secs >= 86_400 ==> r == Err::<TimeOfDay, TrainError>(TrainError::MalformedTimestamp),
    {
        match clock_fields(secs) {
            Some((hour, minute, second)) => Ok(TimeOfDay { hour, minute, second }),
            None => Err(TrainError::MalformedTimestamp),
        }
    }

    /// The hour of the day.
    pub fn hour(&self) -> (h: u32)
        ensures
            h == self@ / 3600,
            h < 24,
    {
        proof {
            use_type_invariant(self);
            lemma_clock_digits(self.hour as int, self.minute as int, self.second as int);
        }
        self.hour
    }

    /// The minute of the hour.
    pub fn minute(&self) -> (m: u32)
        ensures
            m == (self@ / 60) % 60,
            m < 60,
    {
        proof {
            use_type_invariant(self);
            lemma_clock_digits(self.hour as int, self.minute as int, self.second as int);
        }
        self.minute
    }

    /// The second of the minute.
    pub fn second(&self) -> (s: u32)
        ensures
            s == self@ % 60,
            s < 60,
    {
        proof {
            use_type_invariant(self);
            lemma_clock_digits(self.hour as int, self.minute as int, self.second as int);
        }
        self.second
    }

    /// Seconds since midnight.
    pub fn seconds_from_midnight(&self) -> (s: u32)
        ensures
            s == self@,
            s < 86_400,
    {
        proof {
            use_type_invariant(self);
            lemma_clock_digits(self.hour as int, self.minute as int, self.second as int);
        }
        self.hour * 3600 + self.minute * 60 + self.second
    }

    /// Whole minutes since midnight, the unit of a diagram's time axis.
    pub fn minutes_from_midnight(&self) -> (m: u32)
        ensures
            m == self@ / 60,
            m < 1440,
    {
        proof {
            use_type_invariant(self);
            lemma_clock_digits(self.hour as int, self.minute as int, self.second as int);
        }
        self.hour * 60 + self.minute
    }

    /// The time as `HH:MM`.
    pub fn format_hhmm(&self) -> (text: String)
        ensures
            text@ == time_text(Some(self@)),
    {
        proof {
            use_type_invariant(self);
            lemma_clock_digits(self.hour as int, self.minute as int, self.second as int);
        }
        match clock_text(self.hour, self.minute, self.second) {
            Some(text) => text,
            None => dashes(),
        }
    }
}

fn dashes() -> (text: String)
    ensures
        text@ == time_text(None),
{
    let text = "--:--";
    proof {
        reveal_strlit("--:--");
    }
    String::from_str(text)
}

/// The second of the day of a count of milliseconds under an offset.
fn second_of_day(ms: u128, offset_seconds: i32) -> (s: u32)
    ensures
        s == local_seconds(ms as int, offset_seconds as int),
        s < 86_400,
{
    let base: u128 = (ms / 1000) % 86_400;
    // 24 856 days exceed every negative offset that fits 32 bits.
    let lifted: i64 = base as i64 + offset_seconds as i64 + 86_400 * 24_856;
    let s: i64 = lifted % 86_400;
    proof {
        let q = ms as int / 1000;
        lemma_day_split(q);
        lemma_same_second(lifted as int, q + offset_seconds, 24_856 - q / 86_400);
    }
    s as u32
}

/// Decodes a raw timestamp into the local time of day under a zone offset.
///
/// An absent timestamp decodes to an absent time. Every timestamp that is present
/// has a clock reading, so no input fails.
pub fn decode(raw_ms: Option<u64>, offset_seconds: i32) -> (r: Result<Option<TimeOfDay>, TrainError>)
    ensures
        time_result_view(r) == Ok::<Option<int>, TrainError>(decode_spec(raw_ms, offset_seconds as int)),
{
    match raw_ms {
        None => Ok(None),
        Some(t) => {
            let s = second_of_day(t as u128, offset_seconds);
            match TimeOfDay::from_seconds(s) {
                Ok(time) => Ok(Some(time)),
                Err(e) => Err(e),
            }
        },
    }
}

/// Projects a scheduled timestamp forward by the reported delay and decodes it.
///
/// The delay is added to the raw value before it is decoded, so that a delay that
/// crosses midnight rolls over exactly as a later timestamp would.
pub fn estimate_with_delay(raw_ms: Option<u64>, delay_minutes: i64, offset_seconds: i32) -> (r:
    Result<Option<TimeOfDay>, TrainError>)
    ensures
        time_result_view(r) == estimate_spec(raw_ms, delay_minutes as int, offset_seconds as int),
{
    match raw_ms {
        None => Ok(None),
        Some(t) => {
            let shifted: i128 = t as i128 + delay_minutes as i128 * 60_000;
            if shifted < 0 {
                Err(TrainError::MalformedTimestamp)
            } else {
                let s = second_of_day(shifted as u128, offset_seconds);
                match TimeOfDay::from_seconds(s) {
                    Ok(time) => Ok(Some(time)),
                    Err(e) => Err(e),
                }
            }
        },
    }
}

/// Takes the offset out of a local time again: the milliseconds within one day that
/// decode to it.
pub fn encode(time: TimeOfDay, offset_seconds: i32) -> (ms: u64)
    ensures
        ms == encode_spec(time@, offset_seconds as int),
        ms < 86_400_000,
{
    let s = time.seconds_from_midnight();
    let lifted: i64 = s as i64 - offset_seconds as i64 + 86_400 * 24_856;
    let back: i64 = lifted % 86_400;
    proof {
        lemma_same_second(lifted as int, time@ - offset_seconds, 24_856);
        lemma_day_split(time@ - offset_seconds);
    }
    back as u64 * 1000
}

/// The text of a time that may be absent: `HH:MM`, or `--:--`.
pub fn format_optional(time: Option<TimeOfDay>) -> (text: String)
    ensures
        text@ == time_text(time.deep_view()),
{
    match time {
        Some(t) => t.format_hhmm(),
        None => dashes(),
    }
}

/// The text of a raw timestamp under an offset: its local time as `HH:MM`, or `--:--`
/// where it is absent.
pub fn format_time(raw_ms: Option<u64>, offset_seconds: i32) -> (text: String)
    ensures
        text@ == time_text(decode_spec(raw_ms, offset_seconds as int)),
{
    match decode(raw_ms, offset_seconds) {
        Ok(time) => format_optional(time),
        Err(_) => dashes(),
    }
}

/// The text of what estimation gives.
pub open spec fn estimated_text_spec(raw_ms: Option<u64>, delay_minutes: int, offset_seconds: int) -> Result<Seq<char>, TrainError> {
    match estimate_spec(raw_ms, delay_minutes, offset_seconds) {
        Ok(seconds) => Ok(time_text(seconds)),
        Err(e) => Err(e),
    }
}

pub open spec fn text_result_view(r: Result<String, TrainError>) -> Result<Seq<char>, TrainError> {
    match r {
        Ok(text) => Ok(text@),
        Err(e) => Err(e),
    }
}

/// The text of a scheduled timestamp moved by a delay: the estimated local time as
/// `HH:MM`, or `--:--` where the timestamp is absent.
pub fn format_estimated_time(raw_ms: Option<u64>, delay_minutes: i64, offset_seconds: i32) -> (r: Result<String, TrainError>)
    ensures
        text_result_view(r) == estimated_text_spec(raw_ms, delay_minutes as int, offset_seconds as int),
{
    match estimate_with_delay(raw_ms, delay_minutes, offset_seconds) {
        Ok(time) => Ok(format_optional(time)),
        Err(e) => Err(e),
    }
}

/// Decodes a raw timestamp under the offset that the home time zone has now.
///
/// The offset is read at the time of the call, so the contract holds for whichever
/// offset was in force.
pub fn parse_time(raw_ms: Option<u64>) -> (r: Result<Option<TimeOfDay>, TrainError>)
    ensures
        exists|offset: int|
            #![trigger decode_spec(raw_ms, offset)]
            -86_400 < offset < 86_400 && time_result_view(r) == Ok::<Option<int>, TrainError>(decode_spec(raw_ms, offset)),
{
    let offset = rome_offset_seconds();
    let r = decode(raw_ms, offset);
    r
}

/// Decoding a timestamp and taking the offset out again recovers the timestamp within
/// its day, up to the milliseconds that second resolution drops.
pub proof fn lemma_encode_inverts_decode(raw_ms: u64, offset_seconds: int)
    ensures
        encode_spec(local_seconds(raw_ms as int, offset_seconds), offset_seconds) == raw_ms
            % 86_400_000 - raw_ms % 1000,
        encode_spec(local_seconds(raw_ms as int, offset_seconds), offset_seconds) / 1000 == (raw_ms
            % 86_400_000) / 1000,
{
    let t = raw_ms as int;
    let q = t / 1000;
    let r = t % 1000;
    let local = local_seconds(t, offset_seconds);
    lemma_day_split(q + offset_seconds);
    lemma_same_second(local - offset_seconds, q, -((q + offset_seconds) / 86_400));
    lemma_day_split(q);
    let b = q % 86_400;
    assert(t == 1000 * q + r && 0 <= r < 1000) by {
        vstd::arithmetic::div_mod::lemma_fundamental_div_mod(t, 1000);
        vstd::arithmetic::div_mod::lemma_mod_bound(t, 1000);
    }
    assert(t % 86_400_000 == 1000 * b + r) by {
        vstd::arithmetic::div_mod::lemma_fundamental_div_mod_converse_mod(t, 86_400_000, q / 86_400, 1000 * b + r);
    }
    assert((1000 * b + r) / 1000 == b) by {
        vstd::arithmetic::div_mod::lemma_div_multiples_vanish_fancy(b, r, 1000);
    }
}

/// With a delay of zero minutes, estimation gives what plain decoding gives.
pub proof fn lemma_zero_delay_is_plain_decoding(raw_ms: Option<u64>, offset_seconds: int)
    ensures
        estimate_spec(raw_ms, 0, offset_seconds) == Ok::<Option<int>, TrainError>(
            decode_spec(raw_ms, offset_seconds),
        ),
{
}

/// A delay moves the decoded time by that many minutes around the clock: later when
/// positive, earlier when negative.
pub proof fn lemma_delay_shifts_clock(raw_ms: u64, delay_minutes: int, offset_seconds: int)
    requires
        shifted_ms(raw_ms as int, delay_minutes) >= 0,
    ensures
        local_seconds(shifted_ms(raw_ms as int, delay_minutes), offset_seconds) == (local_seconds(
            raw_ms as int,
            offset_seconds,
        ) + 60 * delay_minutes) % 86_400,
{
    let t = raw_ms as int;
    let q = t / 1000;
    let r = t % 1000;
    assert(t == 1000 * q + r && 0 <= r < 1000) by {
        vstd::arithmetic::div_mod::lemma_fundamental_div_mod(t, 1000);
        vstd::arithmetic::div_mod::lemma_mod_bound(t, 1000);
    }
    assert(shifted_ms(t, delay_minutes) / 1000 == q + 60 * delay_minutes) by {
        vstd::arithmetic::div_mod::lemma_fundamental_div_mod_converse_div(shifted_ms(t, delay_minutes), 1000, q + 60 * delay_minutes, r);
    }
    lemma_day_split(q + offset_seconds);
    lemma_same_second(q + 60 * delay_minutes + offset_seconds, local_seconds(t, offset_seconds) + 60 * delay_minutes, (q + offset_seconds) / 86_400);
}

} // verus!
