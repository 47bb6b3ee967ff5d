//! Provide some info about the currently running instance of the bot.

use crate::command::{Response, ResponseView};
use vstd::prelude::*;

verus! {

/// The version of the bot.
pub const VERSION: &'static str = "0.2.1";

/// The homepage of the bot.
pub const HOMEPAGE: &'static str = "https://github.com/nerosnm/hatysa";

/// The largest distance in seconds from the Unix epoch that a [`Timestamp`]
/// can lie at: two to the power 43, beyond every date that a calendar of
/// years from -262143 to 262142 can name.
pub const MAX_TIMESTAMP_SECS: i64 = 0x800_0000_0000;

/// The nanoseconds in a second.
pub const NANOS_PER_SEC: u32 = 1_000_000_000;

/// An instant: whole seconds since the Unix epoch and the nanoseconds since
/// the last whole second.
#[derive(Debug, Clone, Copy, PartialEq, Eq)]
pub struct Timestamp {
    secs: i64,
    nanos: u32,
}

impl Timestamp {
    /// Every instant lies within [`MAX_TIMESTAMP_SECS`] of the epoch, and its
    /// nanoseconds stay below a full second.
    #[verifier::type_invariant]
    pub closed spec fn in_range(self) -> bool {
        &&& -MAX_TIMESTAMP_SECS <= self.secs <= MAX_TIMESTAMP_SECS
        &&& self.nanos < NANOS_PER_SEC
    }

    /// The whole seconds since the epoch.
    pub closed spec fn seconds(self) -> int {
        self.secs as int
    }

    /// The nanoseconds since the last whole second.
    pub closed spec fn nanoseconds(self) -> int {
        self.nanos as int
    }

    /// The nanoseconds since the epoch.
    pub open spec fn total_nanos(self) -> int {
        self.seconds() * 1_000_000_000 + self.nanoseconds()
    }

    /// The instant `secs` seconds and `nanos` nanoseconds after the epoch, if
    /// the seconds lie within [`MAX_TIMESTAMP_SECS`] of it and the
    /// nanoseconds are less than a second.
    pub fn new(secs: i64, nanos: u32) -> (instant: Option<Timestamp>)
        ensures
            instant is Some <==> (-MAX_TIMESTAMP_SECS <= secs <= MAX_TIMESTAMP_SECS && nanos
                < NANOS_PER_SEC),
            instant matches Some(t) ==> t.seconds() == secs && t.nanoseconds() == nanos,
    {
        if -MAX_TIMESTAMP_SECS <= secs && secs <= MAX_TIMESTAMP_SECS && nanos < NANOS_PER_SEC {
            Some(Timestamp { secs, nanos })
        } else {
            None
        }
    }

    /// The whole seconds since the epoch.
    pub fn secs(&self) -> (secs: i64)
        ensures
            secs == self.seconds(),
            -MAX_TIMESTAMP_SECS <= secs <= MAX_TIMESTAMP_SECS,
    {
        proof {
            use_type_invariant(self);
        }
        self.secs
    }

    /// The nanoseconds since the last whole second.
    pub fn subsec_nanos(&self) -> (nanos: u32)
        ensures
            nanos == self.nanoseconds(),
            nanos < NANOS_PER_SEC,
    {
        proof {
            use_type_invariant(self);
        }
        self.nanos
    }
}

/// A count of nanoseconds in whole seconds, rounded towards zero.
pub open spec fn whole_seconds(nanos: int) -> int {
    if nanos >= 0 {
        nanos / 1_000_000_000
    } else {
        -((-nanos) / 1_000_000_000)
    }
}

/// The whole seconds that pass from `start` to `now`, rounded towards zero;
/// negative where `now` lies before `start`.
pub open spec fn elapsed_seconds(start: Timestamp, now: Timestamp) -> int {
    whole_seconds(now.total_nanos() - start.total_nanos())
}

/// A count of seconds that is not negative, in days, hours, minutes and
/// seconds: the whole days in it, the whole hours in what is left after the
/// days, the whole minutes in what is left after the hours, and the seconds
/// left over.
pub open spec fn split_seconds(total: int) -> (int, int, int, int) {
    let days = total / 86_400;
    let after_days = total - days * 86_400;
    let hours = after_days / 3_600;
    let after_hours = after_days - hours * 3_600;
    let minutes = after_hours / 60;
    let seconds = after_hours - minutes * 60;
    (days, hours, minutes, seconds)
}

/// An uptime of `total` seconds as `(days, hours, minutes, seconds)`. A
/// count that is not negative is split by [`split_seconds`]. An uptime is
/// never negative: where the count is, because the clock shows an instant
/// before the start, every part is zero.
pub open spec fn uptime_parts(total: int) -> (int, int, int, int) {
    if total >= 0 {
        split_seconds(total)
    } else {
        (0, 0, 0, 0)
    }
}

/// No part of an uptime is negative; hours stay below 24, minutes and
/// seconds below 60; and the parts of a count that is not negative add up
/// to the count.
pub proof fn lemma_uptime_parts(total: int)
    ensures
        ({
            let (days, hours, minutes, seconds) = uptime_parts(total);
            &&& 0 <= days && 0 <= hours < 24 && 0 <= minutes < 60 && 0 <= seconds < 60
            &&& total >= 0 ==> days * 86_400 + hours * 3_600 + minutes * 60 + seconds == total
        }),
{
}

/// The info response for an uptime of `elapsed` seconds.
pub open spec fn info_view(elapsed: int) -> ResponseView {
    let (days, hours, minutes, seconds) = uptime_parts(elapsed);
    ResponseView::Info {
        version: VERSION@,
        uptime: (days as i64, hours as i64, minutes as i64, seconds as i64),
        homepage: HOMEPAGE@,
    }
}

/// Whether `response` is the info response at some instant for a bot that
/// started at `start_time`.
pub open spec fn is_info_since(start_time: Timestamp, response: ResponseView) -> bool {
    exists|now: Timestamp| #[trigger] info_view(elapsed_seconds(start_time, now)) == response
}

/// An uptime of `total` seconds as `(days, hours, minutes, seconds)`.
pub fn uptime(total: i64) -> (parts: (i64, i64, i64, i64))
    ensures
        (parts.0 as int, parts.1 as int, parts.2 as int, parts.3 as int) == uptime_parts(
            total as int,
        ),
{
    if total < 0 {
        return (0, 0, 0, 0);
    }
    let days: i64 = total / 86_400;
    let after_days: i64 = total - days * 86_400;
    let hours: i64 = after_days / 3_600;
    let after_hours: i64 = after_days - hours * 3_600;
    let minutes: i64 = after_hours / 60;
    let seconds: i64 = after_hours - minutes * 60;
    (days, hours, minutes, seconds)
}

/// The whole seconds that pass from `start` to `now`, rounded towards zero.
pub fn seconds_between(start: Timestamp, now: Timestamp) -> (elapsed: i64)
    ensures
        elapsed == elapsed_seconds(start, now),
        -2 * MAX_TIMESTAMP_SECS <= elapsed <= 2 * MAX_TIMESTAMP_SECS,
{
    let secs: i64 = now.secs() - start.secs();
    let nanos: i64 = now.subsec_nanos() as i64 - start.subsec_nanos() as i64;
    assert(now.total_nanos() - start.total_nanos() == secs * 1_000_000_000 + nanos);
    if secs > 0 && nanos < 0 {
        secs - 1
    } else if secs < 0 && nanos > 0 {
        secs + 1
    } else {
        secs
    }
}

/// The info response at the instant `now` for a bot that started at
/// `start_time`.
pub fn info_at(start_time: Timestamp, now: Timestamp) -> (response: Response)
    ensures
        response@ == info_view(elapsed_seconds(start_time, now)),
{
    let elapsed = seconds_between(start_time, now);
    Response::Info {
        version: VERSION.to_string(),
        uptime: uptime(elapsed),
        homepage: HOMEPAGE.to_string(),
    }
}

/// The reading of the system clock: the seconds since the Unix epoch and
/// the nanoseconds since the last whole second. `chrono::Utc::now` builds
/// its instant from a count of seconds that is not negative and a count of
/// nanoseconds below a second, and gives none that lies outside chrono's
/// range of dates, which ends before [`MAX_TIMESTAMP_SECS`]; `timestamp` and
/// `timestamp_subsec_nanos` hand the two counts back. Which instant it is,
/// the clock decides.
#[verifier::external_body]
fn read_clock() -> (reading: (i64, u32))
    ensures
        0 <= reading.0 <= MAX_TIMESTAMP_SECS,
        reading.1 < NANOS_PER_SEC,
{
    let now = chrono::Utc::now();
    (now.timestamp(), now.timestamp_subsec_nanos())
}

/// The current instant: the one that the clock reads. Which one that is,
/// the clock decides; whichever it is, it does not lie before the Unix
/// epoch.
fn current_time() -> (now: Timestamp)
    ensures
        0 <= now.seconds() <= MAX_TIMESTAMP_SECS,
        0 <= now.nanoseconds() < NANOS_PER_SEC,
        now.total_nanos() >= 0,
{
    let (secs, nanos) = read_clock();
    match Timestamp::new(secs, nanos) {
        Some(now) => now,
        None => Timestamp { secs: 0, nanos: 0 },
    }
}

/// Runs the info command for a bot that started at `start_time`: the
/// response holds the version, the homepage and the uptime at some instant,
/// the one that the clock shows when the command runs.
pub fn info(start_time: Timestamp) -> (response: Response)
    ensures
        is_info_since(start_time, response@),
{
    let now = current_time();
    info_at(start_time, now)
}

} // verus!
