//! Countdown toward the selected journey's departure.
//!
//! Monotonic instants and durations are whole milliseconds; wall-clock
//! instants are whole seconds since the Unix epoch.
use vstd::prelude::*;
use crate::chars::string_from_chars;

verus! {

/// Milliseconds in one blink phase of a countdown that has reached zero.
pub const BLINK_PERIOD_MS: u64 = 500;

/// A countdown started at `start` (monotonic, ms) running for `duration` ms.
#[derive(Clone, Copy, Debug, PartialEq, Eq, Structural)]
pub struct TimerState {
    pub start: u64,
    pub duration: u64,
    pub notified: bool,
    pub zero_at: Option<u64>,
}

/// Time left of a countdown of `duration` after `elapsed`, clamped at zero.
pub open spec fn remaining_spec(duration: u64, elapsed: u64) -> u64 {
    if elapsed >= duration {
        0
    } else {
        (duration - elapsed) as u64
    }
}

/// Milliseconds from wall-clock second `now` until `dep`, or zero if `dep`
/// is not later; saturated at the largest `u64`.
pub open spec fn countdown_ms(dep: i64, now: i64) -> u64 {
    if dep <= now {
        0
    } else if (dep - now) * 1000 > u64::MAX {
        u64::MAX
    } else {
        ((dep - now) * 1000) as u64
    }
}

/// A fresh countdown toward `dep`, started at monotonic `now_ms` when the
/// wall clock reads `now`.
pub open spec fn timer_toward(dep: i64, now: i64, now_ms: u64) -> TimerState {
    TimerState { start: now_ms, duration: countdown_ms(dep, now), notified: false, zero_at: None }
}

/// Milliseconds elapsed on `t` at monotonic `now_ms`; zero before its start.
pub open spec fn elapsed_spec(t: TimerState, now_ms: u64) -> u64 {
    if now_ms >= t.start {
        (now_ms - t.start) as u64
    } else {
        0
    }
}

/// Whether `t` is seen at zero for the first time at `now_ms`.
pub open spec fn zero_seen(t: TimerState, now_ms: u64) -> bool {
    remaining_spec(t.duration, elapsed_spec(t, now_ms)) == 0 && t.zero_at is None
}

/// Whether the countdown is drawn at `now_ms`: always until it has reached
/// zero, then on every other blink phase, starting with a visible one.
pub open spec fn visible_spec(t: TimerState, now_ms: u64) -> bool {
    match t.zero_at {
        None => true,
        Some(z) => if now_ms <= z {
            true
        } else {
            ((now_ms - z) / (BLINK_PERIOD_MS as int)) % 2 == 0
        },
    }
}

/// Remaining time of a countdown of `duration` after `elapsed`.
pub fn remaining_of(duration: u64, elapsed: u64) -> (r: u64)
    ensures
        r == remaining_spec(duration, elapsed),
        elapsed >= duration ==> r == 0,
        elapsed < duration ==> r + elapsed == duration,
{
    if elapsed >= duration {
        0
    } else {
        duration - elapsed
    }
}

/// Milliseconds from wall-clock second `now` until `dep`, clamped at zero.
pub fn countdown_between(dep: i64, now: i64) -> (r: u64)
    ensures
        r == countdown_ms(dep, now),
{
    if dep <= now {
        0
    } else {
        let secs: i128 = dep as i128 - now as i128;
        if secs > (u64::MAX / 1000) as i128 {
            u64::MAX
        } else {
            (secs * 1000) as u64
        }
    }
}

impl TimerState {
    /// A countdown toward departure `dep`.
    pub fn toward(dep: i64, now: i64, now_ms: u64) -> (r: TimerState)
        ensures
            r == timer_toward(dep, now, now_ms),
    {
        TimerState { start: now_ms, duration: countdown_between(dep, now), notified: false, zero_at: None }
    }

    /// Milliseconds elapsed since the start at monotonic `now_ms`.
    pub fn elapsed(&self, now_ms: u64) -> (r: u64)
        ensures
            r == elapsed_spec(*self, now_ms),
    {
        if now_ms >= self.start {
            now_ms - self.start
        } else {
            0
        }
    }

    /// Records the first instant at which the countdown is seen at zero.
    pub fn mark_zero_reached(&mut self, now_ms: u64)
        ensures
            zero_seen(*old(self), now_ms) ==> *final(self) == (TimerState {
                zero_at: Some(now_ms),
                ..*old(self)
            }),
            !zero_seen(*old(self), now_ms) ==> *final(self) == *old(self),
    {
        let elapsed = self.elapsed(now_ms);
        if remaining_of(self.duration, elapsed) == 0 && self.zero_at.is_none() {
            self.zero_at = Some(now_ms);
        }
    }

    /// Whether the countdown is drawn at monotonic `now_ms`.
    pub fn is_visible(&self, now_ms: u64) -> (r: bool)
        ensures
            r == visible_spec(*self, now_ms),
    {
        match self.zero_at {
            None => true,
            Some(z) => if now_ms <= z {
                true
            } else {
                ((now_ms - z) / BLINK_PERIOD_MS) % 2 == 0
            },
        }
    }
}

/// The character of decimal digit `d`.
pub open spec fn digit_char(d: nat) -> char {
    if d == 0 { '0' }
    else if d == 1 { '1' }
    else if d == 2 { '2' }
    else if d == 3 { '3' }
    else if d == 4 { '4' }
    else if d == 5 { '5' }
    else if d == 6 { '6' }
    else if d == 7 { '7' }
    else if d == 8 { '8' }
    else { '9' }
}

/// Decimal digits of `n`, without leading zeros.
pub open spec fn decimal(n: nat) -> Seq<char>
    decreases n,
{
    if n < 10 {
        seq![digit_char(n)]
    } else {
        decimal(n / 10) + seq![digit_char(n % 10)]
    }
}

/// Decimal digits of `n`, padded with zeros to at least two.
pub open spec fn padded2(n: nat) -> Seq<char> {
    if n < 10 {
        seq!['0', digit_char(n)]
    } else {
        decimal(n)
    }
}

/// `HH:MM:SS` of a number of whole seconds; the hours take as many digits
/// as they need.
pub open spec fn hhmmss(secs: nat) -> Seq<char> {
    padded2(secs / 3600) + seq![':'] + padded2((secs % 3600) / 60) + seq![':'] + padded2(secs % 60)
}

fn digit_of(d: u64) -> (c: char)
    requires
        d < 10,
    ensures
        c == digit_char(d as nat),
{
    if d == 0 { '0' }
    else if d == 1 { '1' }
    else if d == 2 { '2' }
    else if d == 3 { '3' }
    else if d == 4 { '4' }
    else if d == 5 { '5' }
    else if d == 6 { '6' }
    else if d == 7 { '7' }
    else if d == 8 { '8' }
    else { '9' }
}

fn push_decimal(out: &mut Vec<char>, n: u64)
    ensures
        final(out)@ == old(out)@ + decimal(n as nat),
    decreases n,
{
    if n >= 10 {
        push_decimal(out, n / 10);
    }
    out.push(digit_of(n % 10));
}

fn push_padded2(out: &mut Vec<char>, n: u64)
    ensures
        final(out)@ == old(out)@ + padded2(n as nat),
{
    if n < 10 {
        out.push('0');
        out.push(digit_of(n));
    } else {
        push_decimal(out, n);
    }
}

/// A duration of `dur` milliseconds as `HH:MM:SS`, in whole seconds.
pub fn format_hhmmss(dur: u64) -> (r: String)
    ensures
        r@ == hhmmss((dur / 1000) as nat),
{
    let secs = dur / 1000;
    let mut out: Vec<char> = Vec::new();
    push_padded2(&mut out, secs / 3600);
    out.push(':');
    push_padded2(&mut out, (secs % 3600) / 60);
    out.push(':');
    push_padded2(&mut out, secs % 60);
    string_from_chars(&out)
}

} // verus!
