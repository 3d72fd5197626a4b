//! Time-keeping state machine: wall clock, count-up and count-down modes,
//! pause/resume bookkeeping and the fixed-width display formatting.

use vstd::prelude::*;

verus! {

/// Display format of the time string: `HH:MM:SS`, or the same with a
/// zero-padded three-digit millisecond suffix.
#[derive(Debug, PartialEq, Eq, Clone, Copy, Structural)]
pub enum TimeFormat {
    HourMinSec,
    HourMinSecMSec,
}

/// Operating mode. A count-down carries its target duration in milliseconds.
#[derive(Debug, PartialEq, Eq, Clone, Copy, Structural)]
pub enum OpMode {
    Clock,
    CountDownTimer(u64),
    CountUpTimer,
}

/// A wall-clock reading broken into plain fields, as a local-time provider
/// hands them out.
#[derive(Debug, PartialEq, Eq, Clone, Copy, Structural)]
pub struct WallClock {
    pub hour: u32,
    pub minute: u32,
    pub second: u32,
    pub nanosecond: u32,
}

impl WallClock {
    /// Ranges a local-time reading always satisfies; the nanosecond field may
    /// carry a leap second's extra range.
    pub open spec fn valid(self) -> bool {
        self.hour <= 23 && self.minute <= 59 && self.second <= 59
            && self.nanosecond <= 1_999_999_999
    }

    pub fn new(hour: u32, minute: u32, second: u32, nanosecond: u32) -> (r: WallClock)
        ensures
            r == (WallClock { hour, minute, second, nanosecond }),
    {
        WallClock { hour, minute, second, nanosecond }
    }
}

/// Relies on `chrono::Local::now` and the `chrono::Timelike` accessors
/// `hour`, `minute`, `second` and `nanosecond` for the current local time:
/// hour is 0..=23, minute and second 0..=59, and nanosecond at most
/// 1_999_999_999 (the extra second's worth represents a leap second).
#[verifier::external_body]
fn wall_clock_now() -> (r: WallClock)
    ensures
        r.valid(),
{
    let now = chrono::Local::now();
    WallClock {
        hour: chrono::Timelike::hour(&now),
        minute: chrono::Timelike::minute(&now),
        second: chrono::Timelike::second(&now),
        nanosecond: chrono::Timelike::nanosecond(&now),
    }
}

/// The decimal digit `d` as a character; meaningful for `0 <= d <= 9`.
pub open spec fn digit_char(d: int) -> char {
    if d == 0 { '0' }
    else if d == 1 { '1' }
    else if d == 2 { '2' }
    else if d == 3 { '3' }
    else if d == 4 { '4' }
    else if d == 5 { '5' }
    else if d == 6 { '6' }
    else if d == 7 { '7' }
    else if d == 8 { '8' }
    else { '9' }
}

/// Decimal rendering of `n`, most significant digit first, no padding.
pub open spec fn dec_str(n: nat) -> Seq<char>
    decreases n,
{
    if n < 10 {
        seq![digit_char(n as int)]
    } else {
        dec_str(n / 10) + seq![digit_char((n % 10) as int)]
    }
}

/// Decimal rendering of `n` left-padded with zeros to `width` characters.
/// A value that already needs `width` or more digits is never truncated,
/// and a width of zero or one adds no padding.
pub open spec fn padded_dec(width: nat, n: nat) -> Seq<char> {
    if dec_str(n).len() >= width {
        dec_str(n)
    } else {
        Seq::new((width - dec_str(n).len()) as nat, |i: int| '0') + dec_str(n)
    }
}

/// The display string for an elapsed or remaining span of `ms` milliseconds:
/// unbounded hours, minutes and seconds each reduced modulo the next larger
/// unit and padded to two digits, and under `HourMinSecMSec` a dot and the
/// milliseconds padded to three digits.
pub open spec fn spec_duration_str(format: TimeFormat, ms: nat) -> Seq<char> {
    let secs = ms / 1000;
    let hms = padded_dec(2, secs / 3600) + seq![':'] + padded_dec(2, (secs / 60) % 60)
        + seq![':'] + padded_dec(2, secs % 60);
    match format {
        TimeFormat::HourMinSec => hms,
        TimeFormat::HourMinSecMSec => hms + seq!['.'] + padded_dec(3, ms % 1000),
    }
}

/// The display string for a wall-clock reading.
pub open spec fn spec_clock_str(format: TimeFormat, w: WallClock) -> Seq<char> {
    let hms = padded_dec(2, w.hour as nat) + seq![':'] + padded_dec(2, w.minute as nat)
        + seq![':'] + padded_dec(2, w.second as nat);
    match format {
        TimeFormat::HourMinSec => hms,
        TimeFormat::HourMinSecMSec => hms + seq!['.'] + padded_dec(
            3,
            (w.nanosecond / 1_000_000) as nat,
        ),
    }
}

/// Clock/timer state. Instants are monotonic milliseconds supplied by the
/// caller; `start_time` anchors a running span and `stop_time` records where
/// a paused one stopped.
#[derive(Debug, PartialEq, Eq, Clone, Copy, Structural)]
pub struct Time {
    pub format: TimeFormat,
    pub mode: OpMode,
    pub start_time: u64,
    pub stop_time: Option<u64>,
    pub started: bool,
}

/// The state after a mode change: a no-op when the mode (target duration
/// included) is unchanged; entering a timer mode re-anchors to `now` and
/// clears any pending stop instant.
pub open spec fn spec_set_mode(t: Time, mode: OpMode, now: u64) -> Time {
    if t.mode == mode {
        t
    } else {
        match mode {
            OpMode::Clock => Time { mode, ..t },
            OpMode::CountDownTimer(_) => Time { mode, start_time: now, stop_time: None, ..t },
            OpMode::CountUpTimer => Time { mode, start_time: now, stop_time: None, ..t },
        }
    }
}

/// The state after the start/pause toggle at instant `now`; meaningful only
/// in the timer modes, a no-op under `Clock`.
///
/// Pausing records `now` as the stop instant. Resuming a count-up moves the
/// anchor forward by the paused span, so elapsed time excludes the pause;
/// resuming a count-down whose span had already exceeded the target clears
/// the stop instant and re-anchors to `now` (a fresh countdown), and
/// otherwise resumes from the original anchor.
pub open spec fn spec_toggle(t: Time, now: u64) -> Time {
    match t.mode {
        OpMode::Clock => t,
        OpMode::CountUpTimer => {
            if !t.started {
                match t.stop_time {
                    Some(s) => Time {
                        started: true,
                        start_time: t.start_time.saturating_add(now.saturating_sub(s)),
                        stop_time: None,
                        ..t
                    },
                    None => Time { started: true, start_time: now, ..t },
                }
            } else {
                Time { started: false, stop_time: Some(now), ..t }
            }
        },
        OpMode::CountDownTimer(target) => {
            if !t.started {
                match t.stop_time {
                    Some(s) => {
                        if s.saturating_sub(t.start_time) > target {
                            Time { started: true, start_time: now, stop_time: None, ..t }
                        } else {
                            Time { started: true, ..t }
                        }
                    },
                    None => Time { started: true, start_time: now, ..t },
                }
            } else {
                Time { started: false, stop_time: Some(now), ..t }
            }
        },
    }
}

/// Elapsed milliseconds a count-down has consumed at instant `now`: the span
/// up to the stop instant while paused, the span since the anchor while
/// running, zero when paused without ever running.
pub open spec fn spec_countdown_elapsed(t: Time, now: u64) -> u64 {
    if !t.started {
        match t.stop_time {
            Some(s) => s.saturating_sub(t.start_time),
            None => 0u64,
        }
    } else {
        now.saturating_sub(t.start_time)
    }
}

/// Milliseconds a count-down still has to run: the target minus the elapsed
/// span, clamped to zero.
pub open spec fn spec_remaining(target: u64, elapsed: u64) -> u64 {
    if elapsed > target {
        0u64
    } else {
        (target - elapsed) as u64
    }
}

/// Elapsed milliseconds of a count-up at instant `now`.
pub open spec fn spec_countup_elapsed(t: Time, now: u64) -> u64 {
    now.saturating_sub(t.start_time)
}

impl Time {
    /// A fresh state: wall-clock mode, nothing started, no stop pending.
    pub fn new(format: TimeFormat) -> (r: Time)
        ensures
            r == (Time {
                format,
                mode: OpMode::Clock,
                start_time: 0u64,
                stop_time: None,
                started: false,
            }),
    {
        Time { format, mode: OpMode::Clock, start_time: 0, stop_time: None, started: false }
    }

    pub fn mode(&self) -> (r: OpMode)
        ensures
            r == self.mode,
    {
        self.mode
    }

    pub fn format(&self) -> (r: TimeFormat)
        ensures
            r == self.format,
    {
        self.format
    }

    /// Switches the operating mode; see [`spec_set_mode`].
    pub fn set_mode(&mut self, mode: OpMode, now: u64)
        ensures
            *final(self) == spec_set_mode(*old(self), mode, now),
    {
        if self.mode != mode {
            self.mode = mode;
            match self.mode {
                OpMode::CountDownTimer(_) | OpMode::CountUpTimer => {
                    self.start_time = now;
                    self.stop_time = None;
                },
                _ => (),
            }
        }
    }

    /// Starts or pauses a running timer; see [`spec_toggle`].
    pub fn toggle_timer(&mut self, now: u64)
        ensures
            *final(self) == spec_toggle(*old(self), now),
    {
        match self.mode {
            OpMode::CountDownTimer(duration) => {
                self.started = !self.started;
                if self.started {
                    match self.stop_time {
                        Some(time) => {
                            if time.saturating_sub(self.start_time) > duration {
                                // The timer had already expired while paused:
                                // restarting begins a fresh countdown.
                                self.stop_time = None;
                                self.start_time = now;
                            }
                        },
                        None => {
                            self.start_time = now;
                        },
                    }
                } else {
                    self.stop_time = Some(now);
                }
            },
            OpMode::CountUpTimer => {
                self.started = !self.started;
                if self.started {
                    match self.stop_time {
                        Some(time) => {
                            // Move the anchor forward by the paused span, so
                            // the elapsed time excludes the pause.
                            self.start_time = self.start_time.saturating_add(
                                now.saturating_sub(time),
                            );
                            self.stop_time = None;
                        },
                        None => {
                            self.start_time = now;
                        },
                    }
                } else {
                    self.stop_time = Some(now);
                }
            },
            _ => (),
        }
    }

    /// The display string at monotonic instant `now_ms`: the remaining span
    /// of a count-down, the elapsed span of a count-up, or the current local
    /// wall-clock time.
    pub fn current_time(&self, now_ms: u64) -> (r: String)
        ensures
            self.mode matches OpMode::CountDownTimer(target) ==> r@ == spec_duration_str(
                self.format,
                spec_remaining(target, spec_countdown_elapsed(*self, now_ms)) as nat,
            ),
            self.mode == OpMode::CountUpTimer ==> r@ == spec_duration_str(
                self.format,
                spec_countup_elapsed(*self, now_ms) as nat,
            ),
            self.mode == OpMode::Clock ==> exists|w: WallClock|
                w.valid() && r@ == spec_clock_str(self.format, w),
    {
        match self.mode {
            OpMode::CountDownTimer(duration) => {
                let delta: u64 = if !self.started {
                    match self.stop_time {
                        Some(time) => time.saturating_sub(self.start_time),
                        None => 0,
                    }
                } else {
                    now_ms.saturating_sub(self.start_time)
                };
                let remaining: u64 = if delta > duration { 0 } else { duration - delta };
                self.duration_to_str(remaining)
            },
            OpMode::CountUpTimer => {
                self.duration_to_str(now_ms.saturating_sub(self.start_time))
            },
            OpMode::Clock => {
                let w = wall_clock_now();
                self.time_to_str(&w)
            },
        }
    }

    /// Formats a wall-clock reading under this state's display format.
    pub fn time_to_str(&self, time: &WallClock) -> (r: String)
        ensures
            r@ == spec_clock_str(self.format, *time),
    {
        match self.format {
            TimeFormat::HourMinSec => {
                let mut r = Self::format_to_digit(2, time.hour as u64);
                r.append(":");
                r.append(Self::format_to_digit(2, time.minute as u64).as_str());
                r.append(":");
                r.append(Self::format_to_digit(2, time.second as u64).as_str());
                proof {
                    reveal_strlit(":");
                    assert(r@ =~= spec_clock_str(self.format, *time));
                }
                r
            },
            TimeFormat::HourMinSecMSec => {
                let mut r = Self::format_to_digit(2, time.hour as u64);
                r.append(":");
                r.append(Self::format_to_digit(2, time.minute as u64).as_str());
                r.append(":");
                r.append(Self::format_to_digit(2, time.second as u64).as_str());
                r.append(".");
                r.append(Self::format_to_digit(3, (time.nanosecond / 1_000_000) as u64).as_str());
                proof {
                    reveal_strlit(":");
                    reveal_strlit(".");
                    assert(r@ =~= spec_clock_str(self.format, *time));
                }
                r
            },
        }
    }

    /// Formats a span of milliseconds under this state's display format.
    pub fn duration_to_str(&self, delta_ms: u64) -> (r: String)
        ensures
            r@ == spec_duration_str(self.format, delta_ms as nat),
    {
        let secs = delta_ms / 1000;
        let hour = secs / 3600;
        let minute = (secs / 60) % 60;
        let second = secs % 60;
        match self.format {
            TimeFormat::HourMinSec => {
                let mut r = Self::format_to_digit(2, hour);
                r.append(":");
                r.append(Self::format_to_digit(2, minute).as_str());
                r.append(":");
                r.append(Self::format_to_digit(2, second).as_str());
                proof {
                    reveal_strlit(":");
                    assert(r@ =~= spec_duration_str(self.format, delta_ms as nat));
                }
                r
            },
            TimeFormat::HourMinSecMSec => {
                let mut r = Self::format_to_digit(2, hour);
                r.append(":");
                r.append(Self::format_to_digit(2, minute).as_str());
                r.append(":");
                r.append(Self::format_to_digit(2, second).as_str());
                r.append(".");
                r.append(Self::format_to_digit(3, delta_ms % 1000).as_str());
                proof {
                    reveal_strlit(":");
                    reveal_strlit(".");
                    assert(r@ =~= spec_duration_str(self.format, delta_ms as nat));
                }
                r
            },
        }
    }

    /// Zero-pads `value` to `digit` characters; a value wider than the field
    /// is rendered in full, never truncated.
    pub fn format_to_digit(digit: u32, value: u64) -> (r: String)
        ensures
            r@ == padded_dec(digit as nat, value as nat),
    {
        let s = u64_str(value);
        let len = s.as_str().unicode_len();
        if len >= digit as usize {
            return s;
        }
        let mut r = String::new();
        let mut i: usize = len;
        while i < digit as usize
            invariant
                len <= i <= digit as usize,
                len == dec_str(value as nat).len(),
                r@ =~= Seq::new((i - len) as nat, |j: int| '0'),
            decreases digit as usize - i,
        {
            r.append("0");
            proof {
                reveal_strlit("0");
                assert(r@ =~= Seq::new((i + 1 - len) as nat, |j: int| '0'));
            }
            i = i + 1;
        }
        r.append(s.as_str());
        proof {
            assert(r@ =~= padded_dec(digit as nat, value as nat));
        }
        r
    }
}

/// A count-down whose elapsed span has reached or passed its target shows a
/// remaining duration of exactly zero, never a negative value.
pub proof fn lemma_countdown_remaining_clamped(t: Time, now: u64, target: u64)
    requires
        t.mode == OpMode::CountDownTimer(target),
        spec_countdown_elapsed(t, now) >= target,
    ensures
        spec_remaining(target, spec_countdown_elapsed(t, now)) == 0,
{
}

/// Count-up pause/resume: starting at `t_start`, running for `d1`, pausing,
/// waiting until an arbitrary later `t_resume`, resuming, and running for a
/// further `d2` yields an elapsed time of exactly `d1 + d2`, independent of
/// how long the pause lasted.
pub proof fn lemma_countup_pause_resume(t: Time, t_start: u64, d1: u64, t_resume: u64, d2: u64)
    requires
        t.mode == OpMode::CountUpTimer,
        !t.started,
        t.stop_time is None,
        t_start + d1 <= t_resume,
        t_resume + d2 <= u64::MAX,
    ensures
        ({
            let running = spec_toggle(t, t_start);
            let paused = spec_toggle(running, (t_start + d1) as u64);
            let resumed = spec_toggle(paused, t_resume);
            spec_countup_elapsed(resumed, (t_resume + d2) as u64) == d1 + d2
        }),
{
}

/// Decimal rendering of `n`, exactly [`dec_str`].
pub fn u64_str(n: u64) -> (r: String)
    ensures
        r@ == dec_str(n as nat),
    decreases n,
{
    if n < 10 {
        String::from_str(digit_str(n))
    } else {
        proof {
            assert(n / 10 < n) by (nonlinear_arith)
                requires n >= 10;
        }
        let mut r = u64_str(n / 10);
        r.append(digit_str(n % 10));
        r
    }
}

/// The single decimal digit `d` as a string slice.
fn digit_str(d: u64) -> (r: &'static str)
    requires
        d < 10,
    ensures
        r@ =~= seq![digit_char(d as int)],
{
    proof {
        reveal_strlit("0");
        reveal_strlit("1");
        reveal_strlit("2");
        reveal_strlit("3");
        reveal_strlit("4");
        reveal_strlit("5");
        reveal_strlit("6");
        reveal_strlit("7");
        reveal_strlit("8");
        reveal_strlit("9");
    }
    if d == 0 { "0" }
    else if d == 1 { "1" }
    else if d == 2 { "2" }
    else if d == 3 { "3" }
    else if d == 4 { "4" }
    else if d == 5 { "5" }
    else if d == 6 { "6" }
    else if d == 7 { "7" }
    else if d == 8 { "8" }
    else { "9" }
}

} // verus!
