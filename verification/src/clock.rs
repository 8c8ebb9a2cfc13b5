//! Moments in time, with the arithmetic that `chrono` defines on them.

use vstd::prelude::*;

verus! {

/// Nanoseconds in a second.
pub const NANOS: u32 = 1_000_000_000;

/// The first second that a moment can lie in, counted from the Unix epoch.
pub const FIRST_SECOND: i64 = -8_334_601_228_800;

/// The last second that a moment can lie in, counted from the Unix epoch.
pub const LAST_SECOND: i64 = 8_210_266_876_799;

/// Whether seconds and nanoseconds since the Unix epoch name a moment. Nanoseconds beyond one
/// second stand for a leap second, which only the last second of a minute can be followed by.
pub open spec fn names_moment(secs: int, nanos: int) -> bool {
    &&& FIRST_SECOND <= secs <= LAST_SECOND
    &&& 0 <= nanos < 2 * NANOS
    &&& nanos >= NANOS ==> secs % 60 == 59
}

/// Seconds in a day.
pub const DAY: i64 = 86_400;

/// The nanoseconds that pass from one moment to another, negative where the second comes first.
/// A leap second counts where the times of day lie on either side of it.
pub open spec fn gap(secs: int, nanos: int, earlier_secs: int, earlier_nanos: int) -> int {
    let leap: int = if secs % (DAY as int) > earlier_secs % (DAY as int) && earlier_nanos >= NANOS {
        1
    } else if secs % (DAY as int) < earlier_secs % (DAY as int) && nanos >= NANOS {
        -1
    } else {
        0
    };
    (secs - earlier_secs + leap) * NANOS + (nanos - earlier_nanos)
}

/// A moment in coordinated universal time.
#[derive(Debug, Clone, Copy, PartialEq, Eq, Structural)]
pub struct Timestamp {
    secs: i64,
    nanos: u32,
}

impl Timestamp {
    #[verifier::type_invariant]
    spec fn well_formed(self) -> bool {
        names_moment(self.secs as int, self.nanos as int)
    }

    /// Whole seconds since the Unix epoch, leap seconds not counted.
    pub closed spec fn seconds(self) -> int {
        self.secs as int
    }

    /// Nanoseconds since the last whole second.
    pub closed spec fn subsec(self) -> nat {
        self.nanos as nat
    }

    /// The moment so many seconds and nanoseconds after the Unix epoch, if there is one.
    pub fn from_unix(secs: i64, nanos: u32) -> (moment: Option<Timestamp>)
        ensures
            moment is Some <==> names_moment(secs as int, nanos as int),
            moment matches Some(t) ==> t.seconds() == secs && t.subsec() == nanos,
    {
        if secs < FIRST_SECOND || LAST_SECOND < secs {
            return None;
        }
        // The first second of all is the first of its minute.
        let second_of_minute: u64 = (secs - FIRST_SECOND) as u64 % 60;
        if nanos < NANOS || (nanos < 2 * NANOS && second_of_minute == 59) {
            Some(Timestamp { secs, nanos })
        } else {
            None
        }
    }

    /// The current moment: one of the calendar's range, not before the Unix epoch, and no leap
    /// second. Which one it is, the clock says.
    pub fn now() -> (moment: Timestamp)
        ensures
            names_moment(moment.seconds(), moment.subsec() as int),
            moment.seconds() >= 0,
            moment.subsec() < NANOS,
            moment.told_by_the_clock(),
    {
        let (secs, nanos) = ask(utc_now);
        Timestamp { secs, nanos }
    }

    /// Whether the system's clock gave this very moment when it was asked.
    pub closed spec fn told_by_the_clock(self) -> bool {
        call_ensures(utc_now, (), (self.secs, self.nanos))
    }

    /// The nanoseconds that have passed at this moment since an earlier one.
    pub open spec fn nanos_since(self, earlier: Timestamp) -> int {
        gap(
            self.seconds(),
            self.subsec() as int,
            earlier.seconds(),
            earlier.subsec() as int,
        )
    }

    /// The seconds and nanoseconds that have passed at this moment since an earlier one; `None`
    /// where the other is the later one.
    pub fn since(&self, earlier: &Timestamp) -> (elapsed: Option<(u64, u32)>)
        ensures
            match elapsed {
                Some((secs, nanos)) => nanos < NANOS && secs * NANOS + nanos == self.nanos_since(
                    *earlier,
                ),
                None => self.nanos_since(*earlier) < 0,
            },
    {
        proof {
            use_type_invariant(self);
            use_type_invariant(earlier);
        }
        elapsed_between(self.secs, self.nanos, earlier.secs, earlier.nanos)
    }

    /// Whole seconds since the Unix epoch, leap seconds not counted.
    pub fn unix_seconds(&self) -> (secs: i64)
        ensures
            secs == self.seconds(),
            names_moment(self.seconds(), self.subsec() as int),
    {
        proof {
            use_type_invariant(self);
        }
        self.secs
    }

    /// Nanoseconds since the last whole second.
    pub fn subsec_nanos(&self) -> (nanos: u32)
        ensures
            nanos == self.subsec(),
            names_moment(self.seconds(), self.subsec() as int),
    {
        proof {
            use_type_invariant(self);
        }
        self.nanos
    }
}

/// Calls a function, and says that the result is what that call gave.
fn ask<T, F: Fn() -> T>(question: F) -> (answer: T)
    requires
        call_requires(question, ()),
    ensures
        call_ensures(question, (), answer),
{
    question()
}

/// A moment is given by its seconds and nanoseconds: where they are equal, so are the moments.
pub proof fn law_moments_are_told_apart_by_their_numbers(a: Timestamp, b: Timestamp)
    requires
        a.seconds() == b.seconds(),
        a.subsec() == b.subsec(),
    ensures
        a == b,
{
}

/// The current time as `chrono::Utc::now` gives it, in seconds and nanoseconds since the Unix
/// epoch: some moment, not before the epoch since that is where it counts from, and no leap
/// second. What the time is, nothing says. Like that function it panics where the system clock
/// stands before the epoch or beyond the calendar's range.
#[verifier::external_body]
fn utc_now() -> (now: (i64, u32))
    ensures
        names_moment(now.0 as int, now.1 as int),
        now.0 >= 0,
        now.1 < NANOS,
{
    let now = chrono::Utc::now();
    (now.timestamp(), now.timestamp_subsec_nanos())
}

/// Makes two moments with `chrono::DateTime::from_timestamp`, which accepts the numbers that
/// `names_moment` describes, subtracts them as `chrono::DateTime<Utc>`, and converts the
/// difference with `chrono::TimeDelta::to_std`: `None` where it is negative, else its whole
/// seconds and the nanoseconds left over. The difference counts a leap second as `gap` states it.
#[verifier::external_body]
fn elapsed_between(secs: i64, nanos: u32, earlier_secs: i64, earlier_nanos: u32) -> (elapsed:
    Option<(u64, u32)>)
    requires
        names_moment(secs as int, nanos as int),
        names_moment(earlier_secs as int, earlier_nanos as int),
    ensures
        match elapsed {
            Some((s, n)) => n < NANOS && s * NANOS + n == gap(
                secs as int,
                nanos as int,
                earlier_secs as int,
                earlier_nanos as int,
            ),
            None => gap(secs as int, nanos as int, earlier_secs as int, earlier_nanos as int) < 0,
        },
{
    let later = chrono::DateTime::from_timestamp(secs, nanos).unwrap();
    let earlier = chrono::DateTime::from_timestamp(earlier_secs, earlier_nanos).unwrap();
    (later - earlier).to_std().ok().map(|elapsed| (elapsed.as_secs(), elapsed.subsec_nanos()))
}

/// A moment counts as told by the clock only where asking `utc_now` gave its two numbers.
proof fn law_told_moments_come_from_the_clock(moment: Timestamp)
    requires
        moment.told_by_the_clock(),
    ensures
        call_ensures(utc_now, (), (moment.secs, moment.nanos)),
{
}

/// Between two moments that are no leap seconds as many nanoseconds pass as lie between them on
/// one count of nanoseconds: those of a second for each second, and those of the fraction.
pub proof fn law_time_between_is_the_difference(later: Timestamp, earlier: Timestamp)
    requires
        later.subsec() < 1_000_000_000,
        earlier.subsec() < 1_000_000_000,
    ensures
        later.nanos_since(earlier) == (later.seconds() * 1_000_000_000 + later.subsec()) - (
        earlier.seconds() * 1_000_000_000 + earlier.subsec()),
{
}

/// A leap second lengthens the time from it to a later time of day by a second, which is
/// otherwise the difference of the two moments.
pub proof fn law_leap_seconds_count_within_the_day(later: Timestamp, earlier: Timestamp)
    ensures
        ({
            let difference = (later.seconds() * 1_000_000_000 + later.subsec()) - (
            earlier.seconds() * 1_000_000_000 + earlier.subsec());
            let of_day = later.seconds() % 86_400;
            let earlier_of_day = earlier.seconds() % 86_400;
            let counted = later.nanos_since(earlier) - difference;
            &&& counted == 1_000_000_000 <==> earlier.subsec() >= 1_000_000_000 && of_day
                > earlier_of_day
            &&& counted == -1_000_000_000 <==> later.subsec() >= 1_000_000_000 && of_day
                < earlier_of_day
            &&& counted == 0 || counted == 1_000_000_000 || counted == -1_000_000_000
        }),
{
}

/// Two numbers name a moment exactly where the seconds lie in the calendar's range and the
/// nanoseconds are those of that second, or, at the end of a minute, of a leap second after it.
pub proof fn law_moments_span_the_calendar(secs: int, nanos: int)
    ensures
        names_moment(secs, nanos) <==> {
            &&& -8_334_601_228_800 <= secs < 8_210_266_876_800
            &&& 0 <= nanos
            &&& nanos < 1_000_000_000 || (nanos < 2_000_000_000 && (secs + 1) % 60 == 0)
        },
{
}

} // verus!
