use vstd::prelude::*;

use crate::text::push_char;

verus! {

use core::cmp::Ordering;

/// A clock time with minute precision, stored as the count of minutes since
/// midnight. Every value lies in `[0, 1439]`; no other value can be
/// constructed.
#[derive(Debug, Clone, Copy, PartialEq, Eq, Structural, Ord)]
pub struct TimeOfDay {
    minutes: u16,
}

pub const MINUTES_PER_DAY: u16 = 1440;

impl View for TimeOfDay {
    type V = int;

    /// The mathematical model of a time of day: its minute count.
    closed spec fn view(&self) -> int {
        self.minutes as int
    }
}

/// The character for a single decimal digit.
pub open spec fn decimal_digit(d: int) -> char {
    if d == 0 {
        '0'
    } else if d == 1 {
        '1'
    } else if d == 2 {
        '2'
    } else if d == 3 {
        '3'
    } else if d == 4 {
        '4'
    } else if d == 5 {
        '5'
    } else if d == 6 {
        '6'
    } else if d == 7 {
        '7'
    } else if d == 8 {
        '8'
    } else {
        '9'
    }
}

impl TimeOfDay {
    #[verifier::type_invariant]
    spec fn in_range(self) -> bool {
        self.minutes < MINUTES_PER_DAY
    }

    /// The hour component of the model, on the 24-hour clock.
    pub open spec fn spec_hour(self) -> int {
        self@ / 60
    }

    /// The minute-within-hour component of the model.
    pub open spec fn spec_minute(self) -> int {
        self@ % 60
    }

    /// The zero-padded, colon-separated textual form, e.g. `01:30`.
    pub open spec fn spec_render(self) -> Seq<char> {
        seq![
            decimal_digit(self.spec_hour() / 10),
            decimal_digit(self.spec_hour() % 10),
            ':',
            decimal_digit(self.spec_minute() / 10),
            decimal_digit(self.spec_minute() % 10),
        ]
    }

    /// Validated factory from an (hour, minute) pair; absence signals a
    /// rejected input.
    pub fn new(hour: u16, minute: u16) -> (r: Option<TimeOfDay>)
        ensures
            r is Some <==> (hour <= 23 && minute <= 59),
            r matches Some(t) ==> t@ == hour * 60 + minute,
    {
        if hour > 23 || minute > 59 {
            return None;
        }
        Some(TimeOfDay { minutes: hour * 60 + minute })
    }

    /// Validated factory from a raw minute count.
    pub fn from_minutes(total_minutes: u16) -> (r: Result<TimeOfDay, ()>)
        ensures
            r is Ok <==> total_minutes < MINUTES_PER_DAY,
            r matches Ok(t) ==> t@ == total_minutes,
    {
        if total_minutes >= MINUTES_PER_DAY {
            return Err(());
        }
        Ok(TimeOfDay { minutes: total_minutes })
    }

    /// The underlying minute count, a lossless conversion.
    pub fn to_minutes(&self) -> (r: u16)
        ensures
            r == self@,
            r < MINUTES_PER_DAY,
    {
        proof {
            use_type_invariant(self);
        }
        self.minutes
    }

    /// The hour component, `to_minutes() / 60`.
    pub fn hour(&self) -> (r: u16)
        ensures
            r == self.spec_hour(),
    {
        self.minutes / 60
    }

    /// The minute-within-hour component, `to_minutes() % 60`.
    pub fn minute(&self) -> (r: u16)
        ensures
            r == self.spec_minute(),
    {
        self.minutes % 60
    }

    /// Renders the time as zero-padded 24-hour `HH:MM` text.
    pub fn render(&self) -> (r: String)
        ensures
            r@ == self.spec_render(),
    {
        proof {
            use_type_invariant(self);
        }
        let h = self.minutes / 60;
        let m = self.minutes % 60;
        let mut s = String::new();
        push_char(&mut s, digit_char(h / 10));
        push_char(&mut s, digit_char(h % 10));
        push_char(&mut s, ':');
        push_char(&mut s, digit_char(m / 10));
        push_char(&mut s, digit_char(m % 10));
        proof {
            assert(s@ =~= self.spec_render());
        }
        s
    }
}

/// Picks the character for a single decimal digit.
fn digit_char(d: u16) -> (c: char)
    requires
        d <= 9,
    ensures
        c == decimal_digit(d as int),
{
    match d {
        0 => '0',
        1 => '1',
        2 => '2',
        3 => '3',
        4 => '4',
        5 => '5',
        6 => '6',
        7 => '7',
        8 => '8',
        _ => '9',
    }
}

impl PartialOrd for TimeOfDay {
    /// Total order by minute count: earlier times compare less.
    fn partial_cmp(&self, other: &TimeOfDay) -> (r: Option<Ordering>) {
        if self.minutes < other.minutes {
            Some(Ordering::Less)
        } else if self.minutes == other.minutes {
            Some(Ordering::Equal)
        } else {
            Some(Ordering::Greater)
        }
    }
}

impl vstd::std_specs::cmp::PartialOrdSpecImpl for TimeOfDay {
    open spec fn obeys_partial_cmp_spec() -> bool {
        true
    }

    open spec fn partial_cmp_spec(&self, other: &TimeOfDay) -> Option<Ordering> {
        if self@ < other@ {
            Some(Ordering::Less)
        } else if self@ == other@ {
            Some(Ordering::Equal)
        } else {
            Some(Ordering::Greater)
        }
    }
}

/// For every valid (hour, minute) pair, the packed minute count decomposes
/// back into exactly that pair: the factory and the two accessors round-trip.
pub proof fn lemma_hour_minute_round_trip(hour: u16, minute: u16)
    requires
        hour <= 23,
        minute <= 59,
    ensures
        (hour * 60 + minute) / 60 == hour,
        (hour * 60 + minute) % 60 == minute,
{
    assert((hour * 60 + minute) / 60 == hour && (hour * 60 + minute) % 60 == minute)
        by (nonlinear_arith)
        requires
            hour <= 23,
            minute <= 59,
    ;
}

/// The minute count determines the time: converting a time to minutes and
/// back yields the original value.
pub proof fn lemma_minutes_round_trip(t: TimeOfDay, r: TimeOfDay)
    requires
        r@ == t@,
    ensures
        r == t,
{
}

} // verus!
