use vstd::prelude::*;

verus! {

/// Days in a game year (twelve months of thirty days).
pub const DAYS_PER_YEAR: i32 = 360;

/// A calendar date of the game: day of the year (1 to 360) and year.
#[derive(Debug, Clone, Copy, PartialEq, Eq, Structural)]
pub struct GameDate {
    pub day: u16,
    pub year: i32,
}

impl GameDate {
    /// Days elapsed since day 0 of year 0: the date as one number.
    pub open spec fn day_number(self) -> int {
        self.year * 360 + self.day
    }

    /// Dates are ordered by year, then by day.
    pub open spec fn le(self, other: GameDate) -> bool {
        self.year < other.year || (self.year == other.year && self.day <= other.day)
    }

    pub open spec fn lt(self, other: GameDate) -> bool {
        self.year < other.year || (self.year == other.year && self.day < other.day)
    }

    /// The date `days` days after this one: days beyond 360 roll into
    /// following years.
    pub open spec fn plus_days(self, days: int) -> GameDate {
        let total = self.day + days;
        if total <= 360 {
            GameDate { day: total as u16, year: self.year }
        } else {
            GameDate {
                day: (total - 360 * ((total - 1) / 360)) as u16,
                year: (self.year + (total - 1) / 360) as i32,
            }
        }
    }

    pub fn new(day: u16, year: i32) -> (r: GameDate)
        ensures
            r.day == day,
            r.year == year,
    {
        GameDate { day, year }
    }

    /// Adds `days` days, rolling whole years over as needed.
    pub fn add_days(self, days: u16) -> (r: GameDate)
        requires
            self.year + (self.day + days) / 360 <= i32::MAX,
        ensures
            r == self.plus_days(days as int),
    {
        let mut total_days: i32 = self.day as i32 + days as i32;
        let mut year: i32 = self.year;
        let ghost total0: int = total_days as int;
        while total_days > 360
            invariant
                total0 == self.day + days,
                total0 <= 2 * 65535,
                self.year + (self.day + days) / 360 <= i32::MAX,
                year - self.year >= 0,
                total_days + 360 * (year - self.year) == total0,
                total_days > 360 ==> (total0 - 1) / 360 >= (year - self.year) + 1,
                total_days <= 360 ==> total0 <= 360 || total_days >= 1,
                total0 <= 360 ==> year == self.year,
            decreases total_days,
        {
            total_days = total_days - 360;
            year = year + 1;
        }
        proof {
            if total0 > 360 {
                let k = year - self.year;
                assert(total_days >= 1 && total_days <= 360);
                assert(total0 - 1 == 360 * k + (total_days - 1));
                assert((total0 - 1) / 360 == k) by (nonlinear_arith)
                    requires
                        total0 - 1 == 360 * k + (total_days - 1),
                        0 <= total_days - 1 < 360,
                ;
                assert(total_days == total0 - 360 * ((total0 - 1) / 360));
                assert(year == self.year + (total0 - 1) / 360);
            } else {
                assert(year == self.year);
                assert(total_days == total0);
            }
        }
        GameDate { day: total_days as u16, year }
    }

    /// Whole days from this date until `other`, or 0 when `other` is not later.
    pub fn days_until(self, other: GameDate) -> (r: i64)
        ensures
            r == (if other.day_number() > self.day_number() {
                other.day_number() - self.day_number()
            } else {
                0
            }),
    {
        let lhs: i64 = self.year as i64 * 360 + self.day as i64;
        let rhs: i64 = other.year as i64 * 360 + other.day as i64;
        if rhs > lhs {
            rhs - lhs
        } else {
            0
        }
    }

    /// Whether this date comes strictly before `other`.
    pub fn precedes(self, other: GameDate) -> (r: bool)
        ensures
            r == self.lt(other),
    {
        self.year < other.year || (self.year == other.year && self.day < other.day)
    }

    /// Whether this date comes no later than `other`.
    pub fn no_later_than(self, other: GameDate) -> (r: bool)
        ensures
            r == self.le(other),
    {
        self.year < other.year || (self.year == other.year && self.day <= other.day)
    }
}

/// Adding days moves the day number forward by exactly that many days.
pub proof fn lemma_add_days_counts(d: GameDate, days: int)
    requires
        0 <= days,
        d.day + days >= 1,
        0 <= d.day + days <= 2 * 65535,
        i32::MIN <= d.year + (d.day + days) / 360 <= i32::MAX,
    ensures
        d.plus_days(days).day_number() == d.day_number() + days,
        d.day + days > 360 ==> 1 <= d.plus_days(days).day <= 360,
{
    let total = d.day + days;
    if total > 360 {
        let k = (total - 1) / 360;
        assert(360 * k <= total - 1 < 360 * k + 360) by (nonlinear_arith)
            requires
                k == (total - 1) / 360,
                total - 1 >= 0,
        ;
    }
}

/// The date order is total and agrees with the day number for valid days.
pub proof fn lemma_order_matches_day_number(a: GameDate, b: GameDate)
    requires
        1 <= a.day <= 360,
        1 <= b.day <= 360,
    ensures
        a.le(b) <==> a.day_number() <= b.day_number(),
        a.lt(b) <==> a.day_number() < b.day_number(),
        a.le(b) || b.le(a),
        (a.le(b) && b.le(a)) ==> a == b,
{
}

} // verus!
