use vstd::prelude::*;

verus! {

/// A calendar day, counted so that 0001-01-01 (a Monday) is day 1.
#[derive(Clone, Copy, Debug, PartialEq, Eq, Structural)]
pub struct Date {
    pub days: i32,
}

/// The Monday-based week that holds `d`: consecutive days share a week number
/// exactly when no Monday separates them. Week 1 starts on 0001-01-01.
pub open spec fn week_of(d: Date) -> int {
    (d.days + 6) / 7
}

/// `a` is the day right before `b`.
pub open spec fn is_day_before(a: Date, b: Date) -> bool {
    a.days + 1 == b.days
}

impl Date {
    /// The day with number `days`.
    pub fn new(days: i32) -> (r: Date)
        ensures
            r.days == days,
    {
        Date { days }
    }

    /// The number of the ISO (Monday-based) week that holds this day.
    pub fn week(&self) -> (r: i64)
        ensures
            r == week_of(*self),
    {
        let s: i64 = self.days as i64 + 6;
        if s >= 0 {
            s / 7
        } else {
            let n: i64 = -s;
            let q: i64 = (n + 6) / 7;
            proof {
                assert(-q == s / 7) by (nonlinear_arith)
                    requires
                        n == -s,
                        s < 0,
                        q == (n + 6) / 7,
                ;
            }
            -q
        }
    }

    /// Whether this day comes right before `other`.
    pub fn is_day_before(&self, other: &Date) -> (r: bool)
        ensures
            r == is_day_before(*self, *other),
    {
        self.days < other.days && self.days + 1 == other.days
    }
}

} // verus!
