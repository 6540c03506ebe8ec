//! Points in time, the time windows that the campaigns look at, and how
//! each campaign places its window.

use vstd::prelude::*;

verus! {

/// The number of seconds in a day.
pub const SECONDS_PER_DAY: i64 = 86_400;

/// A point in time: seconds since the start of 1970 in UTC, and the
/// nanoseconds within that second.
#[derive(Clone, Copy, Debug, PartialEq, Eq, Structural)]
pub struct Timestamp {
    pub secs: i64,
    pub nanos: u32,
}

/// The time between two points, both included.
#[derive(Clone, Copy, Debug, PartialEq, Eq, Structural)]
pub struct TimeWindow {
    pub lower: Timestamp,
    pub upper: Timestamp,
}

/// The three kinds of campaign that the pipeline runs.
#[derive(Clone, Copy, Debug, PartialEq, Eq, Structural)]
pub enum Campaign {
    /// Greets those who joined some days ago.
    Welcome,
    /// Calls back those who were active in the last days.
    Recall,
    /// Reminds those who left something unfinished in the last days.
    Remind,
}

impl Timestamp {
    /// The point `days` whole days before this one, if a timestamp can
    /// hold it.
    pub open spec fn earlier(self, days: nat) -> Option<Timestamp> {
        if self.secs - days * 86_400 >= i64::MIN {
            Some(Timestamp { secs: (self.secs - days * 86_400) as i64, nanos: self.nanos })
        } else {
            None
        }
    }

    /// Steps back by `days` whole days: the seconds shrink by 86 400 for
    /// each day and the nanoseconds stay. `None` when the result is
    /// before the earliest timestamp.
    pub fn days_before(self, days: u32) -> (moved: Option<Timestamp>)
        ensures
            moved == self.earlier(days as nat),
    {
        let span: i64 = (days as i64) * SECONDS_PER_DAY;
        if self.secs < i64::MIN + span {
            None
        } else {
            Some(Timestamp { secs: self.secs - span, nanos: self.nanos })
        }
    }
}

impl Campaign {
    /// The label that the campaign's messages carry. A reminder goes out
    /// under the recall label.
    pub open spec fn label_text(self) -> Seq<char> {
        match self {
            Campaign::Welcome => "Welcome"@,
            Campaign::Recall => "Recall"@,
            Campaign::Remind => "Recall"@,
        }
    }

    /// Whether the campaign's messages carry content.
    pub open spec fn carries_contents(self) -> bool {
        !(self is Remind)
    }

    /// Where the campaign places its window when asked at `now` with an
    /// interval of `days` days. A welcome looks at the one day that ends
    /// `days` days ago; the other two look at the last `days` days.
    pub open spec fn window_at(self, now: Timestamp, days: nat) -> Option<TimeWindow> {
        match self {
            Campaign::Welcome => match now.earlier(days) {
                Some(upper) => match upper.earlier(1) {
                    Some(lower) => Some(TimeWindow { lower, upper }),
                    None => None,
                },
                None => None,
            },
            _ => match now.earlier(days) {
                Some(lower) => Some(TimeWindow { lower, upper: now }),
                None => None,
            },
        }
    }

    /// The label that the campaign's messages carry.
    pub fn label(self) -> (label: &'static str)
        ensures
            label@ == self.label_text(),
    {
        match self {
            Campaign::Welcome => "Welcome",
            Campaign::Recall => "Recall",
            Campaign::Remind => "Recall",
        }
    }

    /// Whether the campaign's messages carry content.
    pub fn needs_contents(self) -> (needed: bool)
        ensures
            needed == self.carries_contents(),
    {
        match self {
            Campaign::Remind => false,
            _ => true,
        }
    }

    /// Places the campaign's window. `None` when a bound of the window
    /// would lie before the earliest timestamp.
    pub fn window(self, now: Timestamp, interval_days: u32) -> (window: Option<TimeWindow>)
        ensures
            window == self.window_at(now, interval_days as nat),
    {
        let anchor = match now.days_before(interval_days) {
            Some(anchor) => anchor,
            None => {
                return None;
            },
        };
        match self {
            Campaign::Welcome => match anchor.days_before(1) {
                Some(lower) => Some(TimeWindow { lower, upper: anchor }),
                None => None,
            },
            _ => Some(TimeWindow { lower: anchor, upper: now }),
        }
    }
}

} // verus!
