//! Relative descriptions of past moments ("5分钟前", "昨天", ...).
use vstd::prelude::*;
use vstd::string::*;
use crate::text::{decimal, decimal_text};

verus! {

/// How long ago a moment was, as it is described.
#[derive(Debug, Clone, Copy, PartialEq, Eq, Structural)]
pub enum RelativeTime {
    /// At most a minute ago, or in the future.
    JustNow,
    /// That many whole minutes ago, within the hour.
    MinutesAgo(i64),
    /// That many whole hours ago, within the day.
    HoursAgo(i64),
    /// One whole day ago.
    Yesterday,
    /// Two whole days ago.
    DayBeforeYesterday,
    /// That many whole days ago, 3 to 30.
    DaysAgo(i64),
    /// Longer ago: shown as a date.
    OnDate,
}

/// The description of a moment `diff` seconds ago.
pub open spec fn relative_of(diff: int) -> RelativeTime {
    if diff <= 60 {
        RelativeTime::JustNow
    } else if diff <= 3600 {
        RelativeTime::MinutesAgo((diff / 60) as i64)
    } else if diff <= 86400 {
        RelativeTime::HoursAgo((diff / 3600) as i64)
    } else if diff / 86400 == 1 {
        RelativeTime::Yesterday
    } else if diff / 86400 == 2 {
        RelativeTime::DayBeforeYesterday
    } else if diff / 86400 <= 30 {
        RelativeTime::DaysAgo((diff / 86400) as i64)
    } else {
        RelativeTime::OnDate
    }
}

/// The text of a description; `date` is the moment's calendar date.
pub open spec fn relative_text(t: RelativeTime, date: Seq<char>) -> Seq<char> {
    match t {
        RelativeTime::JustNow => "刚刚"@,
        RelativeTime::MinutesAgo(n) => decimal(n as nat) + "分钟前"@,
        RelativeTime::HoursAgo(n) => decimal(n as nat) + "小时前"@,
        RelativeTime::Yesterday => "昨天"@,
        RelativeTime::DayBeforeYesterday => "前天"@,
        RelativeTime::DaysAgo(n) => decimal(n as nat) + "天前"@,
        RelativeTime::OnDate => date,
    }
}

/// Relies on chrono::Utc::now and DateTime::timestamp: the current Unix time
/// in seconds.
#[verifier::external_body]
fn unix_now() -> (r: i64) {
    chrono::Utc::now().timestamp()
}

/// Relies on chrono's `Local.timestamp_opt` and `format("%Y-%m-%d")`: the
/// date of a Unix time in the machine's time zone, `None` when chrono cannot
/// represent that time.
#[verifier::external_body]
fn local_date_text(timestamp_secs: i64) -> (r: Option<String>) {
    match chrono::TimeZone::timestamp_opt(&chrono::Local, timestamp_secs, 0).single() {
        Some(t) => Some(t.format("%Y-%m-%d").to_string()),
        None => None,
    }
}

/// Describes past moments relative to the present.
#[derive(Debug)]
pub struct TimeFormatter;

impl TimeFormatter {
    /// A formatter.
    pub fn new() -> (r: TimeFormatter) {
        TimeFormatter
    }

    /// How long before `now_secs` the moment `timestamp_secs` lies.
    pub fn relative_time(&self, now_secs: i64, timestamp_secs: i64) -> (r: RelativeTime)
        ensures
            r == relative_of(now_secs - timestamp_secs),
    {
        let diff: i128 = now_secs as i128 - timestamp_secs as i128;
        if diff <= 60 {
            RelativeTime::JustNow
        } else if diff <= 3600 {
            RelativeTime::MinutesAgo((diff / 60) as i64)
        } else if diff <= 86400 {
            RelativeTime::HoursAgo((diff / 3600) as i64)
        } else {
            let days = diff / 86400;
            if days == 1 {
                RelativeTime::Yesterday
            } else if days == 2 {
                RelativeTime::DayBeforeYesterday
            } else if days <= 30 {
                RelativeTime::DaysAgo(days as i64)
            } else {
                RelativeTime::OnDate
            }
        }
    }

    /// The text of a description; `date` is the moment's calendar date.
    pub fn describe(&self, t: RelativeTime, date: &str) -> (r: String)
        requires
            t matches RelativeTime::MinutesAgo(n) ==> n >= 0,
            t matches RelativeTime::HoursAgo(n) ==> n >= 0,
            t matches RelativeTime::DaysAgo(n) ==> n >= 0,
        ensures
            r@ == relative_text(t, date@),
    {
        match t {
            RelativeTime::JustNow => String::from_str("刚刚"),
            RelativeTime::MinutesAgo(n) => decimal_text(n as u64).concat("分钟前"),
            RelativeTime::HoursAgo(n) => decimal_text(n as u64).concat("小时前"),
            RelativeTime::Yesterday => String::from_str("昨天"),
            RelativeTime::DayBeforeYesterday => String::from_str("前天"),
            RelativeTime::DaysAgo(n) => decimal_text(n as u64).concat("天前"),
            RelativeTime::OnDate => String::from_str(date),
        }
    }

    /// The description of `timestamp_secs` as seen at `now_secs`, given the
    /// moment's local date (`None`: the time cannot be represented, and the
    /// moment is "未知时间").
    pub fn format_relative_time_at(
        &self,
        now_secs: i64,
        timestamp_secs: i64,
        date: Option<String>,
    ) -> (r: String)
        ensures
            date is None ==> r@ == "未知时间"@,
            date matches Some(d) ==> r@ == relative_text(
                relative_of(now_secs - timestamp_secs),
                d@,
            ),
    {
        match date {
            None => String::from_str("未知时间"),
            Some(d) => {
                let t = self.relative_time(now_secs, timestamp_secs);
                self.describe(t, d.as_str())
            },
        }
    }

    /// The description of the Unix time `timestamp_secs` as seen now.
    pub fn format_relative_time(&self, timestamp_secs: i64) -> (r: String)
        ensures
            r@ == "未知时间"@ || exists|now: i64, d: Seq<char>|
                r@ == #[trigger] relative_text(relative_of(now - timestamp_secs), d),
    {
        let date = local_date_text(timestamp_secs);
        let now = unix_now();
        self.format_relative_time_at(now, timestamp_secs, date)
    }
}

} // verus!
