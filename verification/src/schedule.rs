use vstd::prelude::*;

verus! {

/// Whether `cron`'s parser accepts the expression: six or seven
/// whitespace-separated cron fields, seconds first. Determined by the text
/// alone.
pub uninterp spec fn expression_accepted(expr: Seq<char>) -> bool;

/// The next fire time that the cron expression `expr` yields strictly after
/// the instant `now` (both in milliseconds since the Unix epoch), or `None`
/// when no future fire time exists or the instant lies outside the calendar
/// range the schedule can represent. Determined by the expression and the
/// instant alone.
pub uninterp spec fn next_fire_after(expr: Seq<char>, now: int) -> Option<int>;

#[verifier::external_type_specification]
#[verifier::external_body]
pub struct ExCronSchedule(cron::Schedule);

/// The first instant, in milliseconds since the Unix epoch, too close to
/// the end of chrono's calendar (December of year 262142) for a next-fire
/// query: one second below the calendar's last representable millisecond.
/// Fire-time queries admit only instants strictly below it, because the
/// cron iterator begins one second past the queried instant, and chrono
/// refuses to step outside its calendar.
pub const INSTANT_LIMIT_MS: i64 = 8_210_266_876_799_000;

/// The expression did not parse as a cron schedule.
#[derive(Debug, PartialEq, Eq)]
pub struct ScheduleParseError;

/// A recurrence rule: a parsed cron expression with seconds granularity,
/// able to name the next instant at which a job fires.
///
/// A schedule is modelled by the expression it was parsed from; the parsed
/// form is kept beside it and, since [`CronSchedule::parse`] is the only
/// constructor, is always the parse of that very expression.
pub struct CronSchedule {
    expr: String,
    parsed: cron::Schedule,
}

impl View for CronSchedule {
    type V = Seq<char>;

    closed spec fn view(&self) -> Seq<char> {
        self.expr@
    }
}

impl CronSchedule {
    /// Parse a cron expression into a schedule.
    ///
    /// Relies on `cron::Schedule::from_str`: parsing succeeds exactly on
    /// the expressions the cron grammar accepts, deterministically in the
    /// expression text, and the schedule built here keeps that text.
    #[verifier::external_body]
    pub fn parse(expr: &str) -> (r: Result<CronSchedule, ScheduleParseError>)
        ensures
            (r is Ok) == expression_accepted(expr@),
            r matches Ok(s) ==> s@ == expr@,
    {
        match <cron::Schedule as core::str::FromStr>::from_str(expr) {
            Ok(parsed) => Ok(CronSchedule { expr: expr.to_string(), parsed }),
            Err(_) => Err(ScheduleParseError),
        }
    }

    /// The next fire time strictly after the instant `now`, in milliseconds
    /// since the Unix epoch.
    ///
    /// Relies on `cron::Schedule::after` and its iterator: the fire times
    /// after an instant are determined by the expression and the instant
    /// alone; `None` comes back when the schedule yields no further time or
    /// `now` falls outside chrono's calendar range. Instants in the last
    /// second of that range are not admitted: the iterator steps one second
    /// past `now` before searching, and chrono's date arithmetic does not
    /// leave the calendar.
    #[verifier::external_body]
    pub fn next_fire(&self, now: i64) -> (r: Option<i64>)
        requires
            now < INSTANT_LIMIT_MS,
        ensures
            r matches Some(t) ==> next_fire_after(self@, now as int) == Some(t as int),
            r is None ==> next_fire_after(self@, now as int) is None,
    {
        match chrono::DateTime::<chrono::Utc>::from_timestamp_millis(now) {
            Some(instant) => self.parsed.after(&instant).next().map(|t| t.timestamp_millis()),
            None => None,
        }
    }
}

/// The current time in milliseconds since the Unix epoch.
///
/// Relies on `chrono::Utc::now`. Nothing is assumed of the value.
#[verifier::external_body]
pub fn now_ms() -> i64 {
    chrono::Utc::now().timestamp_millis()
}

} // verus!
