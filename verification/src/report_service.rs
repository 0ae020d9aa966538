//! The day's report: the minutes booked today, the minutes of the running
//! timer, and the day's work target.

use crate::clock::{
    days_in_month, in_chrono_range, is_near_day, local_calendar_day, minutes_between, minutes_between_exec,
    now_micros, weekday_of,
};
use crate::errors::{AppError, AppResult};
use crate::in_memory_active_timer_repository::InMemoryActiveTimerRepository;
use crate::in_memory_project_repository::InMemoryProjectRepository;
use crate::in_memory_task_repository::InMemoryTaskRepository;
use crate::in_memory_time_entry_repository::InMemoryTimeEntryRepository;
use crate::in_memory_user_settings_repository::InMemoryUserSettingsRepository;
use crate::types::{DailyTimer, LocalDate, TimeEntry, Weekday};
use crate::user_settings_service::{work_target, work_target_of};
use vstd::prelude::*;

verus! {

/// The minutes of an entry as the report counts them: the whole minutes from
/// start to end, rounded toward zero, kept modulo 2^32 as a `u32` (an entry
/// that ends before it starts counts as a very large number of minutes).
pub open spec fn entry_minutes(e: TimeEntry) -> u32 {
    minutes_between(e.start_time, e.end_time) as u32
}

/// The minutes of the entries whose end falls on `today`, where
/// `end_days[i]` is the calendar day on which `entries[i]` ends.
pub open spec fn minutes_on_day(entries: Seq<TimeEntry>, end_days: Seq<LocalDate>, today: LocalDate) -> nat
    decreases entries.len(),
{
    if entries.len() == 0 {
        0
    } else {
        let rest = minutes_on_day(entries.drop_last(), end_days.drop_last(), today);
        if end_days[entries.len() - 1] == today {
            rest + entry_minutes(entries.last()) as nat
        } else {
            rest
        }
    }
}

/// The minutes that the running timer has run at `now`, kept as a `u32`.
pub open spec fn timer_minutes(start_time: i64, now: i64) -> u32 {
    minutes_between(start_time, now) as u32
}

/// Whether every entry ends at a point in time that chrono represents.
pub open spec fn ends_in_range(entries: Seq<TimeEntry>) -> bool {
    forall|i: int| 0 <= i < entries.len() ==> in_chrono_range(#[trigger] entries[i].end_time)
}

/// Whether `end_days` can be the days on which the entries end in some time
/// zone: one date of the calendar per entry, each the UTC date of the entry's
/// end, the day before or the day after.
pub open spec fn are_end_days(entries: Seq<TimeEntry>, end_days: Seq<LocalDate>) -> bool {
    &&& end_days.len() == entries.len()
    &&& forall|i: int|
        0 <= i < end_days.len() ==> {
            &&& 1 <= (#[trigger] end_days[i]).month <= 12
            &&& 1 <= end_days[i].day <= days_in_month(end_days[i].year as int, end_days[i].month as int)
            &&& is_near_day(end_days[i], entries[i].end_time)
        }
}

/// The minutes booked, when they fit in a `u32`.
pub open spec fn fitting_minutes(minutes: nat) -> Option<u32> {
    if minutes <= u32::MAX {
        Some(minutes as u32)
    } else {
        None
    }
}

/// The minutes of a prefix of the entries are no more than those of all.
pub proof fn lemma_minutes_on_day_prefix(
    entries: Seq<TimeEntry>,
    end_days: Seq<LocalDate>,
    today: LocalDate,
    k: int,
)
    requires
        entries.len() == end_days.len(),
        0 <= k <= entries.len(),
    ensures
        minutes_on_day(entries.take(k), end_days.take(k), today) <= minutes_on_day(
            entries,
            end_days,
            today,
        ),
    decreases entries.len(),
{
    if k < entries.len() {
        lemma_minutes_on_day_prefix(entries.drop_last(), end_days.drop_last(), today, k);
        assert(entries.drop_last().take(k) =~= entries.take(k));
        assert(end_days.drop_last().take(k) =~= end_days.take(k));
    } else {
        assert(entries.take(k) =~= entries);
        assert(end_days.take(k) =~= end_days);
    }
}

/// The report, on the stores of the tracker.
pub struct ReportService {
    pub project_repository: InMemoryProjectRepository,
    pub task_repository: InMemoryTaskRepository,
    pub time_entry_repository: InMemoryTimeEntryRepository,
    pub active_timer_repository: InMemoryActiveTimerRepository,
    pub settings_repository: InMemoryUserSettingsRepository,
}

impl ReportService {
    pub fn new(
        project_repository: InMemoryProjectRepository,
        task_repository: InMemoryTaskRepository,
        time_entry_repository: InMemoryTimeEntryRepository,
        active_timer_repository: InMemoryActiveTimerRepository,
        settings_repository: InMemoryUserSettingsRepository,
    ) -> (r: Self)
        ensures
            r.project_repository@ == project_repository@,
            r.task_repository@ == task_repository@,
            r.time_entry_repository@ == time_entry_repository@,
            r.active_timer_repository@ == active_timer_repository@,
            r.settings_repository@ == settings_repository@,
    {
        ReportService {
            project_repository,
            task_repository,
            time_entry_repository,
            active_timer_repository,
            settings_repository,
        }
    }

    /// The report for the current day in the machine's time zone.
    ///
    /// The current day and the day on which each entry ends are read in the
    /// machine's time zone; the report is then the one `daily_work_time_at`
    /// gives for them: the minutes of the entries that end on the current day,
    /// the running timer's minutes and the target of the current day's
    /// weekday, or `InvalidTimeRange` when the minutes do not fit in a `u32`.
    /// Each day read is the UTC date of its point in time, the day before or
    /// the day after, as the machine's time zone has it.
    pub fn get_daily_work_time(&self) -> (r: AppResult<DailyTimer>)
        requires
            ends_in_range(self.time_entry_repository@),
        ensures
            exists|now: i64, today: LocalDate, end_days: Seq<LocalDate>|
                {
                    &&& in_chrono_range(now)
                    &&& is_near_day(today, now)
                    &&& are_end_days(self.time_entry_repository@, end_days)
                    &&& r == Self::spec_daily_work_time_at(self, now, today, weekday_of(today), end_days)
                },
    {
        let now = now_micros();
        let (today, weekday) = local_calendar_day(now);
        let end_days = self.entry_end_days();
        self.daily_work_time_at(now, today, weekday, &end_days)
    }

    /// The report at `now` on `today`, a day with the given weekday, where
    /// `end_days[i]` is the day on which the `i`-th entry ends.
    pub open spec fn spec_daily_work_time_at(
        &self,
        now: i64,
        today: LocalDate,
        weekday: Weekday,
        end_days: Seq<LocalDate>,
    ) -> AppResult<DailyTimer> {
        match fitting_minutes(minutes_on_day(self.time_entry_repository@, end_days, today)) {
            Some(_) => Ok(Self::spec_daily_timer(self, now, weekday, today, end_days)),
            None => Err(AppError::InvalidTimeRange),
        }
    }

    /// The report at `now` on `today`, a day with the given weekday, where
    /// `end_days[i]` is the day on which the `i`-th entry ends: the running
    /// timer's minutes, the minutes of the entries that end on `today` and the
    /// weekday's target; `InvalidTimeRange` when the minutes do not fit in a
    /// `u32`.
    pub fn daily_work_time_at(
        &self,
        now: i64,
        today: LocalDate,
        weekday: Weekday,
        end_days: &Vec<LocalDate>,
    ) -> (r: AppResult<DailyTimer>)
        requires
            end_days@.len() == self.time_entry_repository@.len(),
        ensures
            r == Self::spec_daily_work_time_at(self, now, today, weekday, end_days@),
    {
        match self.get_work_time_of_day(today, end_days) {
            Some(elapsed_time) => Ok(self.daily_timer(now, weekday, elapsed_time)),
            None => Err(AppError::InvalidTimeRange),
        }
    }

    /// The report at `now` on a day with the given weekday, given the minutes
    /// booked that day.
    pub open spec fn spec_daily_timer(
        &self,
        now: i64,
        weekday: Weekday,
        today: LocalDate,
        end_days: Seq<LocalDate>,
    ) -> DailyTimer {
        DailyTimer {
            currently_active_timer_elapsed_minutes: match self.active_timer_repository@ {
                Some(a) => Some(timer_minutes(a.start_time, now)),
                None => None,
            },
            elapsed_time_in_minutes: minutes_on_day(self.time_entry_repository@, end_days, today) as u32,
            time_target_in_minutes: work_target_of(self.settings_repository@, weekday),
        }
    }

    /// The report at `now` on a day with the given weekday, given the minutes
    /// booked that day: the running timer's minutes, the minutes booked, and
    /// the weekday's target.
    pub fn daily_timer(&self, now: i64, weekday: Weekday, elapsed_time: u32) -> (r: DailyTimer)
        ensures
            r.currently_active_timer_elapsed_minutes == (match self.active_timer_repository@ {
                Some(a) => Some(timer_minutes(a.start_time, now)),
                None => None::<u32>,
            }),
            r.elapsed_time_in_minutes == elapsed_time,
            r.time_target_in_minutes == work_target_of(self.settings_repository@, weekday),
    {
        let work_target_time = self.get_work_target_of_day(weekday);
        let active_time = self.get_currently_active_timer_elapsed_minutes(now);
        DailyTimer {
            currently_active_timer_elapsed_minutes: active_time,
            elapsed_time_in_minutes: elapsed_time,
            time_target_in_minutes: work_target_time,
        }
    }

    /// The work target of a weekday, from the settings.
    pub fn get_work_target_of_day(&self, weekday: Weekday) -> (r: u32)
        ensures
            r == work_target_of(self.settings_repository@, weekday),
    {
        let settings = self.settings_repository.get();
        work_target(&settings, weekday)
    }

    /// The minutes that the running timer has run at `now`, if one runs.
    pub fn get_currently_active_timer_elapsed_minutes(&self, now: i64) -> (r: Option<u32>)
        ensures
            r == (match self.active_timer_repository@ {
                Some(a) => Some(timer_minutes(a.start_time, now)),
                None => None::<u32>,
            }),
    {
        match self.active_timer_repository.get_active_timer() {
            None => None,
            Some(active_timer) => {
                let m = minutes_between_exec(active_timer.start_time, now);
                #[verifier::truncate]
                let elapsed_minutes = m as u32;
                Some(elapsed_minutes)
            },
        }
    }

    /// When the running timer started, if one runs.
    pub fn get_active_timer_start_time(&self) -> (r: AppResult<Option<i64>>)
        ensures
            r == Ok::<Option<i64>, AppError>(
                match self.active_timer_repository@ {
                    Some(a) => Some(a.start_time),
                    None => None,
                },
            ),
    {
        match self.active_timer_repository.get_active_timer() {
            None => Ok(None),
            Some(active_timer) => Ok(Some(active_timer.start_time)),
        }
    }

    /// The days on which the entries end in the machine's time zone, in the
    /// order of the entries.
    pub fn entry_end_days(&self) -> (r: Vec<LocalDate>)
        requires
            ends_in_range(self.time_entry_repository@),
        ensures
            are_end_days(self.time_entry_repository@, r@),
    {
        let entries = self.time_entry_repository.find_all();
        let mut end_days: Vec<LocalDate> = Vec::new();
        let mut i: usize = 0;
        while i < entries.len()
            invariant
                entries@ == self.time_entry_repository@,
                ends_in_range(entries@),
                0 <= i <= entries@.len(),
                are_end_days(entries@.take(i as int), end_days@),
            decreases entries@.len() - i,
        {
            assert(in_chrono_range(entries@[i as int].end_time));
            let (day, _) = local_calendar_day(entries[i].end_time);
            end_days.push(day);
            assert(entries@.take(i + 1).drop_last() =~= entries@.take(i as int));
            i += 1;
        }
        assert(entries@.take(entries@.len() as int) =~= entries@);
        end_days
    }

    /// The minutes of the entries that end on `today`, where `end_days[i]` is
    /// the day on which the `i`-th entry ends; `None` when they do not fit in
    /// a `u32`.
    pub fn get_work_time_of_day(&self, today: LocalDate, end_days: &Vec<LocalDate>) -> (r: Option<u32>)
        requires
            end_days@.len() == self.time_entry_repository@.len(),
        ensures
            r == fitting_minutes(minutes_on_day(self.time_entry_repository@, end_days@, today)),
    {
        let entries = self.time_entry_repository.find_all();
        let mut total: u64 = 0;
        let mut i: usize = 0;
        while i < entries.len()
            invariant
                entries@ == self.time_entry_repository@,
                end_days@.len() == entries@.len(),
                0 <= i <= entries@.len(),
                total == minutes_on_day(entries@.take(i as int), end_days@.take(i as int), today),
                total <= u32::MAX,
            decreases entries@.len() - i,
        {
            let e = entries[i];
            assert(entries@.take(i + 1).drop_last() =~= entries@.take(i as int));
            assert(end_days@.take(i + 1).drop_last() =~= end_days@.take(i as int));
            if end_days[i] == today {
                let m = minutes_between_exec(e.start_time, e.end_time);
                #[verifier::truncate]
                let em = m as u32;
                total = total + em as u64;
                if total > u32::MAX as u64 {
                    proof {
                        lemma_minutes_on_day_prefix(entries@, end_days@, today, i + 1);
                    }
                    return None;
                }
            }
            i += 1;
        }
        assert(entries@.take(entries@.len() as int) =~= entries@);
        assert(end_days@.take(end_days@.len() as int) =~= end_days@);
        Some(total as u32)
    }
}

} // verus!
