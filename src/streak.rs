//! Habit streaks: consecutive days, walking back from today, on which the
//! habit's completion predicate holds.

use crate::error::CoreError;
use crate::models::{Habit, HabitEntry, HabitType};
use vstd::prelude::*;
use vstd::set_lib::{lemma_int_range, lemma_len_subset, set_int_range};

verus! {

/// Day number (days from 0001-01-01, that day being 1) of a `YYYY-MM-DD`
/// date, as chrono reads it; `None` where it is no such date.
pub uninterp spec fn day_number_of(s: Seq<char>) -> Option<i64>;

/// Relies on `chrono::NaiveDate::parse_from_str` with format `%Y-%m-%d` and on
/// `Datelike::num_days_from_ce`, which returns an `i32`.
#[verifier::external_body]
fn parse_day(date: &str) -> (r: Option<i64>)
    ensures
        r == day_number_of(date@),
        r matches Some(d) ==> i32::MIN <= d <= i32::MAX,
{
    match chrono::NaiveDate::parse_from_str(date, "%Y-%m-%d") {
        Ok(d) => Some(chrono::Datelike::num_days_from_ce(&d) as i64),
        Err(_) => None,
    }
}

/// The completion predicate: the flag for a Boolean habit; for a Counter
/// habit, `value >= target`, or `value > 0` without a target.
pub open spec fn entry_done(h: Habit, e: HabitEntry) -> bool {
    match h.habit_type {
        HabitType::Boolean => e.completed,
        HabitType::Counter => match h.target_value {
            Some(t) => e.value >= t,
            None => e.value > 0,
        },
    }
}

/// Whether `entry` counts as done for `habit`.
pub fn is_entry_completed(habit: &Habit, entry: &HabitEntry) -> (r: bool)
    ensures
        r == entry_done(*habit, *entry),
{
    match habit.habit_type {
        HabitType::Boolean => entry.completed,
        HabitType::Counter => match habit.target_value {
            Some(t) => entry.value >= t,
            None => entry.value > 0,
        },
    }
}

/// Day numbers of the entries' dates.
pub open spec fn entry_days(es: Seq<HabitEntry>) -> Seq<Option<i64>> {
    Seq::new(es.len(), |i: int| day_number_of(es[i].date@))
}

/// Index of the authoritative entry for `day` among the first `n`, where
/// `days[i]` is the day of entry `i`: the one with the greatest `created_at`,
/// the later one on a tie.
pub open spec fn latest_on(es: Seq<HabitEntry>, days: Seq<Option<i64>>, day: int, n: int) -> Option<int>
    decreases n,
{
    if n <= 0 {
        None
    } else {
        let prev = latest_on(es, days, day, n - 1);
        let e = es[n - 1];
        if days[n - 1] is Some && days[n - 1]->0 as int == day && (prev is Some ==> es[prev->0].created_at
            <= e.created_at) {
            Some(n - 1)
        } else {
            prev
        }
    }
}

/// The habit counts as done on `day`.
pub open spec fn done_on(h: Habit, es: Seq<HabitEntry>, days: Seq<Option<i64>>, day: int) -> bool {
    match latest_on(es, days, day, es.len() as int) {
        Some(i) => entry_done(h, es[i]),
        None => false,
    }
}

/// The habit is done on each of the `k` days ending with `today`.
pub open spec fn run_holds(h: Habit, es: Seq<HabitEntry>, days: Seq<Option<i64>>, today: int, k: int) -> bool {
    forall|j: int| 0 <= j < k ==> #[trigger] done_on(h, es, days, today - j)
}

/// `k` is the streak on `today`: done on the `k` days up to today, not done
/// (or not logged) on the day before them.
pub open spec fn is_streak(h: Habit, es: Seq<HabitEntry>, days: Seq<Option<i64>>, today: int, k: int) -> bool {
    &&& 0 <= k
    &&& run_holds(h, es, days, today, k)
    &&& !done_on(h, es, days, today - k)
}

proof fn lemma_latest_on(es: Seq<HabitEntry>, days: Seq<Option<i64>>, day: int, n: int)
    requires
        n <= es.len(),
    ensures
        latest_on(es, days, day, n) is Some ==> 0 <= latest_on(es, days, day, n)->0 < n
            && days[latest_on(es, days, day, n)->0] is Some
            && days[latest_on(es, days, day, n)->0]->0 as int == day,
    decreases n,
{
    if n > 0 {
        lemma_latest_on(es, days, day, n - 1);
    }
}

/// A run of `n` done days ending today, followed by a day that is missing or
/// not done, makes the streak exactly `n`.
pub proof fn lemma_streak_exact(
    h: Habit,
    es: Seq<HabitEntry>,
    days: Seq<Option<i64>>,
    today: int,
    n: int,
    r: int,
)
    requires
        is_streak(h, es, days, today, r),
        0 <= n,
        run_holds(h, es, days, today, n),
        !done_on(h, es, days, today - n),
    ensures
        r == n,
{
    if r < n {
        assert(done_on(h, es, days, today - r));
    } else if r > n {
        assert(done_on(h, es, days, today - n));
    }
}

/// A day at distance `k` from today that is missing or not done caps the
/// streak at `k`.
pub proof fn lemma_streak_capped(
    h: Habit,
    es: Seq<HabitEntry>,
    days: Seq<Option<i64>>,
    today: int,
    k: int,
    r: int,
)
    requires
        is_streak(h, es, days, today, r),
        0 <= k,
        !done_on(h, es, days, today - k),
    ensures
        r <= k,
{
    if r > k {
        assert(done_on(h, es, days, today - k));
    }
}

/// Index of the authoritative entry for `day`.
fn latest_entry_on(entries: &Vec<HabitEntry>, days: &Vec<Option<i64>>, day: i128) -> (r: Option<usize>)
    requires
        days@.len() == entries@.len(),
    ensures
        r is Some ==> latest_on(entries@, days@, day as int, entries@.len() as int) == Some(r->0 as int),
        r is None ==> latest_on(entries@, days@, day as int, entries@.len() as int) is None,
{
    let n = entries.len();
    let mut best: Option<usize> = None;
    let mut i: usize = 0;
    while i < n
        invariant
            n == entries@.len(),
            days@.len() == n,
            i <= n,
            best is Some ==> best->0 < i && latest_on(entries@, days@, day as int, i as int) == Some(
                best->0 as int,
            ),
            best is None ==> latest_on(entries@, days@, day as int, i as int) is None,
        decreases n - i,
    {
        let on_day = match days[i] {
            Some(d) => d as i128 == day,
            None => false,
        };
        if on_day {
            match best {
                Some(b) => {
                    if entries[b].created_at <= entries[i].created_at {
                        best = Some(i);
                    }
                },
                None => {
                    best = Some(i);
                },
            }
        }
        i = i + 1;
    }
    best
}

/// Streak on day number `today`, where `days[i]` is the day number of entry
/// `i` (`None` for an entry whose date is no date).
pub fn streak_from_days(habit: &Habit, entries: &Vec<HabitEntry>, days: &Vec<Option<i64>>, today: i64) -> (r: i32)
    requires
        days@.len() == entries@.len(),
        entries@.len() <= i32::MAX,
    ensures
        is_streak(*habit, entries@, days@, today as int, r as int),
{
    let n = entries.len();
    let ghost es = entries@;
    let ghost seen: Set<int> = Set::empty();
    let mut streak: i32 = 0;
    loop
        invariant
            n == es.len(),
            es == entries@,
            days@.len() == n,
            n <= i32::MAX,
            0 <= streak <= n,
            run_holds(*habit, es, days@, today as int, streak as int),
            seen.finite(),
            seen.len() == streak,
            forall|x: int| #[trigger]
                seen.contains(x) ==> 0 <= x < n && days@[x] is Some && today - streak < days@[x]->0
                    <= today,
        decreases n - streak,
    {
        let day: i128 = today as i128 - streak as i128;
        let found = latest_entry_on(entries, days, day);
        let idx = match found {
            Some(x) => x,
            None => {
                return streak;
            },
        };
        proof {
            lemma_latest_on(es, days@, day as int, n as int);
        }
        if !is_entry_completed(habit, &entries[idx]) {
            return streak;
        }
        proof {
            assert(!seen.contains(idx as int));
            let grown = seen.insert(idx as int);
            lemma_int_range(0, n as int);
            assert(grown.subset_of(set_int_range(0, n as int)));
            lemma_len_subset(grown, set_int_range(0, n as int));
            assert forall|j: int| 0 <= j < streak + 1 implies #[trigger] done_on(
                *habit,
                es,
                days@,
                today - j,
            ) by {
                if j < streak {
                    assert(done_on(*habit, es, days@, today - j));
                }
            }
            seen = grown;
        }
        streak = streak + 1;
    }
}

/// Current streak of `habit` on the date `today` (`YYYY-MM-DD`). No entries
/// make a streak of 0; a `today` that is no date is refused.
pub fn calculate_streak(habit: &Habit, entries: &Vec<HabitEntry>, today: &str) -> (r: Result<i32, CoreError>)
    requires
        entries@.len() <= i32::MAX,
    ensures
        entries@.len() == 0 ==> r == Ok::<i32, CoreError>(0),
        entries@.len() > 0 && day_number_of(today@) is None ==> r == Err::<i32, CoreError>(
            CoreError::InvalidDate,
        ),
        entries@.len() > 0 && day_number_of(today@) is Some ==> r is Ok && is_streak(
            *habit,
            entries@,
            entry_days(entries@),
            day_number_of(today@)->0 as int,
            r->Ok_0 as int,
        ),
{
    let n = entries.len();
    if n == 0 {
        return Ok(0);
    }
    let t = match parse_day(today) {
        Some(d) => d,
        None => {
            return Err(CoreError::InvalidDate);
        },
    };
    let mut days: Vec<Option<i64>> = Vec::new();
    let mut i: usize = 0;
    while i < n
        invariant
            n == entries@.len(),
            i <= n,
            days@.len() == i,
            forall|k: int| 0 <= k < i ==> days@[k] == day_number_of(#[trigger] entries@[k].date@),
        decreases n - i,
    {
        days.push(parse_day(entries[i].date.as_str()));
        i = i + 1;
    }
    assert(days@ =~= entry_days(entries@));
    Ok(streak_from_days(habit, entries, &days, t))
}

} // verus!
