//! Operations on tasks and habits that carry rules: title validation, task
//! toggling with its reward, and logging a habit entry (upsert, streak,
//! reward).

use crate::error::CoreError;
use crate::models::{
    Attribute, Character, CreateHabitEntryRequest, CreateHabitRequest, CreateTaskRequest, Habit, HabitEntry,
    Task, UpdateHabitRequest,
};
use crate::rewards::{
    can_reward, habit_attribute, habit_exp, process_habit_completion, process_task_completion,
    reward_fits, rewarded, task_attribute, task_exp,
};
use crate::streak::{
    calculate_streak, day_number_of, done_on, entry_days, entry_done, is_entry_completed,
    is_streak, latest_on, lemma_streak_exact, run_holds,
};
use crate::progression::level_of;
use crate::text::{lower_of, same_text};
use vstd::prelude::*;
use vstd::string::StrSliceExecFns;

verus! {

/// Longest task title, in characters.
pub const MAX_TASK_TITLE: usize = 100;

/// Longest habit title, in characters.
pub const MAX_HABIT_TITLE: usize = 50;

/// The Unicode `White_Space` property, the characters that `str::trim` strips.
pub open spec fn white_space(c: char) -> bool {
    let u = c as u32;
    (0x09 <= u <= 0x0d) || u == 0x20 || u == 0x85 || u == 0xa0 || u == 0x1680 || (0x2000 <= u
        <= 0x200a) || u == 0x2028 || u == 0x2029 || u == 0x202f || u == 0x205f || u == 0x3000
}

/// Whether `c` is Unicode white space.
pub fn is_white_space(c: char) -> (r: bool)
    ensures
        r == white_space(c),
{
    let u = c as u32;
    (0x09 <= u && u <= 0x0d) || u == 0x20 || u == 0x85 || u == 0xa0 || u == 0x1680 || (0x2000 <= u
        && u <= 0x200a) || u == 0x2028 || u == 0x2029 || u == 0x202f || u == 0x205f || u == 0x3000
}

/// A text that is empty once trimmed.
pub open spec fn blank(s: Seq<char>) -> bool {
    forall|i: int| 0 <= i < s.len() ==> white_space(#[trigger] s[i])
}

/// Whether `s` is empty once trimmed.
pub fn is_blank(s: &str) -> (r: bool)
    ensures
        r == blank(s@),
{
    let n = s.unicode_len();
    let mut i: usize = 0;
    while i < n
        invariant
            n == s@.len(),
            i <= n,
            forall|k: int| 0 <= k < i ==> white_space(#[trigger] s@[k]),
        decreases n - i,
    {
        if !is_white_space(s.get_char(i)) {
            return false;
        }
        i = i + 1;
    }
    true
}

/// A title is refused when it is blank, or longer than `max_chars` characters.
pub open spec fn title_check(title: Seq<char>, max_chars: usize) -> Result<(), CoreError> {
    if blank(title) {
        Err(CoreError::EmptyTitle)
    } else if title.len() > max_chars {
        Err(CoreError::TitleTooLong)
    } else {
        Ok(())
    }
}

/// Checks a title against `title_check`.
pub fn validate_title(title: &str, max_chars: usize) -> (r: Result<(), CoreError>)
    ensures
        r == title_check(title@, max_chars),
{
    if is_blank(title) {
        Err(CoreError::EmptyTitle)
    } else if title.unicode_len() > max_chars {
        Err(CoreError::TitleTooLong)
    } else {
        Ok(())
    }
}

/// A new task from a request, once its title passes validation.
pub fn add_task(request: CreateTaskRequest, now: i64) -> (r: Result<Task, CoreError>)
    ensures
        title_check(request.title@, MAX_TASK_TITLE) matches Err(e) ==> r == Err::<Task, CoreError>(e),
        title_check(request.title@, MAX_TASK_TITLE) is Ok ==> r == Ok::<Task, CoreError>(
            Task { id: 0, title: request.title, completed: false, created_at: now, updated_at: now },
        ),
{
    match validate_title(request.title.as_str(), MAX_TASK_TITLE) {
        Ok(()) => Ok(Task::new(request.title, now)),
        Err(e) => Err(e),
    }
}

/// A new habit from a request, once its title passes validation.
pub fn add_habit(request: CreateHabitRequest, now: i64) -> (r: Result<Habit, CoreError>)
    ensures
        title_check(request.title@, MAX_HABIT_TITLE) matches Err(e) ==> r == Err::<Habit, CoreError>(e),
        title_check(request.title@, MAX_HABIT_TITLE) is Ok ==> r == Ok::<Habit, CoreError>(
            Habit {
                id: 0,
                title: request.title,
                habit_type: request.habit_type,
                target_value: request.target_value,
                current_streak: 0,
                created_at: now,
                updated_at: now,
            },
        ),
{
    match validate_title(request.title.as_str(), MAX_HABIT_TITLE) {
        Ok(()) => Ok(Habit::new(request.title, request.habit_type, request.target_value, now)),
        Err(e) => Err(e),
    }
}

/// The habit after an update request whose title (if any) is valid.
pub open spec fn habit_updated(h: Habit, request: UpdateHabitRequest, now: i64) -> Habit {
    let h1 = match request.title {
        Some(t) => Habit { title: t, updated_at: now, ..h },
        None => h,
    };
    match request.target_value {
        Some(v) => Habit { target_value: Some(v), updated_at: now, ..h1 },
        None => h1,
    }
}

/// Applies an update request; a new title that fails validation is refused
/// and changes nothing.
pub fn update_habit(habit: &mut Habit, request: UpdateHabitRequest, now: i64) -> (r: Result<(), CoreError>)
    ensures
        request.title is Some && title_check(request.title->0@, MAX_HABIT_TITLE) is Err
            ==> r == title_check(request.title->0@, MAX_HABIT_TITLE) && *final(habit) == *old(habit),
        !(request.title is Some && title_check(request.title->0@, MAX_HABIT_TITLE) is Err)
            ==> r is Ok && *final(habit) == habit_updated(*old(habit), request, now),
{
    let UpdateHabitRequest { title, target_value } = request;
    match title {
        Some(t) => {
            match validate_title(t.as_str(), MAX_HABIT_TITLE) {
                Ok(()) => habit.update_title(t, now),
                Err(e) => {
                    return Err(e);
                },
            }
        },
        None => {},
    }
    match target_value {
        Some(v) => habit.update_target_value(Some(v), now),
        None => {},
    }
    Ok(())
}

/// Toggles a task. A task that becomes completed rewards the character
/// (15 experience, one point in the attribute of its title) where the reward
/// fits; the toggle stands either way. Tells whether the level rose.
pub fn toggle_task_status(task: &mut Task, character: &mut Character, now: i64) -> (leveled_up: bool)
    ensures
        *final(task) == (Task { completed: !old(task).completed, updated_at: now, ..*old(task) }),
        *final(character) == if !old(task).completed && reward_fits(*old(character)) {
            rewarded(*old(character), task_exp(false), task_attribute(lower_of(old(task).title@)), now)
        } else {
            *old(character)
        },
        leveled_up == (!old(task).completed && reward_fits(*old(character)) && old(character).level
            < final(character).level),
{
    let was_completed = task.completed;
    task.toggle_completed(now);
    if !was_completed && can_reward(character) {
        process_task_completion(character, task.title.as_str(), false, now)
    } else {
        false
    }
}

/// The entry that a request makes at `now`.
pub open spec fn requested_entry(request: CreateHabitEntryRequest, now: i64) -> HabitEntry {
    HabitEntry {
        id: 0,
        habit_id: request.habit_id,
        date: request.date,
        completed: match request.completed {
            Some(b) => b,
            None => false,
        },
        value: match request.value {
            Some(v) => v,
            None => 0,
        },
        created_at: now,
    }
}

/// Entries among the first `n` that another entry for the same habit and
/// date would not replace.
pub open spec fn kept_entries(es: Seq<HabitEntry>, e: HabitEntry, n: int) -> Seq<HabitEntry>
    decreases n,
{
    if n <= 0 {
        seq![]
    } else {
        let x = es[n - 1];
        kept_entries(es, e, n - 1) + if x.habit_id == e.habit_id && x.date@ == e.date@ {
            seq![]
        } else {
            seq![x]
        }
    }
}

/// The entries after writing `e`: an entry for the same habit and date is replaced.
pub open spec fn upserted(es: Seq<HabitEntry>, e: HabitEntry) -> Seq<HabitEntry> {
    kept_entries(es, e, es.len() as int).push(e)
}

proof fn lemma_kept_len(es: Seq<HabitEntry>, e: HabitEntry, n: int)
    requires
        0 <= n <= es.len(),
    ensures
        kept_entries(es, e, n).len() <= n,
    decreases n,
{
    if n > 0 {
        lemma_kept_len(es, e, n - 1);
    }
}

/// Writes `entry`, replacing an entry for the same habit and date.
pub fn upsert_entry(entries: &mut Vec<HabitEntry>, entry: HabitEntry)
    requires
        old(entries)@.len() < usize::MAX,
    ensures
        final(entries)@ == upserted(old(entries)@, entry),
{
    let ghost es = entries@;
    let n = entries.len();
    let mut kept: Vec<HabitEntry> = Vec::new();
    let mut i: usize = 0;
    while i < n
        invariant
            n == es.len(),
            entries@ == es,
            i <= n,
            kept@ == kept_entries(es, entry, i as int),
        decreases n - i,
    {
        let x = &entries[i];
        if !(x.habit_id == entry.habit_id && same_text(x.date.as_str(), entry.date.as_str())) {
            kept.push(x.snapshot());
        }
        proof {
            assert(kept@ =~= kept_entries(es, entry, i as int + 1));
        }
        i = i + 1;
    }
    kept.push(entry);
    *entries = kept;
}

/// Logs an entry for `habit` (whose entries are `entries`) and recomputes its
/// streak on the date `today`. An entry that satisfies the completion
/// predicate rewards the character where the reward fits. A request for
/// another habit is refused and changes nothing; a `today` that is no date is
/// refused after the entry is written.
pub fn add_habit_entry(
    habit: &mut Habit,
    entries: &mut Vec<HabitEntry>,
    request: CreateHabitEntryRequest,
    character: &mut Character,
    today: &str,
    now: i64,
) -> (r: Result<HabitEntry, CoreError>)
    requires
        old(entries)@.len() < i32::MAX,
    ensures
        old(habit).id != request.habit_id ==> r == Err::<HabitEntry, CoreError>(CoreError::NotFound)
            && *final(habit) == *old(habit) && final(entries)@ == old(entries)@
            && *final(character) == *old(character),
        old(habit).id == request.habit_id ==> final(entries)@ == upserted(
            old(entries)@,
            requested_entry(request, now),
        ),
        old(habit).id == request.habit_id && day_number_of(today@) is None ==> r == Err::<
            HabitEntry,
            CoreError,
        >(CoreError::InvalidDate) && *final(habit) == *old(habit) && *final(character) == *old(
            character,
        ),
        old(habit).id == request.habit_id && day_number_of(today@) is Some ==> ({
            let e = requested_entry(request, now);
            let s = final(habit).current_streak;
            &&& r == Ok::<HabitEntry, CoreError>(e)
            &&& is_streak(
                *old(habit),
                upserted(old(entries)@, e),
                entry_days(upserted(old(entries)@, e)),
                day_number_of(today@)->0 as int,
                s as int,
            )
            &&& *final(habit) == (Habit { current_streak: s, updated_at: now, ..*old(habit) })
            &&& *final(character) == if entry_done(*old(habit), e) && reward_fits(*old(character)) {
                rewarded(*old(character), habit_exp(s as int), habit_attribute(lower_of(old(habit).title@)), now)
            } else {
                *old(character)
            }
        }),
{
    if habit.id != request.habit_id {
        return Err(CoreError::NotFound);
    }
    let completed = match request.completed {
        Some(b) => b,
        None => false,
    };
    let value = match request.value {
        Some(v) => v,
        None => 0,
    };
    let entry = HabitEntry::new(request.habit_id, request.date, completed, value, now);
    let result = entry.snapshot();
    upsert_entry(entries, entry);
    proof {
        lemma_kept_len(old(entries)@, result, old(entries)@.len() as int);
    }
    let streak = match calculate_streak(habit, entries, today) {
        Ok(s) => s,
        Err(e) => {
            return Err(e);
        },
    };
    habit.update_streak(streak, now);
    if is_entry_completed(habit, &result) && can_reward(character) {
        let _ = process_habit_completion(character, habit.title.as_str(), streak, now);
    }
    Ok(result)
}

/// A habit's first entry, dated today and done, makes a streak of 1, whose
/// reward is the base 10 experience.
pub proof fn lemma_first_entry_streak(h: Habit, e: HabitEntry, today: Seq<char>, s: int)
    requires
        day_number_of(today) is Some,
        e.date@ == today,
        entry_done(h, e),
        is_streak(
            h,
            upserted(Seq::empty(), e),
            entry_days(upserted(Seq::empty(), e)),
            day_number_of(today)->0 as int,
            s,
        ),
    ensures
        s == 1,
        habit_exp(s) == 10,
{
    let es = upserted(Seq::empty(), e);
    let days = entry_days(es);
    let t = day_number_of(today)->0 as int;
    assert(es =~= seq![e]);
    assert(days[0] == day_number_of(today));
    assert(latest_on(es, days, t, 0) is None);
    assert(latest_on(es, days, t, 1) == Some(0int));
    assert(done_on(h, es, days, t));
    assert(run_holds(h, es, days, t, 1)) by {
        assert forall|j: int| 0 <= j < 1 implies #[trigger] done_on(h, es, days, t - j) by {
            assert(j == 0);
        }
    }
    assert(latest_on(es, days, t - 1, 0) is None);
    assert(latest_on(es, days, t - 1, 1) is None);
    assert(!done_on(h, es, days, t - 1));
    lemma_streak_exact(h, es, days, t, 1, s);
    assert(habit_exp(1) == 10) by (nonlinear_arith);
}

/// End to end: a habit's first entry, dated today and done, rewards the
/// character (where the reward fits) with 10 experience, and with one point
/// in the attribute that the habit's title points to, if any; the other
/// counters stay.
pub proof fn lemma_first_entry_reward(
    h: Habit,
    e: HabitEntry,
    today: Seq<char>,
    s: int,
    c: Character,
    now: i64,
)
    requires
        day_number_of(today) is Some,
        e.date@ == today,
        entry_done(h, e),
        is_streak(
            h,
            upserted(Seq::empty(), e),
            entry_days(upserted(Seq::empty(), e)),
            day_number_of(today)->0 as int,
            s,
        ),
        reward_fits(c),
    ensures
        s == 1,
        ({
            let after = rewarded(c, habit_exp(s), habit_attribute(lower_of(h.title@)), now);
            &&& after.experience == c.experience + 10
            &&& after.level == level_of(c.experience + 10) as i32
            &&& match habit_attribute(lower_of(h.title@)) {
                Some(a) => forall|b: Attribute|
                    #[trigger] after.attributes.get(b) == if b == a {
                        c.attributes.get(a) + 1
                    } else {
                        c.attributes.get(b) as int
                    },
                None => after.attributes == c.attributes,
            }
        }),
{
    lemma_first_entry_streak(h, e, today, s);
    let attr = habit_attribute(lower_of(h.title@));
    assert(rewarded(c, habit_exp(s), attr, now).experience == c.experience + 10);
    match attr {
        Some(a) => {
            assert(c.attributes.get(a) < i32::MAX);
            let after = rewarded(c, habit_exp(s), attr, now);
            assert forall|b: Attribute|
                #[trigger] after.attributes.get(b) == if b == a {
                    c.attributes.get(a) + 1
                } else {
                    c.attributes.get(b) as int
                } by {
                match a {
                    Attribute::Strength => {},
                    Attribute::Intelligence => {},
                    Attribute::Charisma => {},
                    Attribute::Dexterity => {},
                    Attribute::Wisdom => {},
                    Attribute::Constitution => {},
                }
                match b {
                    Attribute::Strength => {},
                    Attribute::Intelligence => {},
                    Attribute::Charisma => {},
                    Attribute::Dexterity => {},
                    Attribute::Wisdom => {},
                    Attribute::Constitution => {},
                }
            }
        },
        None => {},
    }
}

} // verus!
