//! Achievement badges: metrics from live data, the requirement check, bonus
//! experience, and the one-way promotion `Locked -> Available -> Earned`.

use crate::error::CoreError;
use crate::models::{
    Achievement, AchievementStatus, AchievementType, Character, Habit, Quest, QuestStatus, Task,
    status_rank,
};
use vstd::prelude::*;

verus! {

/// Live aggregates that badges are judged on (the level is read from the
/// character).
#[derive(Clone, Copy, Debug, PartialEq, Eq, Structural)]
pub struct AchievementMetrics {
    /// Longest current streak over all habits (0 without habits).
    pub max_habit_streak: i32,
    /// Number of completed tasks.
    pub completed_tasks: i32,
    /// Number of Completed quests.
    pub completed_quests: i32,
}

/// Highest cached streak among the first `n` habits (0 when `n` is 0).
pub open spec fn max_streak(hs: Seq<Habit>, n: int) -> int
    decreases n,
{
    if n <= 0 {
        0
    } else if n == 1 {
        hs[0].current_streak as int
    } else {
        let m = max_streak(hs, n - 1);
        if hs[n - 1].current_streak > m {
            hs[n - 1].current_streak as int
        } else {
            m
        }
    }
}

/// Completed tasks among the first `n`.
pub open spec fn completed_task_count(ts: Seq<Task>, n: int) -> int
    decreases n,
{
    if n <= 0 {
        0
    } else {
        completed_task_count(ts, n - 1) + if ts[n - 1].completed {
            1int
        } else {
            0int
        }
    }
}

/// Completed quests among the first `n`.
pub open spec fn completed_quest_count(qs: Seq<Quest>, n: int) -> int
    decreases n,
{
    if n <= 0 {
        0
    } else {
        completed_quest_count(qs, n - 1) + if qs[n - 1].status == QuestStatus::Completed {
            1int
        } else {
            0int
        }
    }
}

/// The measure of kind `t`.
pub open spec fn metric_value(m: AchievementMetrics, level: i32, t: AchievementType) -> int {
    match t {
        AchievementType::HabitStreak => m.max_habit_streak as int,
        AchievementType::TaskCount => m.completed_tasks as int,
        AchievementType::CharacterLevel => level as int,
        AchievementType::QuestCount => m.completed_quests as int,
    }
}

/// The badge's measure meets its required value.
pub open spec fn requirement_met(a: Achievement, m: AchievementMetrics, level: i32) -> bool {
    metric_value(m, level, a.achievement_type) >= a.required_value
}

/// Bonus experience for earning a badge: flat amounts for the canonical
/// thresholds, else a rate per unit of the required value.
pub open spec fn bonus_exp(a: Achievement) -> int {
    let v = a.required_value as int;
    match a.achievement_type {
        AchievementType::HabitStreak => if v == 7 {
            25
        } else if v == 30 {
            100
        } else if v == 90 {
            300
        } else if v == 150 {
            500
        } else if v == 230 {
            1000
        } else {
            v * 5
        },
        AchievementType::TaskCount => if v == 10 {
            50
        } else if v == 50 {
            200
        } else if v == 100 {
            500
        } else {
            v * 2
        },
        AchievementType::CharacterLevel => if v == 5 {
            150
        } else if v == 10 {
            400
        } else {
            v * 50
        },
        AchievementType::QuestCount => v * 25,
    }
}

/// The metrics of the given habits, tasks and quests.
pub fn compute_metrics(habits: &Vec<Habit>, tasks: &Vec<Task>, quests: &Vec<Quest>) -> (r: AchievementMetrics)
    requires
        tasks@.len() <= i32::MAX,
        quests@.len() <= i32::MAX,
    ensures
        r.max_habit_streak == max_streak(habits@, habits@.len() as int),
        r.completed_tasks == completed_task_count(tasks@, tasks@.len() as int),
        r.completed_quests == completed_quest_count(quests@, quests@.len() as int),
{
    let mut best: i32 = 0;
    let mut i: usize = 0;
    while i < habits.len()
        invariant
            i <= habits@.len(),
            best == max_streak(habits@, i as int),
        decreases habits@.len() - i,
    {
        if i == 0 || habits[i].current_streak > best {
            best = habits[i].current_streak;
        }
        i = i + 1;
    }
    let mut done_tasks: i32 = 0;
    let mut j: usize = 0;
    while j < tasks.len()
        invariant
            tasks@.len() <= i32::MAX,
            j <= tasks@.len(),
            0 <= done_tasks <= j,
            done_tasks == completed_task_count(tasks@, j as int),
        decreases tasks@.len() - j,
    {
        if tasks[j].completed {
            done_tasks = done_tasks + 1;
        }
        j = j + 1;
    }
    let mut done_quests: i32 = 0;
    let mut k: usize = 0;
    while k < quests.len()
        invariant
            quests@.len() <= i32::MAX,
            k <= quests@.len(),
            0 <= done_quests <= k,
            done_quests == completed_quest_count(quests@, k as int),
        decreases quests@.len() - k,
    {
        if quests[k].status == QuestStatus::Completed {
            done_quests = done_quests + 1;
        }
        k = k + 1;
    }
    AchievementMetrics { max_habit_streak: best, completed_tasks: done_tasks, completed_quests: done_quests }
}

/// Whether the badge's requirement holds for these metrics and level.
pub fn check_achievement_requirements(achievement: &Achievement, metrics: &AchievementMetrics, character_level: i32) -> (r: bool)
    ensures
        r == requirement_met(*achievement, *metrics, character_level),
{
    let value = match achievement.achievement_type {
        AchievementType::HabitStreak => metrics.max_habit_streak,
        AchievementType::TaskCount => metrics.completed_tasks,
        AchievementType::CharacterLevel => character_level,
        AchievementType::QuestCount => metrics.completed_quests,
    };
    value >= achievement.required_value
}

/// Bonus experience for earning the badge.
pub fn calculate_achievement_bonus_exp(achievement: &Achievement) -> (r: i64)
    ensures
        r == bonus_exp(*achievement),
{
    let v = achievement.required_value as i64;
    match achievement.achievement_type {
        AchievementType::HabitStreak => {
            if v == 7 {
                25
            } else if v == 30 {
                100
            } else if v == 90 {
                300
            } else if v == 150 {
                500
            } else if v == 230 {
                1000
            } else {
                v * 5
            }
        },
        AchievementType::TaskCount => {
            if v == 10 {
                50
            } else if v == 50 {
                200
            } else if v == 100 {
                500
            } else {
                v * 2
            }
        },
        AchievementType::CharacterLevel => {
            if v == 5 {
                150
            } else if v == 10 {
                400
            } else {
                v * 50
            }
        },
        AchievementType::QuestCount => v * 25,
    }
}

/// The character after the earning pass over the first `i` badges: each
/// Available badge whose requirement holds (at the level reached so far)
/// awards its bonus, best effort.
pub open spec fn character_after_earning(
    achs: Seq<Achievement>,
    m: AchievementMetrics,
    c0: Character,
    now: i64,
    i: int,
) -> Character
    decreases i,
{
    if i <= 0 {
        c0
    } else {
        let c = character_after_earning(achs, m, c0, now, i - 1);
        let a = achs[i - 1];
        if a.status == AchievementStatus::Available && requirement_met(a, m, c.level) {
            c.awarded(bonus_exp(a) as i64, now)
        } else {
            c
        }
    }
}

/// The `k`-th badge after one check: a Locked one whose requirement holds
/// (at the starting level) becomes Available; an Available one whose
/// requirement holds becomes Earned; an Earned one stays.
pub open spec fn checked_at(achs: Seq<Achievement>, m: AchievementMetrics, c0: Character, now: i64, k: int) -> Achievement {
    let a = achs[k];
    match a.status {
        AchievementStatus::Locked => if requirement_met(a, m, c0.level) {
            a.made_available(now)
        } else {
            a
        },
        AchievementStatus::Available => if requirement_met(
            a,
            m,
            character_after_earning(achs, m, c0, now, k).level,
        ) {
            a.earned(now)
        } else {
            a
        },
        AchievementStatus::Earned => a,
    }
}

/// Badges among the first `n` that one check moves from `from` to another status.
pub open spec fn promoted(
    achs: Seq<Achievement>,
    m: AchievementMetrics,
    c0: Character,
    now: i64,
    from: AchievementStatus,
    n: int,
) -> Seq<Achievement>
    decreases n,
{
    if n <= 0 {
        seq![]
    } else {
        let b = checked_at(achs, m, c0, now, n - 1);
        promoted(achs, m, c0, now, from, n - 1) + if achs[n - 1].status == from && b.status
            != from {
            seq![b]
        } else {
            seq![]
        }
    }
}

/// A badge's status never moves back, whatever the metrics: a check keeps or
/// advances it, and leaves an Earned badge as it is.
pub proof fn lemma_status_never_regresses(
    achs: Seq<Achievement>,
    m: AchievementMetrics,
    c0: Character,
    now: i64,
    k: int,
)
    requires
        0 <= k < achs.len(),
    ensures
        status_rank(checked_at(achs, m, c0, now, k).status) >= status_rank(achs[k].status),
        achs[k].status == AchievementStatus::Earned ==> checked_at(achs, m, c0, now, k) == achs[k],
        achs[k].earned_at is Some ==> checked_at(achs, m, c0, now, k).earned_at is Some,
{
}

/// One check of every badge: Locked ones whose requirement holds become
/// Available; Available ones whose requirement holds become Earned and award
/// their bonus (best effort). Returns the newly Available badges, then the
/// newly Earned ones, each in order.
pub fn check_and_update_achievements(
    achievements: &mut Vec<Achievement>,
    metrics: &AchievementMetrics,
    character: &mut Character,
    now: i64,
) -> (r: Vec<Achievement>)
    ensures
        final(achievements)@.len() == old(achievements)@.len(),
        forall|k: int|
            0 <= k < old(achievements)@.len() ==> #[trigger] final(achievements)@[k] == checked_at(
                old(achievements)@,
                *metrics,
                *old(character),
                now,
                k,
            ),
        forall|k: int|
            0 <= k < old(achievements)@.len() ==> status_rank(#[trigger] final(achievements)@[k].status)
                >= status_rank(old(achievements)@[k].status),
        forall|k: int|
            0 <= k < old(achievements)@.len() && old(achievements)@[k].status
                == AchievementStatus::Earned
                ==> #[trigger] final(achievements)@[k] == old(achievements)@[k],
        *final(character) == character_after_earning(
            old(achievements)@,
            *metrics,
            *old(character),
            now,
            old(achievements)@.len() as int,
        ),
        r@ == promoted(
            old(achievements)@,
            *metrics,
            *old(character),
            now,
            AchievementStatus::Locked,
            old(achievements)@.len() as int,
        ) + promoted(
            old(achievements)@,
            *metrics,
            *old(character),
            now,
            AchievementStatus::Available,
            old(achievements)@.len() as int,
        ),
{
    let ghost achs = achievements@;
    let ghost c0 = *character;
    let start_level = character.level;
    let n = achievements.len();
    let mut made_available: Vec<Achievement> = Vec::new();
    let mut earned: Vec<Achievement> = Vec::new();
    let mut i: usize = 0;
    while i < n
        invariant
            n == achs.len(),
            achievements@.len() == n,
            start_level == c0.level,
            i <= n,
            forall|k: int| 0 <= k < i ==> #[trigger] achievements@[k] == checked_at(achs, *metrics, c0, now, k),
            forall|k: int| i <= k < n ==> #[trigger] achievements@[k] == achs[k],
            *character == character_after_earning(achs, *metrics, c0, now, i as int),
            made_available@ == promoted(achs, *metrics, c0, now, AchievementStatus::Locked, i as int),
            earned@ == promoted(achs, *metrics, c0, now, AchievementStatus::Available, i as int),
        decreases n - i,
    {
        let status = achievements[i].status;
        if status == AchievementStatus::Locked {
            if check_achievement_requirements(&achievements[i], metrics, start_level) {
                let mut a = achievements[i].snapshot();
                a.make_available(now);
                made_available.push(a.snapshot());
                achievements.set(i, a);
            }
        } else if status == AchievementStatus::Available {
            if check_achievement_requirements(&achievements[i], metrics, character.level) {
                let mut a = achievements[i].snapshot();
                a.mark_earned(now);
                let bonus = calculate_achievement_bonus_exp(&a);
                let _ = character.award_experience(bonus, now);
                earned.push(a.snapshot());
                achievements.set(i, a);
            }
        }
        proof {
            assert(made_available@ =~= promoted(achs, *metrics, c0, now, AchievementStatus::Locked, i as int + 1));
            assert(earned@ =~= promoted(achs, *metrics, c0, now, AchievementStatus::Available, i as int + 1));
        }
        i = i + 1;
    }
    let ghost first = made_available@;
    let mut out = made_available;
    let mut j: usize = 0;
    while j < earned.len()
        invariant
            j <= earned@.len(),
            out@ == first + earned@.subrange(0, j as int),
        decreases earned@.len() - j,
    {
        out.push(earned[j].snapshot());
        proof {
            assert(out@ =~= first + earned@.subrange(0, j as int + 1));
        }
        j = j + 1;
    }
    proof {
        assert(earned@.subrange(0, earned@.len() as int) =~= earned@);
        assert forall|k: int| 0 <= k < n implies status_rank(#[trigger] achievements@[k].status) >= status_rank(achs[k].status) by {
            lemma_status_never_regresses(achs, *metrics, c0, now, k);
        }
    }
    out
}

/// Index of the first badge with id `id` among the first `n`.
pub open spec fn achievement_index(achs: Seq<Achievement>, id: i32, n: int) -> Option<int>
    decreases n,
{
    if n <= 0 {
        None
    } else {
        let p = achievement_index(achs, id, n - 1);
        if p is Some {
            p
        } else if achs[n - 1].id == id {
            Some(n - 1)
        } else {
            None
        }
    }
}

proof fn lemma_achievement_index_stays(achs: Seq<Achievement>, id: i32, m: int, n: int)
    requires
        0 <= m <= n,
        achievement_index(achs, id, m) is Some,
    ensures
        achievement_index(achs, id, n) == achievement_index(achs, id, m),
    decreases n - m,
{
    if m < n {
        lemma_achievement_index_stays(achs, id, m, n - 1);
    }
}

/// Earns the Available badge with id `achievement_id` by hand, re-checking
/// its requirement at the character's level, and awards its bonus (best
/// effort). Refused, changing nothing, for an unknown id, a badge that is not
/// Available, or a requirement that no longer holds.
pub fn earn_achievement(
    achievements: &mut Vec<Achievement>,
    achievement_id: i32,
    metrics: &AchievementMetrics,
    character: &mut Character,
    now: i64,
) -> (r: Result<Achievement, CoreError>)
    ensures
        achievement_index(old(achievements)@, achievement_id, old(achievements)@.len() as int) is None
            ==> r == Err::<Achievement, CoreError>(CoreError::NotFound)
            && final(achievements)@ == old(achievements)@
            && *final(character) == *old(character),
        achievement_index(old(achievements)@, achievement_id, old(achievements)@.len() as int) matches Some(i)
            ==> ({
            let a = old(achievements)@[i];
            if a.status != AchievementStatus::Available {
                r == Err::<Achievement, CoreError>(CoreError::AchievementNotAvailable)
                    && final(achievements)@ == old(achievements)@
                    && *final(character) == *old(character)
            } else if !requirement_met(a, *metrics, old(character).level) {
                r == Err::<Achievement, CoreError>(CoreError::RequirementNotMet)
                    && final(achievements)@ == old(achievements)@
                    && *final(character) == *old(character)
            } else {
                r == Ok::<Achievement, CoreError>(a.earned(now))
                    && final(achievements)@ == old(achievements)@.update(i, a.earned(now))
                    && *final(character) == old(character).awarded(bonus_exp(a) as i64, now)
            }
        }),
{
    let n = achievements.len();
    let mut i: usize = 0;
    while i < n
        invariant
            n == achievements@.len(),
            achievements@ == old(achievements)@,
            *character == *old(character),
            i <= n,
            achievement_index(achievements@, achievement_id, i as int) is None,
        decreases n - i,
    {
        if achievements[i].id == achievement_id {
            proof {
                lemma_achievement_index_stays(achievements@, achievement_id, i as int + 1, n as int);
            }
            if achievements[i].status != AchievementStatus::Available {
                return Err(CoreError::AchievementNotAvailable);
            }
            if !check_achievement_requirements(&achievements[i], metrics, character.level) {
                return Err(CoreError::RequirementNotMet);
            }
            let mut a = achievements[i].snapshot();
            a.mark_earned(now);
            let bonus = calculate_achievement_bonus_exp(&a);
            let _ = character.award_experience(bonus, now);
            let done = a.snapshot();
            achievements.set(i, a);
            return Ok(done);
        }
        i = i + 1;
    }
    Err(CoreError::NotFound)
}

/// Badges among the first `n` with status `s`.
pub open spec fn status_count(achs: Seq<Achievement>, s: AchievementStatus, n: int) -> int
    decreases n,
{
    if n <= 0 {
        0
    } else {
        status_count(achs, s, n - 1) + if achs[n - 1].status == s {
            1int
        } else {
            0int
        }
    }
}

/// How many badges are Earned, Available and Locked.
pub fn get_achievement_stats(achievements: &Vec<Achievement>) -> (r: (i32, i32, i32))
    requires
        achievements@.len() <= i32::MAX,
    ensures
        r.0 == status_count(achievements@, AchievementStatus::Earned, achievements@.len() as int),
        r.1 == status_count(achievements@, AchievementStatus::Available, achievements@.len() as int),
        r.2 == status_count(achievements@, AchievementStatus::Locked, achievements@.len() as int),
{
    let n = achievements.len();
    let mut earned: i32 = 0;
    let mut available: i32 = 0;
    let mut locked: i32 = 0;
    let mut i: usize = 0;
    while i < n
        invariant
            n == achievements@.len(),
            n <= i32::MAX,
            i <= n,
            0 <= earned && 0 <= available && 0 <= locked && earned + available + locked == i,
            earned == status_count(achievements@, AchievementStatus::Earned, i as int),
            available == status_count(achievements@, AchievementStatus::Available, i as int),
            locked == status_count(achievements@, AchievementStatus::Locked, i as int),
        decreases n - i,
    {
        match achievements[i].status {
            AchievementStatus::Earned => earned = earned + 1,
            AchievementStatus::Available => available = available + 1,
            AchievementStatus::Locked => locked = locked + 1,
        }
        i = i + 1;
    }
    (earned, available, locked)
}

} // verus!
