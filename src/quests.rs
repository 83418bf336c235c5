//! Weekly quests: generation once per ISO week, progress recomputation from
//! live data, expiry, and manual completion.

use crate::error::CoreError;
use crate::models::{Character, Habit, Quest, QuestStatus, QuestType, Task};
use crate::numtext::{decimal, push_decimal};
use crate::rewards::text_view;
use crate::text::{chars_of, has_substring, lower_of, lowercase, same_text, seq_contains};
use vstd::prelude::*;
use vstd::string::StringExecFns;

verus! {

/// Seconds in seven days: a quest's lifetime and the window that task quests count.
pub const WEEK_SECONDS: i64 = 604800;

/// Largest character level for which the growth quest's target fits an `i32`.
pub const MAX_GROWTH_LEVEL: i32 = 85899341;

/// ISO year and ISO week of a Unix timestamp, as chrono computes them;
/// `None` where chrono has no date for the timestamp.
pub uninterp spec fn iso_week_of(ts: i64) -> Option<(i32, u32)>;

/// Relies on `chrono::DateTime::from_timestamp` (no date out of its range),
/// on `Datelike::iso_week`, and on `IsoWeek::year` and `IsoWeek::week`, whose
/// week ranges from 1 to 53.
#[verifier::external_body]
fn iso_year_week(now: i64) -> (r: Option<(i32, u32)>)
    ensures
        r == iso_week_of(now),
        r matches Some((_, w)) ==> 1 <= w <= 53,
{
    match chrono::DateTime::from_timestamp(now, 0) {
        Some(t) => {
            let w = chrono::Datelike::iso_week(&t);
            Some((w.year(), w.week()))
        },
        None => None,
    }
}

/// The label `"{year}-{week:02}"` of an ISO week.
pub open spec fn week_label_text(year: i32, week: u32) -> Seq<char> {
    let y = if year < 0 {
        "-"@ + decimal((-year) as nat)
    } else {
        decimal(year as nat)
    };
    let w = if week < 10 {
        "0"@ + decimal(week as nat)
    } else {
        decimal(week as nat)
    };
    y + "-"@ + w
}

/// Label of the ISO week that holds `ts`, if chrono has a date for it.
pub open spec fn week_label_of(ts: i64) -> Option<Seq<char>> {
    match iso_week_of(ts) {
        Some((y, w)) => Some(week_label_text(y, w)),
        None => None,
    }
}

/// The label `"{year}-{week:02}"` of an ISO week.
pub fn week_label(year: i32, week: u32) -> (r: String)
    ensures
        r@ == week_label_text(year, week),
{
    let mut s = if year < 0 {
        let mut t = String::from_str("-");
        push_decimal(&mut t, (-(year as i64)) as u32);
        t
    } else {
        let mut t = String::new();
        push_decimal(&mut t, year as u32);
        t
    };
    s.append("-");
    if week < 10 {
        s.append("0");
    }
    push_decimal(&mut s, week);
    proof {
        assert(s@ =~= week_label_text(year, week));
    }
    s
}

/// Label of the ISO week that holds `now`.
pub fn current_week(now: i64) -> (r: Option<String>)
    ensures
        text_view(r) == week_label_of(now),
{
    match iso_year_week(now) {
        Some((y, w)) => Some(week_label(y, w)),
        None => None,
    }
}

/// A quest that weekly generation proposes.
#[derive(Clone, Copy, Debug, PartialEq, Eq, Structural)]
pub enum QuestPlan {
    /// Complete this many tasks.
    Tasks(i32),
    /// Keep up the habit at this index.
    Streak(usize),
    /// Gain experience; carries the character's level.
    Growth(i32),
    /// Complete tasks of the category with this index (see `category_word`).
    Specialist(u8),
}

/// The task categories, in priority order.
pub open spec fn category_word(k: int) -> Seq<char> {
    if k == 0 {
        "nauka"@
    } else if k == 1 {
        "sport"@
    } else if k == 2 {
        "praca"@
    } else {
        "projekt"@
    }
}

/// Title of the category quest.
pub open spec fn specialist_title(k: int) -> Seq<char> {
    if k == 0 {
        "Specjalista: NAUKA"@
    } else if k == 1 {
        "Specjalista: SPORT"@
    } else if k == 2 {
        "Specjalista: PRACA"@
    } else {
        "Specjalista: PROJEKT"@
    }
}

/// The first category, in priority order, that a lower-cased title mentions
/// (4 when none).
pub open spec fn category_index(t: Seq<char>) -> int {
    if has_substring(t, category_word(0)) {
        0
    } else if has_substring(t, category_word(1)) {
        1
    } else if has_substring(t, category_word(2)) {
        2
    } else if has_substring(t, category_word(3)) {
        3
    } else {
        4
    }
}

/// An incomplete task whose title mentions a category.
pub open spec fn tagged(t: Task) -> bool {
    !t.completed && category_index(lower_of(t.title@)) < 4
}

/// Index of the first tagged task among the first `n`.
pub open spec fn first_tagged(ts: Seq<Task>, n: int) -> Option<int>
    decreases n,
{
    if n <= 0 {
        None
    } else {
        let p = first_tagged(ts, n - 1);
        if p is Some {
            p
        } else if tagged(ts[n - 1]) {
            Some(n - 1)
        } else {
            None
        }
    }
}

/// Number of incomplete tasks among the first `n`.
pub open spec fn incomplete_count(ts: Seq<Task>, n: int) -> int
    decreases n,
{
    if n <= 0 {
        0
    } else {
        incomplete_count(ts, n - 1) + if ts[n - 1].completed {
            0int
        } else {
            1int
        }
    }
}

/// Index of the first habit with the highest streak among the first `n`.
pub open spec fn top_habit(hs: Seq<Habit>, n: int) -> Option<int>
    decreases n,
{
    if n <= 0 {
        None
    } else {
        let p = top_habit(hs, n - 1);
        if p is None || hs[p->0].current_streak < hs[n - 1].current_streak {
            Some(n - 1)
        } else {
            p
        }
    }
}

/// Some quest is already tagged with `week`.
pub open spec fn week_taken(existing: Seq<Quest>, week: Seq<char>) -> bool {
    exists|i: int| 0 <= i < existing.len() && #[trigger] existing[i].week@ == week
}

/// The quests that generation proposes for `week`, in order: tasks, habit
/// streak, growth, category. Nothing when the week already has quests.
pub open spec fn weekly_plan(
    existing: Seq<Quest>,
    tasks: Seq<Task>,
    habits: Seq<Habit>,
    character: Option<Character>,
    week: Seq<char>,
) -> Seq<QuestPlan> {
    if week_taken(existing, week) {
        seq![]
    } else {
        let open = incomplete_count(tasks, tasks.len() as int);
        let a = if open > 0 {
            seq![QuestPlan::Tasks(if open < 5 { open as i32 } else { 5i32 })]
        } else {
            seq![]
        };
        let top = top_habit(habits, habits.len() as int);
        let b = if top is Some && habits[top->0].current_streak >= 3 {
            seq![QuestPlan::Streak(top->0 as usize)]
        } else {
            seq![]
        };
        let c = match character {
            Some(ch) => seq![QuestPlan::Growth(ch.level)],
            None => seq![],
        };
        let tag = first_tagged(tasks, tasks.len() as int);
        let d = if tag is Some {
            seq![QuestPlan::Specialist(category_index(lower_of(tasks[tag->0].title@)) as u8)]
        } else {
            seq![]
        };
        a + b + c + d
    }
}

/// `q` is the new quest that plan `p` describes, made at `now` for `week`.
pub open spec fn realizes(q: Quest, p: QuestPlan, habits: Seq<Habit>, week: Seq<char>, now: i64) -> bool {
    &&& q.id == 0
    &&& q.current_progress == 0
    &&& q.status == QuestStatus::Active
    &&& q.deadline == Some((now + WEEK_SECONDS) as i64)
    &&& q.week@ == week
    &&& q.created_at == now
    &&& q.updated_at == now
    &&& match p {
        QuestPlan::Tasks(t) => {
            &&& q.title@ == "Tygodniowy Wykonawca"@
            &&& q.description@ == "Ukończ "@ + decimal(t as nat) + " zadań w tym tygodniu"@
            &&& q.quest_type == QuestType::Task
            &&& q.target_value == t
            &&& q.category is None
            &&& q.habit_id is None
            &&& q.reward_exp == 50
        },
        QuestPlan::Streak(i) => {
            &&& q.title@ == "Mistrz Konsekwencji"@
            &&& q.description@ == "Utrzymaj nawyk '"@ + habits[i as int].title@
                + "' przez cały tydzień (7 dni z rzędu)"@
            &&& q.quest_type == QuestType::Habit
            &&& q.target_value == 7
            &&& q.category is None
            &&& q.habit_id == Some(habits[i as int].id)
            &&& q.reward_exp == 75
        },
        QuestPlan::Growth(level) => {
            &&& q.title@ == "Tygodniowy Rozwój"@
            &&& q.description@ == "Zdobądź "@ + decimal((100 + 25 * level) as nat)
                + " punktów doświadczenia w tym tygodniu"@
            &&& q.quest_type == QuestType::Character
            &&& q.target_value == 100 + 25 * level
            &&& q.category is None
            &&& q.habit_id is None
            &&& q.reward_exp == 100
        },
        QuestPlan::Specialist(k) => {
            &&& q.title@ == specialist_title(k as int)
            &&& q.description@ == "Ukończ 3 zadania związane z kategorią '"@ + category_word(k as int)
                + "'"@
            &&& q.quest_type == QuestType::Task
            &&& q.target_value == 3
            &&& text_view(q.category) == Some(category_word(k as int))
            &&& q.habit_id is None
            &&& q.reward_exp == 60
        },
    }
}

/// Whether a quest is already tagged with `week`.
fn week_has_quests(existing: &Vec<Quest>, week: &str) -> (r: bool)
    ensures
        r == week_taken(existing@, week@),
{
    let n = existing.len();
    let mut i: usize = 0;
    while i < n
        invariant
            n == existing@.len(),
            i <= n,
            forall|k: int| 0 <= k < i ==> #[trigger] existing@[k].week@ != week@,
        decreases n - i,
    {
        if same_text(existing[i].week.as_str(), week) {
            return true;
        }
        i = i + 1;
    }
    false
}

/// Number of incomplete tasks.
fn count_incomplete(tasks: &Vec<Task>) -> (r: usize)
    ensures
        r == incomplete_count(tasks@, tasks@.len() as int),
{
    let n = tasks.len();
    let mut count: usize = 0;
    let mut i: usize = 0;
    while i < n
        invariant
            n == tasks@.len(),
            i <= n,
            count <= i,
            count == incomplete_count(tasks@, i as int),
        decreases n - i,
    {
        if !tasks[i].completed {
            count = count + 1;
        }
        i = i + 1;
    }
    count
}

/// Index of the first habit with the highest streak.
fn find_top_habit(habits: &Vec<Habit>) -> (r: Option<usize>)
    ensures
        r is Some <==> top_habit(habits@, habits@.len() as int) is Some,
        r is Some ==> top_habit(habits@, habits@.len() as int)->0 == r->0 && r->0 < habits@.len(),
{
    let n = habits.len();
    let mut best: Option<usize> = None;
    let mut i: usize = 0;
    while i < n
        invariant
            n == habits@.len(),
            i <= n,
            best is Some <==> top_habit(habits@, i as int) is Some,
            best is Some ==> top_habit(habits@, i as int)->0 == best->0 && best->0 < i,
        decreases n - i,
    {
        match best {
            Some(b) => {
                if habits[b].current_streak < habits[i].current_streak {
                    best = Some(i);
                }
            },
            None => {
                best = Some(i);
            },
        }
        i = i + 1;
    }
    best
}

/// The category index of an already lower-cased title (4 when it mentions none).
pub fn category_in(lowered: &str) -> (r: u8)
    ensures
        r == category_index(lowered@),
{
    let t = chars_of(lowered);
    let w0 = chars_of("nauka");
    let w1 = chars_of("sport");
    let w2 = chars_of("praca");
    let w3 = chars_of("projekt");
    if seq_contains(&t, &w0) {
        0
    } else if seq_contains(&t, &w1) {
        1
    } else if seq_contains(&t, &w2) {
        2
    } else if seq_contains(&t, &w3) {
        3
    } else {
        4
    }
}

/// The category index of a title, in any case.
fn title_category(title: &str) -> (r: u8)
    ensures
        r == category_index(lower_of(title@)),
{
    let lower = lowercase(title);
    category_in(lower.as_str())
}

/// The first incomplete task that mentions a category, with that category.
fn find_tagged_task(tasks: &Vec<Task>) -> (r: Option<(usize, u8)>)
    ensures
        r is Some <==> first_tagged(tasks@, tasks@.len() as int) is Some,
        r matches Some((i, k)) ==> (first_tagged(tasks@, tasks@.len() as int)->0 == i && i
            < tasks@.len() && k < 4 && k == category_index(lower_of(tasks@[i as int].title@))),
{
    let n = tasks.len();
    let mut i: usize = 0;
    while i < n
        invariant
            n == tasks@.len(),
            i <= n,
            first_tagged(tasks@, i as int) is None,
        decreases n - i,
    {
        if !tasks[i].completed {
            let k = title_category(tasks[i].title.as_str());
            if k < 4 {
                proof {
                    lemma_first_tagged_stays(tasks@, i as int + 1, n as int);
                }
                return Some((i, k));
            }
        }
        i = i + 1;
    }
    None
}

/// Once found, the first tagged task stays the first in longer prefixes.
proof fn lemma_first_tagged_stays(ts: Seq<Task>, m: int, n: int)
    requires
        0 <= m <= n,
        first_tagged(ts, m) is Some,
    ensures
        first_tagged(ts, n) == first_tagged(ts, m),
    decreases n - m,
{
    if m < n {
        lemma_first_tagged_stays(ts, m, n - 1);
    }
}

/// Builds the quest of a plan, made at `now` for `week`.
fn build_quest(plan: QuestPlan, habits: &Vec<Habit>, week: &str, now: i64) -> (q: Quest)
    requires
        now <= i64::MAX - WEEK_SECONDS,
        plan matches QuestPlan::Tasks(t) ==> 0 <= t,
        plan matches QuestPlan::Streak(i) ==> i < habits@.len(),
        plan matches QuestPlan::Growth(l) ==> 1 <= l <= MAX_GROWTH_LEVEL,
        plan matches QuestPlan::Specialist(k) ==> k < 4,
    ensures
        realizes(q, plan, habits@, week@, now),
{
    let deadline = Some(now + WEEK_SECONDS);
    match plan {
        QuestPlan::Tasks(t) => {
            let mut d = String::from_str("Ukończ ");
            push_decimal(&mut d, t as u32);
            d.append(" zadań w tym tygodniu");
            Quest::new(
                String::from_str("Tygodniowy Wykonawca"),
                d,
                QuestType::Task,
                t,
                None,
                None,
                50,
                deadline,
                String::from_str(week),
                now,
            )
        },
        QuestPlan::Streak(i) => {
            let mut d = String::from_str("Utrzymaj nawyk '");
            d.append(habits[i].title.as_str());
            d.append("' przez cały tydzień (7 dni z rzędu)");
            Quest::new(
                String::from_str("Mistrz Konsekwencji"),
                d,
                QuestType::Habit,
                7,
                None,
                Some(habits[i].id),
                75,
                deadline,
                String::from_str(week),
                now,
            )
        },
        QuestPlan::Growth(level) => {
            let target = 100 + level * 25;
            let mut d = String::from_str("Zdobądź ");
            push_decimal(&mut d, target as u32);
            d.append(" punktów doświadczenia w tym tygodniu");
            Quest::new(
                String::from_str("Tygodniowy Rozwój"),
                d,
                QuestType::Character,
                target,
                None,
                None,
                100,
                deadline,
                String::from_str(week),
                now,
            )
        },
        QuestPlan::Specialist(k) => {
            let (word, title) = if k == 0 {
                ("nauka", "Specjalista: NAUKA")
            } else if k == 1 {
                ("sport", "Specjalista: SPORT")
            } else if k == 2 {
                ("praca", "Specjalista: PRACA")
            } else {
                ("projekt", "Specjalista: PROJEKT")
            };
            let mut d = String::from_str("Ukończ 3 zadania związane z kategorią '");
            d.append(word);
            d.append("'");
            Quest::new(
                String::from_str(title),
                d,
                QuestType::Task,
                3,
                Some(String::from_str(word)),
                None,
                60,
                deadline,
                String::from_str(week),
                now,
            )
        },
    }
}

/// The quests for `week` from live data: at most one of each kind, in the
/// order of `weekly_plan`; none when the week already has quests.
pub fn plan_weekly_quests(
    existing: &Vec<Quest>,
    tasks: &Vec<Task>,
    habits: &Vec<Habit>,
    character: &Option<Character>,
    week: &str,
    now: i64,
) -> (r: Vec<Quest>)
    requires
        now <= i64::MAX - WEEK_SECONDS,
        character matches Some(c) ==> 1 <= c.level <= MAX_GROWTH_LEVEL,
    ensures
        r@.len() == weekly_plan(existing@, tasks@, habits@, *character, week@).len(),
        forall|i: int|
            0 <= i < r@.len() ==> realizes(
                #[trigger] r@[i],
                weekly_plan(existing@, tasks@, habits@, *character, week@)[i],
                habits@,
                week@,
                now,
            ),
{
    let mut out: Vec<Quest> = Vec::new();
    if week_has_quests(existing, week) {
        return out;
    }
    let ghost mut plan: Seq<QuestPlan> = seq![];
    let open = count_incomplete(tasks);
    if open > 0 {
        let target: i32 = if open < 5 {
            open as i32
        } else {
            5
        };
        let p = QuestPlan::Tasks(target);
        out.push(build_quest(p, habits, week, now));
        proof {
            plan = plan.push(p);
        }
    }
    let ghost a = plan;
    match find_top_habit(habits) {
        Some(i) => {
            if habits[i].current_streak >= 3 {
                let p = QuestPlan::Streak(i);
                out.push(build_quest(p, habits, week, now));
                proof {
                    plan = plan.push(p);
                }
            }
        },
        None => {},
    }
    let ghost b = plan;
    match character {
        Some(c) => {
            let p = QuestPlan::Growth(c.level);
            out.push(build_quest(p, habits, week, now));
            proof {
                plan = plan.push(p);
            }
        },
        None => {},
    }
    let ghost c = plan;
    match find_tagged_task(tasks) {
        Some((_, k)) => {
            let p = QuestPlan::Specialist(k);
            out.push(build_quest(p, habits, week, now));
            proof {
                plan = plan.push(p);
            }
        },
        None => {},
    }
    proof {
        assert(plan =~= weekly_plan(existing@, tasks@, habits@, *character, week@));
    }
    out
}

/// Weekly generation for the ISO week of `now`; a timestamp without a date
/// is refused. Nothing is proposed when the week already has quests.
pub fn generate_weekly_quests(
    existing: &Vec<Quest>,
    tasks: &Vec<Task>,
    habits: &Vec<Habit>,
    character: &Option<Character>,
    now: i64,
) -> (r: Result<Vec<Quest>, CoreError>)
    requires
        now <= i64::MAX - WEEK_SECONDS,
        character matches Some(c) ==> 1 <= c.level <= MAX_GROWTH_LEVEL,
    ensures
        week_label_of(now) is None ==> r == Err::<Vec<Quest>, CoreError>(CoreError::InvalidDate),
        week_label_of(now) matches Some(w) ==> (r matches Ok(v) && v@.len() == weekly_plan(
            existing@,
            tasks@,
            habits@,
            *character,
            w,
        ).len() && forall|i: int|
            0 <= i < v@.len() ==> realizes(
                #[trigger] v@[i],
                weekly_plan(existing@, tasks@, habits@, *character, w)[i],
                habits@,
                w,
                now,
            )),
{
    match current_week(now) {
        Some(week) => Ok(plan_weekly_quests(existing, tasks, habits, character, week.as_str(), now)),
        None => Err(CoreError::InvalidDate),
    }
}

/// Generation is idempotent within a week: once the quests of one run are
/// stored, a second run for the same week proposes none.
pub proof fn lemma_generation_idempotent(
    existing: Seq<Quest>,
    tasks: Seq<Task>,
    habits: Seq<Habit>,
    character: Option<Character>,
    week: Seq<char>,
    now: i64,
    made: Seq<Quest>,
)
    requires
        made.len() == weekly_plan(existing, tasks, habits, character, week).len(),
        forall|i: int|
            0 <= i < made.len() ==> realizes(
                #[trigger] made[i],
                weekly_plan(existing, tasks, habits, character, week)[i],
                habits,
                week,
                now,
            ),
    ensures
        weekly_plan(existing + made, tasks, habits, character, week).len() == 0,
{
    if made.len() == 0 {
        assert(existing + made =~= existing);
    } else {
        assert(realizes(made[0], weekly_plan(existing, tasks, habits, character, week)[0], habits, week, now));
        assert((existing + made)[existing.len() as int] == made[0]);
        assert(week_taken(existing + made, week));
    }
}

/// A task that a task quest counts: completed, updated within the week before
/// `now`, and with a category, its lower-cased title mentions the lower-cased
/// category.
pub open spec fn counts_for(t: Task, category: Option<Seq<char>>, now: i64) -> bool {
    &&& t.completed
    &&& t.updated_at >= now - WEEK_SECONDS
    &&& match category {
        Some(c) => has_substring(lower_of(t.title@), lower_of(c)),
        None => true,
    }
}

/// Number of counted tasks among the first `n`.
pub open spec fn counted_tasks(ts: Seq<Task>, category: Option<Seq<char>>, now: i64, n: int) -> int
    decreases n,
{
    if n <= 0 {
        0
    } else {
        counted_tasks(ts, category, now, n - 1) + if counts_for(ts[n - 1], category, now) {
            1int
        } else {
            0int
        }
    }
}

/// Index of the first habit with id `id` among the first `n`.
pub open spec fn habit_index(hs: Seq<Habit>, id: i32, n: int) -> Option<int>
    decreases n,
{
    if n <= 0 {
        None
    } else {
        let p = habit_index(hs, id, n - 1);
        if p is Some {
            p
        } else if hs[n - 1].id == id {
            Some(n - 1)
        } else {
            None
        }
    }
}

/// `e` saturated to the `i32` range.
pub open spec fn clamp_i32(e: int) -> int {
    if e > i32::MAX {
        i32::MAX as int
    } else if e < i32::MIN {
        i32::MIN as int
    } else {
        e
    }
}

/// Live progress of a quest: counted tasks for a task quest (saturated), the cached
/// streak of its habit for a habit quest (0 when there is none), and the
/// character's total experience for a growth quest.
pub open spec fn live_progress(q: Quest, ts: Seq<Task>, hs: Seq<Habit>, exp: i64, now: i64) -> int {
    match q.quest_type {
        QuestType::Task => clamp_i32(counted_tasks(ts, text_view(q.category), now, ts.len() as int)),
        QuestType::Habit => match q.habit_id {
            Some(id) => match habit_index(hs, id, hs.len() as int) {
                Some(i) => hs[i].current_streak as int,
                None => 0,
            },
            None => 0,
        },
        QuestType::Character => clamp_i32(exp as int),
    }
}

/// The quest after one recomputation: an Active quest of `week` whose live
/// progress differs takes it (and is Completed once it reaches its target);
/// every other quest is left as it is.
pub open spec fn refreshed(q: Quest, ts: Seq<Task>, hs: Seq<Habit>, exp: i64, week: Seq<char>, now: i64) -> Quest {
    if q.status == QuestStatus::Active && q.week@ == week {
        let p = live_progress(q, ts, hs, exp, now);
        if p != q.current_progress {
            q.progressed(p as i32, now)
        } else {
            q
        }
    } else {
        q
    }
}

/// The character after recomputing the first `i` quests in order: each quest
/// that becomes Completed awards its reward, best effort.
pub open spec fn character_after(
    qs: Seq<Quest>,
    ts: Seq<Task>,
    hs: Seq<Habit>,
    c0: Character,
    week: Seq<char>,
    now: i64,
    i: int,
) -> Character
    decreases i,
{
    if i <= 0 {
        c0
    } else {
        let c = character_after(qs, ts, hs, c0, week, now, i - 1);
        let q = qs[i - 1];
        let nq = refreshed(q, ts, hs, c.experience, week, now);
        if q.status == QuestStatus::Active && nq.status == QuestStatus::Completed {
            c.awarded(q.reward_exp, now)
        } else {
            c
        }
    }
}

/// The `k`-th quest after recomputation.
pub open spec fn refreshed_at(
    qs: Seq<Quest>,
    ts: Seq<Task>,
    hs: Seq<Habit>,
    c0: Character,
    week: Seq<char>,
    now: i64,
    k: int,
) -> Quest {
    refreshed(qs[k], ts, hs, character_after(qs, ts, hs, c0, week, now, k).experience, week, now)
}

/// The recomputed quests among the first `n` whose progress changed, in order.
pub open spec fn changed_quests(
    qs: Seq<Quest>,
    ts: Seq<Task>,
    hs: Seq<Habit>,
    c0: Character,
    week: Seq<char>,
    now: i64,
    n: int,
) -> Seq<Quest>
    decreases n,
{
    if n <= 0 {
        seq![]
    } else {
        let nq = refreshed_at(qs, ts, hs, c0, week, now, n - 1);
        changed_quests(qs, ts, hs, c0, week, now, n - 1) + if nq.current_progress != qs[n
            - 1].current_progress {
            seq![nq]
        } else {
            seq![]
        }
    }
}

/// Completed and Expired are final: recomputation leaves such a quest as it
/// is, whatever the tasks, habits and experience.
pub proof fn lemma_settled_quest_unchanged(
    q: Quest,
    ts: Seq<Task>,
    hs: Seq<Habit>,
    exp: i64,
    week: Seq<char>,
    now: i64,
)
    requires
        q.status == QuestStatus::Completed || q.status == QuestStatus::Expired,
    ensures
        refreshed(q, ts, hs, exp, week, now) == q,
{
}

/// Number of tasks that a task quest with `category` counts, saturated to
/// the `i32` range of a quest's progress.
fn count_tasks_for(tasks: &Vec<Task>, category: &Option<String>, now: i64) -> (r: i32)
    ensures
        r == clamp_i32(counted_tasks(tasks@, text_view(*category), now, tasks@.len() as int)),
{
    let lower_category = match category {
        Some(c) => Some(chars_of(lowercase(c.as_str()).as_str())),
        None => None,
    };
    let since: i128 = now as i128 - WEEK_SECONDS as i128;
    let n = tasks.len();
    let mut count: usize = 0;
    let mut i: usize = 0;
    while i < n
        invariant
            n == tasks@.len(),
            i <= n,
            since == now - WEEK_SECONDS,
            0 <= count <= i,
            count == counted_tasks(tasks@, text_view(*category), now, i as int),
            match *category {
                Some(c) => lower_category matches Some(lc) && lc@ == lower_of(c@),
                None => lower_category is None,
            },
        decreases n - i,
    {
        let t = &tasks[i];
        if t.completed && t.updated_at as i128 >= since {
            let hit = match &lower_category {
                Some(lc) => {
                    let title = chars_of(lowercase(t.title.as_str()).as_str());
                    seq_contains(&title, lc)
                },
                None => true,
            };
            if hit {
                count = count + 1;
            }
        }
        i = i + 1;
    }
    if count > i32::MAX as usize {
        i32::MAX
    } else {
        count as i32
    }
}

/// Cached streak of the habit with id `id` (0 when there is none).
fn streak_of_habit(habits: &Vec<Habit>, id: i32) -> (r: i32)
    ensures
        r == match habit_index(habits@, id, habits@.len() as int) {
            Some(i) => habits@[i].current_streak as int,
            None => 0,
        },
{
    let n = habits.len();
    let mut i: usize = 0;
    while i < n
        invariant
            n == habits@.len(),
            i <= n,
            habit_index(habits@, id, i as int) is None,
        decreases n - i,
    {
        if habits[i].id == id {
            proof {
                lemma_habit_index_stays(habits@, id, i as int + 1, n as int);
            }
            return habits[i].current_streak;
        }
        i = i + 1;
    }
    0
}

/// Once found, the first habit with an id stays the first in longer prefixes.
proof fn lemma_habit_index_stays(hs: Seq<Habit>, id: i32, m: int, n: int)
    requires
        0 <= m <= n,
        habit_index(hs, id, m) is Some,
    ensures
        habit_index(hs, id, n) == habit_index(hs, id, m),
    decreases n - m,
{
    if m < n {
        lemma_habit_index_stays(hs, id, m, n - 1);
    }
}

/// Live progress of `quest`.
pub fn quest_progress(quest: &Quest, tasks: &Vec<Task>, habits: &Vec<Habit>, experience: i64, now: i64) -> (r: i32)
    ensures
        r == live_progress(*quest, tasks@, habits@, experience, now),
{
    match quest.quest_type {
        QuestType::Task => count_tasks_for(tasks, &quest.category, now),
        QuestType::Habit => match quest.habit_id {
            Some(id) => streak_of_habit(habits, id),
            None => 0,
        },
        QuestType::Character => {
            if experience > i32::MAX as i64 {
                i32::MAX
            } else if experience < i32::MIN as i64 {
                i32::MIN
            } else {
                experience as i32
            }
        },
    }
}

/// Recomputes the progress of every Active quest of `week`, in order, from
/// live data; a quest that reaches its target is Completed and awards its
/// reward once (best effort). Returns the quests whose progress changed.
pub fn refresh_quest_progress(
    quests: &mut Vec<Quest>,
    tasks: &Vec<Task>,
    habits: &Vec<Habit>,
    character: &mut Character,
    week: &str,
    now: i64,
) -> (r: Vec<Quest>)
    ensures
        final(quests)@.len() == old(quests)@.len(),
        forall|k: int|
            0 <= k < old(quests)@.len() ==> #[trigger] final(quests)@[k] == refreshed_at(
                old(quests)@,
                tasks@,
                habits@,
                *old(character),
                week@,
                now,
                k,
            ),
        forall|k: int|
            0 <= k < old(quests)@.len() && old(quests)@[k].status != QuestStatus::Active
                ==> #[trigger] final(quests)@[k] == old(quests)@[k],
        *final(character) == character_after(
            old(quests)@,
            tasks@,
            habits@,
            *old(character),
            week@,
            now,
            old(quests)@.len() as int,
        ),
        r@ == changed_quests(
            old(quests)@,
            tasks@,
            habits@,
            *old(character),
            week@,
            now,
            old(quests)@.len() as int,
        ),
{
    let ghost qs = quests@;
    let ghost c0 = *character;
    let n = quests.len();
    let mut changed: Vec<Quest> = Vec::new();
    let mut i: usize = 0;
    while i < n
        invariant
            n == qs.len(),
            quests@.len() == n,
            i <= n,
            forall|k: int| 0 <= k < i ==> #[trigger] quests@[k] == refreshed_at(qs, tasks@, habits@, c0, week@, now, k),
            forall|k: int| i <= k < n ==> #[trigger] quests@[k] == qs[k],
            *character == character_after(qs, tasks@, habits@, c0, week@, now, i as int),
            changed@ == changed_quests(qs, tasks@, habits@, c0, week@, now, i as int),
        decreases n - i,
    {
        let ghost before = *character;
        if quests[i].status == QuestStatus::Active && same_text(quests[i].week.as_str(), week) {
            let progress = quest_progress(&quests[i], tasks, habits, character.experience, now);
            if progress != quests[i].current_progress {
                let mut q = quests[i].snapshot();
                q.update_progress(progress, now);
                if q.status == QuestStatus::Completed {
                    let _ = character.award_experience(q.reward_exp, now);
                }
                changed.push(q.snapshot());
                quests.set(i, q);
            }
        }
        proof {
            assert(changed@ =~= changed_quests(qs, tasks@, habits@, c0, week@, now, i as int + 1));
        }
        i = i + 1;
    }
    changed
}

/// Recomputes quest progress for the ISO week of `now` (see
/// `refresh_quest_progress`); a timestamp without a date is refused and
/// changes nothing.
pub fn update_all_quest_progress(
    quests: &mut Vec<Quest>,
    tasks: &Vec<Task>,
    habits: &Vec<Habit>,
    character: &mut Character,
    now: i64,
) -> (r: Result<Vec<Quest>, CoreError>)
    ensures
        week_label_of(now) is None ==> r == Err::<Vec<Quest>, CoreError>(CoreError::InvalidDate)
            && final(quests)@ == old(quests)@ && *final(character) == *old(character),
        week_label_of(now) matches Some(w) ==> (r matches Ok(v) && v@ == changed_quests(
            old(quests)@,
            tasks@,
            habits@,
            *old(character),
            w,
            now,
            old(quests)@.len() as int,
        ) && final(quests)@.len() == old(quests)@.len() && (forall|k: int|
            0 <= k < old(quests)@.len() ==> #[trigger] final(quests)@[k] == refreshed_at(
                old(quests)@,
                tasks@,
                habits@,
                *old(character),
                w,
                now,
                k,
            )) && *final(character) == character_after(
            old(quests)@,
            tasks@,
            habits@,
            *old(character),
            w,
            now,
            old(quests)@.len() as int,
        )),
        forall|k: int|
            0 <= k < old(quests)@.len() && old(quests)@[k].status != QuestStatus::Active
                ==> #[trigger] final(quests)@[k] == old(quests)@[k],
{
    match current_week(now) {
        Some(week) => Ok(refresh_quest_progress(quests, tasks, habits, character, week.as_str(), now)),
        None => Err(CoreError::InvalidDate),
    }
}

/// The quest once the expiry check runs at `now`: an Active quest whose
/// deadline has passed becomes Expired.
pub open spec fn expired(q: Quest, now: i64) -> Quest {
    if q.status == QuestStatus::Active && q.deadline is Some && q.deadline->0 < now {
        Quest { status: QuestStatus::Expired, updated_at: now, ..q }
    } else {
        q
    }
}

/// Number of quests among the first `n` that the expiry check changes.
pub open spec fn overdue_count(qs: Seq<Quest>, now: i64, n: int) -> int
    decreases n,
{
    if n <= 0 {
        0
    } else {
        overdue_count(qs, now, n - 1) + if expired(qs[n - 1], now) != qs[n - 1] {
            1int
        } else {
            0int
        }
    }
}

/// Marks every Active quest whose deadline has passed as Expired; returns how many.
pub fn expire_overdue_quests(quests: &mut Vec<Quest>, now: i64) -> (r: i32)
    requires
        old(quests)@.len() <= i32::MAX,
    ensures
        final(quests)@.len() == old(quests)@.len(),
        forall|k: int|
            0 <= k < old(quests)@.len() ==> #[trigger] final(quests)@[k] == expired(old(quests)@[k], now),
        r == overdue_count(old(quests)@, now, old(quests)@.len() as int),
{
    let ghost qs = quests@;
    let n = quests.len();
    let mut count: i32 = 0;
    let mut i: usize = 0;
    while i < n
        invariant
            n == qs.len(),
            n <= i32::MAX,
            quests@.len() == n,
            i <= n,
            0 <= count <= i,
            count == overdue_count(qs, now, i as int),
            forall|k: int| 0 <= k < i ==> #[trigger] quests@[k] == expired(qs[k], now),
            forall|k: int| i <= k < n ==> #[trigger] quests@[k] == qs[k],
        decreases n - i,
    {
        let overdue = match quests[i].deadline {
            Some(d) => quests[i].status == QuestStatus::Active && d < now,
            None => false,
        };
        if overdue {
            let mut q = quests[i].snapshot();
            q.mark_expired(now);
            quests.set(i, q);
            count = count + 1;
        }
        i = i + 1;
    }
    count
}

/// Index of the first quest with id `id` among the first `n`.
pub open spec fn quest_index(qs: Seq<Quest>, id: i32, n: int) -> Option<int>
    decreases n,
{
    if n <= 0 {
        None
    } else {
        let p = quest_index(qs, id, n - 1);
        if p is Some {
            p
        } else if qs[n - 1].id == id {
            Some(n - 1)
        } else {
            None
        }
    }
}

proof fn lemma_quest_index_stays(qs: Seq<Quest>, id: i32, m: int, n: int)
    requires
        0 <= m <= n,
        quest_index(qs, id, m) is Some,
    ensures
        quest_index(qs, id, n) == quest_index(qs, id, m),
    decreases n - m,
{
    if m < n {
        lemma_quest_index_stays(qs, id, m, n - 1);
    }
}

/// Index of the quest with id `id`.
fn find_quest(quests: &Vec<Quest>, id: i32) -> (r: Option<usize>)
    ensures
        r is Some <==> quest_index(quests@, id, quests@.len() as int) is Some,
        r is Some ==> quest_index(quests@, id, quests@.len() as int)->0 == r->0 && r->0 < quests@.len(),
{
    let n = quests.len();
    let mut i: usize = 0;
    while i < n
        invariant
            n == quests@.len(),
            i <= n,
            quest_index(quests@, id, i as int) is None,
        decreases n - i,
    {
        if quests[i].id == id {
            proof {
                lemma_quest_index_stays(quests@, id, i as int + 1, n as int);
            }
            return Some(i);
        }
        i = i + 1;
    }
    None
}

/// The quest once completed by hand at `now`: progress at its target, Completed.
pub open spec fn completed_by_hand(q: Quest, now: i64) -> Quest {
    Quest { current_progress: q.target_value, status: QuestStatus::Completed, updated_at: now, ..q }
}

/// Completes the quest with id `quest_id` by hand and awards its reward (best
/// effort). An unknown id, or a quest that is not Active, is refused and
/// changes nothing.
pub fn complete_quest(quests: &mut Vec<Quest>, quest_id: i32, character: &mut Character, now: i64) -> (r: Result<Quest, CoreError>)
    ensures
        quest_index(old(quests)@, quest_id, old(quests)@.len() as int) is None ==> r == Err::<
            Quest,
            CoreError,
        >(CoreError::NotFound) && final(quests)@ == old(quests)@ && *final(character) == *old(
            character,
        ),
        quest_index(old(quests)@, quest_id, old(quests)@.len() as int) matches Some(i) ==> ({
            let q = old(quests)@[i];
            if q.status != QuestStatus::Active {
                r == Err::<Quest, CoreError>(CoreError::QuestNotActive) && final(quests)@ == old(
                    quests,
                )@ && *final(character) == *old(character)
            } else {
                r == Ok::<Quest, CoreError>(completed_by_hand(q, now)) && final(quests)@ == old(
                    quests,
                )@.update(i, completed_by_hand(q, now)) && *final(character) == old(
                    character,
                ).awarded(q.reward_exp, now)
            }
        }),
{
    let i = match find_quest(quests, quest_id) {
        Some(i) => i,
        None => {
            return Err(CoreError::NotFound);
        },
    };
    if quests[i].status != QuestStatus::Active {
        return Err(CoreError::QuestNotActive);
    }
    let mut q = quests[i].snapshot();
    q.current_progress = q.target_value;
    q.status = QuestStatus::Completed;
    q.updated_at = now;
    let _ = character.award_experience(q.reward_exp, now);
    let done = q.snapshot();
    quests.set(i, q);
    Ok(done)
}

} // verus!
