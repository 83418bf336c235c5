use pdrpg::error::CoreError;
use pdrpg::models::{
    Character, CharacterClass, Habit, HabitType, Quest, QuestStatus, QuestType, Task,
};
use pdrpg::quests::{
    category_in, complete_quest, current_week, week_label, expire_overdue_quests, generate_weekly_quests, plan_weekly_quests,
    quest_progress, refresh_quest_progress, update_all_quest_progress, WEEK_SECONDS,
};

// 2025-01-20 00:00:00 UTC, a Monday in ISO week 2025-04.
const NOW: i64 = 1_737_331_200;

fn task(title: &str, completed: bool, updated_at: i64) -> Task {
    Task { id: 0, title: title.to_string(), completed, created_at: 0, updated_at }
}

fn habit(id: i32, title: &str, streak: i32) -> Habit {
    Habit {
        id,
        title: title.to_string(),
        habit_type: HabitType::Boolean,
        target_value: None,
        current_streak: streak,
        created_at: 0,
        updated_at: 0,
    }
}

fn quest(quest_type: QuestType, target: i32, week: &str) -> Quest {
    Quest::new(
        "q".to_string(),
        "d".to_string(),
        quest_type,
        target,
        None,
        None,
        50,
        Some(NOW + WEEK_SECONDS),
        week.to_string(),
        NOW,
    )
}

#[test]
fn generation_proposes_four_quests() {
    let tasks = vec![
        task("Zakupy", false, 0),
        task("Nauka Rust", false, 0),
        task("Sport", false, 0),
        task("Zrobione", true, 0),
    ];
    let habits = vec![habit(3, "Medytacja", 2), habit(7, "Bieganie", 4), habit(9, "Woda", 4)];
    let character = Some(Character::new(CharacterClass::Mage, 0));
    let made = plan_weekly_quests(&Vec::new(), &tasks, &habits, &character, "2025-04", NOW);
    assert_eq!(made.len(), 4);

    assert_eq!(made[0].title, "Tygodniowy Wykonawca");
    assert_eq!(made[0].description, "Ukończ 3 zadań w tym tygodniu");
    assert_eq!(made[0].quest_type, QuestType::Task);
    assert_eq!(made[0].target_value, 3);
    assert_eq!(made[0].reward_exp, 50);
    assert_eq!(made[0].deadline, Some(NOW + 604_800));
    assert_eq!(made[0].week, "2025-04");
    assert_eq!(made[0].status, QuestStatus::Active);

    assert_eq!(made[1].title, "Mistrz Konsekwencji");
    assert_eq!(made[1].description, "Utrzymaj nawyk 'Bieganie' przez cały tydzień (7 dni z rzędu)");
    assert_eq!(made[1].habit_id, Some(7));
    assert_eq!(made[1].target_value, 7);
    assert_eq!(made[1].reward_exp, 75);

    assert_eq!(made[2].title, "Tygodniowy Rozwój");
    assert_eq!(made[2].description, "Zdobądź 125 punktów doświadczenia w tym tygodniu");
    assert_eq!(made[2].target_value, 125);
    assert_eq!(made[2].reward_exp, 100);

    assert_eq!(made[3].title, "Specjalista: NAUKA");
    assert_eq!(made[3].description, "Ukończ 3 zadania związane z kategorią 'nauka'");
    assert_eq!(made[3].category, Some("nauka".to_string()));
    assert_eq!(made[3].target_value, 3);
    assert_eq!(made[3].reward_exp, 60);
}

#[test]
fn task_target_is_capped_at_five() {
    let tasks: Vec<Task> = (0..8).map(|i| task(&format!("t{}", i), false, 0)).collect();
    let made = plan_weekly_quests(&Vec::new(), &tasks, &Vec::new(), &None, "2025-04", NOW);
    assert_eq!(made.len(), 1);
    assert_eq!(made[0].target_value, 5);
    assert_eq!(made[0].description, "Ukończ 5 zadań w tym tygodniu");
}

#[test]
fn nothing_to_propose_without_data() {
    let habits = vec![habit(1, "Bieganie", 2)];
    let made = plan_weekly_quests(&Vec::new(), &Vec::new(), &habits, &None, "2025-04", NOW);
    assert!(made.is_empty());
}

#[test]
fn second_generation_in_same_week_is_empty() {
    let tasks = vec![task("praca nad raportem", false, 0)];
    let character = Some(Character::new(CharacterClass::Warrior, 0));
    let first = plan_weekly_quests(&Vec::new(), &tasks, &Vec::new(), &character, "2025-04", NOW);
    assert_eq!(first.len(), 3);
    assert_eq!(first[2].title, "Specjalista: PRACA");
    let second = plan_weekly_quests(&first, &tasks, &Vec::new(), &character, "2025-04", NOW + 60);
    assert!(second.is_empty());
    let next_week = plan_weekly_quests(&first, &tasks, &Vec::new(), &character, "2025-05", NOW);
    assert_eq!(next_week.len(), 3);
}

#[test]
fn generation_tags_quests_with_iso_week() {
    let character = Some(Character::new(CharacterClass::Warrior, 0));
    let made = generate_weekly_quests(&Vec::new(), &Vec::new(), &Vec::new(), &character, NOW).unwrap();
    assert_eq!(made.len(), 1);
    assert_eq!(made[0].week, "2025-04");
    let again = generate_weekly_quests(&made, &Vec::new(), &Vec::new(), &character, NOW + 3600).unwrap();
    assert!(again.is_empty());
    // 2024-12-30 belongs to ISO week 1 of 2025.
    let year_end = generate_weekly_quests(&Vec::new(), &Vec::new(), &Vec::new(), &character, 1_735_516_800).unwrap();
    assert_eq!(year_end[0].week, "2025-01");
}

#[test]
fn progress_counts_recent_completed_tasks_of_category() {
    let mut q = quest(QuestType::Task, 3, "2025-04");
    q.category = Some("Nauka".to_string());
    let tasks = vec![
        task("NAUKA rust", true, NOW - 10),
        task("nauka go", true, NOW - WEEK_SECONDS - 1),
        task("nauka c", false, NOW),
        task("sport", true, NOW),
    ];
    assert_eq!(quest_progress(&q, &tasks, &Vec::new(), 0, NOW), 1);
    q.category = None;
    assert_eq!(quest_progress(&q, &tasks, &Vec::new(), 0, NOW), 2);
}

#[test]
fn habit_and_growth_progress_read_live_values() {
    let mut hq = quest(QuestType::Habit, 7, "2025-04");
    hq.habit_id = Some(9);
    let habits = vec![habit(1, "a", 3), habit(9, "b", 5)];
    assert_eq!(quest_progress(&hq, &Vec::new(), &habits, 0, NOW), 5);
    hq.habit_id = Some(2);
    assert_eq!(quest_progress(&hq, &Vec::new(), &habits, 0, NOW), 0);
    let gq = quest(QuestType::Character, 125, "2025-04");
    assert_eq!(quest_progress(&gq, &Vec::new(), &Vec::new(), 640, NOW), 640);
}

#[test]
fn reaching_target_completes_and_rewards_once() {
    let mut quests = vec![quest(QuestType::Task, 1, "2025-04")];
    let tasks = vec![task("x", true, NOW)];
    let mut character = Character::new(CharacterClass::Bard, 0);
    let changed = refresh_quest_progress(&mut quests, &tasks, &Vec::new(), &mut character, "2025-04", NOW);
    assert_eq!(changed.len(), 1);
    assert_eq!(quests[0].status, QuestStatus::Completed);
    assert_eq!(quests[0].current_progress, 1);
    assert_eq!(character.experience, 50);
    let again = refresh_quest_progress(&mut quests, &tasks, &Vec::new(), &mut character, "2025-04", NOW);
    assert!(again.is_empty());
    assert_eq!(character.experience, 50);
}

#[test]
fn settled_quests_ignore_metric_changes() {
    let mut done = quest(QuestType::Task, 5, "2025-04");
    done.status = QuestStatus::Completed;
    done.current_progress = 5;
    let mut gone = quest(QuestType::Task, 5, "2025-04");
    gone.status = QuestStatus::Expired;
    let mut quests = vec![done, gone];
    let tasks = vec![task("x", true, NOW), task("y", true, NOW)];
    let mut character = Character::new(CharacterClass::Bard, 0);
    let changed = refresh_quest_progress(&mut quests, &tasks, &Vec::new(), &mut character, "2025-04", NOW);
    assert!(changed.is_empty());
    assert_eq!(quests[0].current_progress, 5);
    assert_eq!(quests[0].status, QuestStatus::Completed);
    assert_eq!(quests[1].current_progress, 0);
    assert_eq!(quests[1].status, QuestStatus::Expired);
    assert_eq!(character.experience, 0);
}

#[test]
fn only_quests_of_current_week_are_recomputed() {
    let mut quests = vec![quest(QuestType::Task, 9, "2025-03"), quest(QuestType::Task, 9, "2025-04")];
    let tasks = vec![task("x", true, NOW)];
    let mut character = Character::new(CharacterClass::Bard, 0);
    let changed = update_all_quest_progress(&mut quests, &tasks, &Vec::new(), &mut character, NOW).unwrap();
    assert_eq!(changed.len(), 1);
    assert_eq!(quests[0].current_progress, 0);
    assert_eq!(quests[1].current_progress, 1);
}

#[test]
fn growth_quest_sees_rewards_of_earlier_quests() {
    let mut quests = vec![quest(QuestType::Task, 1, "2025-04"), quest(QuestType::Character, 140, "2025-04")];
    let tasks = vec![task("x", true, NOW)];
    let mut character = Character::new(CharacterClass::Bard, 0);
    character.add_experience(100, 0);
    let changed = refresh_quest_progress(&mut quests, &tasks, &Vec::new(), &mut character, "2025-04", NOW);
    assert_eq!(changed.len(), 2);
    assert_eq!(quests[1].current_progress, 150);
    assert_eq!(quests[1].status, QuestStatus::Completed);
    assert_eq!(character.experience, 200);
    assert_eq!(character.level, 2);
}

#[test]
fn overdue_active_quests_expire() {
    let mut late = quest(QuestType::Task, 5, "2025-04");
    late.deadline = Some(NOW - 1);
    let mut late_done = quest(QuestType::Task, 5, "2025-04");
    late_done.deadline = Some(NOW - 1);
    late_done.status = QuestStatus::Completed;
    let on_time = quest(QuestType::Task, 5, "2025-04");
    let mut open_ended = quest(QuestType::Task, 5, "2025-04");
    open_ended.deadline = None;
    let mut quests = vec![late, late_done, on_time, open_ended];
    assert_eq!(expire_overdue_quests(&mut quests, NOW), 1);
    assert_eq!(quests[0].status, QuestStatus::Expired);
    assert_eq!(quests[0].updated_at, NOW);
    assert_eq!(quests[1].status, QuestStatus::Completed);
    assert_eq!(quests[2].status, QuestStatus::Active);
    assert_eq!(quests[3].status, QuestStatus::Active);
}

#[test]
fn manual_completion_rules() {
    let mut q = quest(QuestType::Task, 4, "2025-04");
    q.id = 11;
    let mut quests = vec![q];
    let mut character = Character::new(CharacterClass::Bard, 0);
    assert_eq!(complete_quest(&mut quests, 12, &mut character, NOW).unwrap_err(), CoreError::NotFound);
    let done = complete_quest(&mut quests, 11, &mut character, NOW + 5).unwrap();
    assert_eq!(done.current_progress, 4);
    assert_eq!(done.status, QuestStatus::Completed);
    assert_eq!(quests[0].status, QuestStatus::Completed);
    assert_eq!(character.experience, 50);
    assert_eq!(
        complete_quest(&mut quests, 11, &mut character, NOW + 6).unwrap_err(),
        CoreError::QuestNotActive
    );
    assert_eq!(character.experience, 50);
}

#[test]
fn week_labels_are_zero_padded() {
    assert_eq!(week_label(2025, 4), "2025-04");
    assert_eq!(week_label(2025, 12), "2025-12");
    assert_eq!(week_label(-44, 3), "-44-03");
    assert_eq!(current_week(NOW), Some("2025-04".to_string()));
    assert_eq!(current_week(i64::MAX), None);
}

#[test]
fn categories_in_priority_order() {
    assert_eq!(category_in("sport i nauka"), 0);
    assert_eq!(category_in("sport"), 1);
    assert_eq!(category_in("praca projekt"), 2);
    assert_eq!(category_in("projekty"), 3);
    assert_eq!(category_in("zakupy"), 4);
}

#[test]
fn progress_window_at_earliest_time() {
    let q = quest(QuestType::Task, 3, "2025-04");
    let tasks = vec![task("x", true, i64::MIN)];
    assert_eq!(quest_progress(&q, &tasks, &Vec::new(), 0, i64::MIN), 1);
}
