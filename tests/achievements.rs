use pdrpg::achievements::{
    calculate_achievement_bonus_exp, check_achievement_requirements, check_and_update_achievements,
    compute_metrics, earn_achievement, get_achievement_stats, AchievementMetrics,
};
use pdrpg::error::CoreError;
use pdrpg::models::{
    Achievement, AchievementStatus, AchievementType, Character, CharacterClass, Habit, HabitType,
    Quest, QuestStatus, QuestType, Task,
};

const NOW: i64 = 1_737_331_200;

fn badge(id: i32, kind: AchievementType, required: i32) -> Achievement {
    let mut a = Achievement::new("b".to_string(), "d".to_string(), kind, required, "*".to_string(), 0);
    a.id = id;
    a
}

fn metrics(streak: i32, tasks: i32, quests: i32) -> AchievementMetrics {
    AchievementMetrics { max_habit_streak: streak, completed_tasks: tasks, completed_quests: quests }
}

#[test]
fn bonus_table() {
    assert_eq!(calculate_achievement_bonus_exp(&badge(0, AchievementType::HabitStreak, 7)), 25);
    assert_eq!(calculate_achievement_bonus_exp(&badge(0, AchievementType::HabitStreak, 30)), 100);
    assert_eq!(calculate_achievement_bonus_exp(&badge(0, AchievementType::HabitStreak, 90)), 300);
    assert_eq!(calculate_achievement_bonus_exp(&badge(0, AchievementType::HabitStreak, 150)), 500);
    assert_eq!(calculate_achievement_bonus_exp(&badge(0, AchievementType::HabitStreak, 230)), 1000);
    assert_eq!(calculate_achievement_bonus_exp(&badge(0, AchievementType::HabitStreak, 14)), 70);
    assert_eq!(calculate_achievement_bonus_exp(&badge(0, AchievementType::TaskCount, 10)), 50);
    assert_eq!(calculate_achievement_bonus_exp(&badge(0, AchievementType::TaskCount, 50)), 200);
    assert_eq!(calculate_achievement_bonus_exp(&badge(0, AchievementType::TaskCount, 100)), 500);
    assert_eq!(calculate_achievement_bonus_exp(&badge(0, AchievementType::TaskCount, 25)), 50);
    assert_eq!(calculate_achievement_bonus_exp(&badge(0, AchievementType::CharacterLevel, 5)), 150);
    assert_eq!(calculate_achievement_bonus_exp(&badge(0, AchievementType::CharacterLevel, 10)), 400);
    assert_eq!(calculate_achievement_bonus_exp(&badge(0, AchievementType::CharacterLevel, 3)), 150);
    assert_eq!(calculate_achievement_bonus_exp(&badge(0, AchievementType::QuestCount, 4)), 100);
}

#[test]
fn metrics_from_live_data() {
    let habits = vec![
        Habit::new("a".to_string(), HabitType::Boolean, None, 0),
        Habit { current_streak: 12, ..Habit::new("b".to_string(), HabitType::Boolean, None, 0) },
    ];
    let tasks = vec![
        Task { completed: true, ..Task::new("x".to_string(), 0) },
        Task::new("y".to_string(), 0),
    ];
    let mut q = Quest::new("q".to_string(), "d".to_string(), QuestType::Task, 1, None, None, 1, None, "w".to_string(), 0);
    q.status = QuestStatus::Completed;
    let quests = vec![q];
    assert_eq!(compute_metrics(&habits, &tasks, &quests), metrics(12, 1, 1));
    assert_eq!(compute_metrics(&Vec::new(), &Vec::new(), &Vec::new()), metrics(0, 0, 0));
}

#[test]
fn requirement_uses_metric_of_its_kind() {
    let m = metrics(7, 3, 0);
    assert!(check_achievement_requirements(&badge(0, AchievementType::HabitStreak, 7), &m, 1));
    assert!(!check_achievement_requirements(&badge(0, AchievementType::TaskCount, 4), &m, 1));
    assert!(check_achievement_requirements(&badge(0, AchievementType::CharacterLevel, 2), &m, 2));
    assert!(!check_achievement_requirements(&badge(0, AchievementType::QuestCount, 1), &m, 9));
}

#[test]
fn badges_advance_one_step_per_check() {
    let mut badges = vec![badge(1, AchievementType::TaskCount, 10), badge(2, AchievementType::TaskCount, 99)];
    let mut character = Character::new(CharacterClass::Warrior, 0);
    let m = metrics(0, 10, 0);
    let changed = check_and_update_achievements(&mut badges, &m, &mut character, NOW);
    assert_eq!(changed.len(), 1);
    assert_eq!(changed[0].status, AchievementStatus::Available);
    assert_eq!(badges[0].status, AchievementStatus::Available);
    assert_eq!(badges[1].status, AchievementStatus::Locked);
    assert_eq!(character.experience, 0);

    let changed = check_and_update_achievements(&mut badges, &m, &mut character, NOW + 1);
    assert_eq!(changed.len(), 1);
    assert_eq!(changed[0].status, AchievementStatus::Earned);
    assert_eq!(badges[0].earned_at, Some(NOW + 1));
    assert_eq!(character.experience, 50);
}

#[test]
fn newly_available_come_before_newly_earned() {
    let mut available = badge(1, AchievementType::QuestCount, 1);
    available.status = AchievementStatus::Available;
    let mut badges = vec![available, badge(2, AchievementType::QuestCount, 1)];
    let mut character = Character::new(CharacterClass::Warrior, 0);
    let changed = check_and_update_achievements(&mut badges, &metrics(0, 0, 1), &mut character, NOW);
    assert_eq!(changed.len(), 2);
    assert_eq!(changed[0].id, 2);
    assert_eq!(changed[0].status, AchievementStatus::Available);
    assert_eq!(changed[1].id, 1);
    assert_eq!(changed[1].status, AchievementStatus::Earned);
    assert_eq!(character.experience, 25);
}

#[test]
fn earned_badges_never_regress() {
    let mut badges = vec![badge(1, AchievementType::HabitStreak, 7)];
    let mut character = Character::new(CharacterClass::Warrior, 0);
    check_and_update_achievements(&mut badges, &metrics(7, 0, 0), &mut character, NOW);
    check_and_update_achievements(&mut badges, &metrics(7, 0, 0), &mut character, NOW + 1);
    assert_eq!(badges[0].status, AchievementStatus::Earned);
    let changed = check_and_update_achievements(&mut badges, &metrics(0, 0, 0), &mut character, NOW + 2);
    assert!(changed.is_empty());
    assert_eq!(badges[0].status, AchievementStatus::Earned);
    assert_eq!(badges[0].earned_at, Some(NOW + 1));
    assert_eq!(character.experience, 25);
}

#[test]
fn available_badge_whose_metric_dropped_stays_available() {
    let mut available = badge(1, AchievementType::HabitStreak, 7);
    available.status = AchievementStatus::Available;
    let mut badges = vec![available];
    let mut character = Character::new(CharacterClass::Warrior, 0);
    let changed = check_and_update_achievements(&mut badges, &metrics(2, 0, 0), &mut character, NOW);
    assert!(changed.is_empty());
    assert_eq!(badges[0].status, AchievementStatus::Available);
}

#[test]
fn manual_earning_rules() {
    let mut available = badge(1, AchievementType::CharacterLevel, 2);
    available.status = AchievementStatus::Available;
    let mut badges = vec![available, badge(2, AchievementType::CharacterLevel, 1)];
    let mut character = Character::new(CharacterClass::Warrior, 0);
    let m = metrics(0, 0, 0);
    assert_eq!(earn_achievement(&mut badges, 3, &m, &mut character, NOW).unwrap_err(), CoreError::NotFound);
    assert_eq!(
        earn_achievement(&mut badges, 2, &m, &mut character, NOW).unwrap_err(),
        CoreError::AchievementNotAvailable
    );
    assert_eq!(
        earn_achievement(&mut badges, 1, &m, &mut character, NOW).unwrap_err(),
        CoreError::RequirementNotMet
    );
    character.add_experience(100, 0);
    let earned = earn_achievement(&mut badges, 1, &m, &mut character, NOW).unwrap();
    assert_eq!(earned.status, AchievementStatus::Earned);
    assert_eq!(earned.earned_at, Some(NOW));
    assert_eq!(character.experience, 200);
}

#[test]
fn stats_count_each_status() {
    let mut a = badge(1, AchievementType::TaskCount, 1);
    a.status = AchievementStatus::Earned;
    let mut b = badge(2, AchievementType::TaskCount, 1);
    b.status = AchievementStatus::Available;
    let badges = vec![a, b, badge(3, AchievementType::TaskCount, 1), badge(4, AchievementType::TaskCount, 1)];
    assert_eq!(get_achievement_stats(&badges), (1, 1, 2));
}
