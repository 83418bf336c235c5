use pdrpg::error::CoreError;
use pdrpg::models::{Attribute, Character, CharacterClass};
use pdrpg::rewards::{
    add_attribute_points, calculate_habit_exp, calculate_task_exp, classify_habit_title,
    classify_task_title, habit_attribute_in, process_habit_completion, process_task_completion,
    task_attribute_in,
};

#[test]
fn test_calculate_task_exp() {
    let (exp, attr) = calculate_task_exp("Trening na siłowni", false);
    assert_eq!(exp, 15);
    assert_eq!(attr, Some("strength".to_string()));

    let (exp, attr) = calculate_task_exp("Nauka języka Python", true);
    assert_eq!(exp, 25);
    assert_eq!(attr, Some("intelligence".to_string()));
}

#[test]
fn test_calculate_habit_exp() {
    let (exp, attr) = calculate_habit_exp("Codzienna medytacja", 15);
    assert_eq!(exp, 13);
    assert_eq!(attr, Some("wisdom".to_string()));
}

#[test]
fn goal_related_task_pays_more() {
    assert_eq!(
        calculate_task_exp("Trening na siłowni", true),
        (25, Some("strength".to_string()))
    );
}

#[test]
fn habit_reward_follows_streak() {
    assert_eq!(calculate_habit_exp("x", 0).0, 10);
    assert_eq!(calculate_habit_exp("x", 3).0, 11);
    assert_eq!(calculate_habit_exp("x", 15).0, 13);
    assert_eq!(calculate_habit_exp("x", 30).0, 15);
    assert_eq!(calculate_habit_exp("x", 365).0, 15);
}

#[test]
fn classification_is_case_insensitive() {
    assert_eq!(classify_task_title("NAUKA gry"), Some(Attribute::Intelligence));
    assert_eq!(classify_task_title("ĆWICZENIA rano"), Some(Attribute::Strength));
}

#[test]
fn first_matching_group_wins() {
    assert_eq!(classify_task_title("sport i nauka"), Some(Attribute::Strength));
    assert_eq!(classify_task_title("spotkanie o diecie"), Some(Attribute::Charisma));
}

#[test]
fn unmatched_title_has_no_attribute() {
    assert_eq!(classify_task_title("Zakupy"), None);
    assert_eq!(calculate_task_exp("Zakupy", false), (15, None));
}

#[test]
fn habit_keywords_differ_from_task_keywords() {
    assert_eq!(classify_habit_title("gra na gitarze"), Some(Attribute::Dexterity));
    assert_eq!(classify_task_title("gra na gitarze"), None);
    assert_eq!(classify_habit_title("Pij wodę woda"), Some(Attribute::Constitution));
    assert_eq!(classify_task_title("nowy projekt"), Some(Attribute::Dexterity));
    assert_eq!(classify_habit_title("nowy projekt"), None);
}

#[test]
fn unknown_attribute_is_refused_on_strict_path() {
    let mut character = Character::new(CharacterClass::Warrior, 0);
    assert_eq!(
        add_attribute_points(&mut character, "luck", 1, 9),
        Err(CoreError::UnknownAttribute)
    );
    assert_eq!(character.updated_at, 0);
    assert_eq!(add_attribute_points(&mut character, "charisma", 2, 9), Ok(()));
    assert_eq!(character.attributes.charisma, 12);
}

#[test]
fn task_completion_rewards_experience_and_attribute() {
    let mut character = Character::new(CharacterClass::Warrior, 0);
    let leveled = process_task_completion(&mut character, "Trening nóg", false, 7);
    assert!(!leveled);
    assert_eq!(character.experience, 15);
    assert_eq!(character.attributes.strength, 11);
    assert_eq!(character.attributes.wisdom, 10);
}

#[test]
fn habit_completion_can_level_up() {
    let mut character = Character::new(CharacterClass::Mage, 0);
    character.add_experience(90, 1);
    let leveled = process_habit_completion(&mut character, "Zwykła rzecz", 30, 2);
    assert!(leveled);
    assert_eq!(character.experience, 105);
    assert_eq!(character.level, 2);
    assert_eq!(character.attributes, pdrpg::models::CharacterAttributes::new());
}

#[test]
fn keyword_groups_on_lowered_titles() {
    assert_eq!(task_attribute_in("mindfulness rano"), Some(Attribute::Wisdom));
    assert_eq!(task_attribute_in("dobry sen"), Some(Attribute::Constitution));
    assert_eq!(task_attribute_in("NAUKA"), None);
    assert_eq!(habit_attribute_in("szklanka woda"), Some(Attribute::Constitution));
    assert_eq!(habit_attribute_in("nawyk"), None);
}
