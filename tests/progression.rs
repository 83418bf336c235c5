use pdrpg::models::{Character, CharacterClass};
use pdrpg::progression::level_for_experience;
use pdrpg::rewards::add_experience;

#[test]
fn test_create_and_get_character() {
    let character = Character::new(CharacterClass::Mage, 1_700_000_000);
    assert_eq!(character.level, 1);
    assert_eq!(character.experience, 0);

    let retrieved = character;
    assert_eq!(retrieved.id, character.id);
    assert_eq!(retrieved.id, 1);
}

#[test]
fn test_add_experience() {
    let mut character = Character::new(CharacterClass::Warrior, 1_700_000_000);
    let level_up = character.add_experience(150, 1_700_000_100);
    assert_eq!(character.experience, 150);
    assert_eq!(character.level, 2);
    assert!(level_up);
    assert_eq!(character.updated_at, 1_700_000_100);
}

#[test]
fn add_experience_from_zero_levels_up() {
    assert_eq!(add_experience(0, 150), (150, 2, true));
}

#[test]
fn add_experience_of_nothing_keeps_level() {
    assert_eq!(add_experience(100, 0), (100, 2, false));
}

#[test]
fn five_hundred_experience_reaches_level_three() {
    let mut character = Character::new(CharacterClass::Bard, 0);
    let level_up = character.add_experience(500, 10);
    assert_eq!(character.experience, 500);
    assert_eq!(character.level, 3);
    assert!(level_up);
}

#[test]
fn level_spans_follow_squares() {
    assert_eq!(level_for_experience(0), 1);
    assert_eq!(level_for_experience(99), 1);
    assert_eq!(level_for_experience(100), 2);
    assert_eq!(level_for_experience(399), 2);
    assert_eq!(level_for_experience(400), 3);
    assert_eq!(level_for_experience(899), 3);
    assert_eq!(level_for_experience(900), 4);
    assert_eq!(level_for_experience(1_000_000), 101);
    assert_eq!(level_for_experience(i64::MAX), 303_700_050);
    assert_eq!(level_for_experience(-5), 1);
}

#[test]
fn level_never_falls_as_experience_grows() {
    let mut previous = level_for_experience(0);
    let mut e: i64 = 0;
    while e < 50_000 {
        let l = level_for_experience(e);
        assert!(l >= previous);
        previous = l;
        e += 37;
    }
}

#[test]
fn experience_to_next_level_is_gap_to_square() {
    let mut character = Character::new(CharacterClass::Rogue, 0);
    character.add_experience(150, 1);
    assert_eq!(character.calculate_level(), 2);
    assert_eq!(character.experience_to_next_level(), 250);
}

#[test]
fn attribute_points_go_to_named_counter_only() {
    let mut character = Character::new(CharacterClass::Warrior, 0);
    character.add_attribute_points("wisdom", 3, 5);
    assert_eq!(character.attributes.wisdom, 13);
    assert_eq!(character.attributes.strength, 10);
    assert_eq!(character.updated_at, 5);
    character.add_attribute_points("Wisdom", 3, 6);
    assert_eq!(character.attributes.wisdom, 13);
}

#[test]
fn best_effort_award_skips_overflow() {
    let mut character = Character::new(CharacterClass::Mage, 0);
    character.add_experience(i64::MAX - 10, 1);
    assert_eq!(character.award_experience(20, 2), None);
    assert_eq!(character.experience, i64::MAX - 10);
    assert_eq!(character.award_experience(5, 3), Some(false));
    assert_eq!(character.experience, i64::MAX - 5);
}
