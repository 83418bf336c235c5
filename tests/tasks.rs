use pdrpg::error::CoreError;
use pdrpg::models::{Character, CharacterClass, CreateTaskRequest, Task};
use pdrpg::operations::{add_task, toggle_task_status, validate_title};

const NOW: i64 = 1_737_331_200;

#[test]
fn test_add_task() {
    let request = CreateTaskRequest { title: "Test task".to_string() };

    let task = add_task(request, NOW).unwrap();

    assert_eq!(task.title, "Test task");
    assert!(!task.completed);
    assert_eq!(task.created_at, NOW);
}

#[test]
fn test_toggle_task_status() {
    let request = CreateTaskRequest { title: "Toggle test".to_string() };
    let mut task = add_task(request, NOW).unwrap();
    let mut character = Character::new(CharacterClass::Rogue, NOW);
    assert!(!task.completed);

    toggle_task_status(&mut task, &mut character, NOW + 1);
    assert!(task.completed);

    toggle_task_status(&mut task, &mut character, NOW + 2);
    assert!(!task.completed);
}

#[test]
fn completing_a_task_rewards_once_per_completion() {
    let mut task = Task::new("Trening siłowy".to_string(), NOW);
    let mut character = Character::new(CharacterClass::Warrior, NOW);
    toggle_task_status(&mut task, &mut character, NOW + 1);
    assert_eq!(character.experience, 15);
    assert_eq!(character.attributes.strength, 11);
    toggle_task_status(&mut task, &mut character, NOW + 2);
    assert_eq!(character.experience, 15);
    assert_eq!(task.updated_at, NOW + 2);
}

#[test]
fn task_titles_are_validated() {
    assert_eq!(validate_title("", 100), Err(CoreError::EmptyTitle));
    assert_eq!(validate_title(" \n ", 100), Err(CoreError::EmptyTitle));
    assert_eq!(validate_title(&"x".repeat(100), 100), Ok(()));
    assert_eq!(validate_title(&"x".repeat(101), 100), Err(CoreError::TitleTooLong));
    assert_eq!(validate_title(&"ż".repeat(51), 100), Ok(()));
    assert_eq!(validate_title(&"ż".repeat(100), 100), Ok(()));
    assert_eq!(validate_title(&"ż".repeat(101), 100), Err(CoreError::TitleTooLong));
    let r = add_task(CreateTaskRequest { title: "   ".to_string() }, NOW);
    assert_eq!(r.unwrap_err(), CoreError::EmptyTitle);
}

#[test]
fn error_messages_are_readable() {
    assert_eq!(CoreError::QuestNotActive.message(), "quest is not active");
    assert_eq!(CoreError::EmptyTitle.message(), "title cannot be empty");
    assert_eq!(CoreError::RequirementNotMet.message(), "achievement requirements are no longer met");
}

#[test]
fn white_space_matches_std_for_every_char() {
    for u in 0u32..=0x10ffff {
        if let Some(c) = char::from_u32(u) {
            assert_eq!(pdrpg::operations::is_white_space(c), c.is_whitespace(), "{:x}", u);
        }
    }
}
