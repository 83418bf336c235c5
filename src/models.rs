//! Records of the tracker: tasks, habits and their entries, the character,
//! quests and achievements. Timestamps are Unix seconds handed in by the caller.

use crate::progression::{level_for_experience, level_of};
use crate::text::same_text;
use vstd::prelude::*;
use vstd::string::StringExecFns;

verus! {

/// A to-do item; completion is a plain toggle.
#[derive(Clone, Debug)]
pub struct Task {
    pub id: i32,
    pub title: String,
    pub completed: bool,
    pub created_at: i64,
    pub updated_at: i64,
}

impl Task {
    /// A new, incomplete task; its id is given by the store.
    pub fn new(title: String, now: i64) -> (r: Task)
        ensures
            r.id == 0,
            r.title == title,
            !r.completed,
            r.created_at == now,
            r.updated_at == now,
    {
        Task { id: 0, title, completed: false, created_at: now, updated_at: now }
    }

    pub fn mark_completed(&mut self, now: i64)
        ensures
            *final(self) == (Task { completed: true, updated_at: now, ..*old(self) }),
    {
        self.completed = true;
        self.updated_at = now;
    }

    pub fn mark_incomplete(&mut self, now: i64)
        ensures
            *final(self) == (Task { completed: false, updated_at: now, ..*old(self) }),
    {
        self.completed = false;
        self.updated_at = now;
    }

    pub fn toggle_completed(&mut self, now: i64)
        ensures
            *final(self) == (Task { completed: !old(self).completed, updated_at: now, ..*old(self) }),
    {
        self.completed = !self.completed;
        self.updated_at = now;
    }

    pub fn update_title(&mut self, new_title: String, now: i64)
        ensures
            *final(self) == (Task { title: new_title, updated_at: now, ..*old(self) }),
    {
        self.title = new_title;
        self.updated_at = now;
    }
}

/// Data for a new task.
#[derive(Clone, Debug)]
pub struct CreateTaskRequest {
    pub title: String,
}

/// Fields of a task to change.
#[derive(Clone, Debug)]
pub struct UpdateTaskRequest {
    pub title: Option<String>,
    pub completed: Option<bool>,
}

/// How a habit is tracked.
#[derive(Clone, Copy, Debug, PartialEq, Eq, Structural)]
pub enum HabitType {
    /// Done or not done on a day.
    Boolean,
    /// A count per day, optionally against a target.
    Counter,
}

/// A habit; `current_streak` caches the streak computed from its entries.
#[derive(Clone, Debug)]
pub struct Habit {
    pub id: i32,
    pub title: String,
    pub habit_type: HabitType,
    pub target_value: Option<i32>,
    pub current_streak: i32,
    pub created_at: i64,
    pub updated_at: i64,
}

impl Habit {
    /// A new habit with no streak; its id is given by the store.
    pub fn new(title: String, habit_type: HabitType, target_value: Option<i32>, now: i64) -> (r: Habit)
        ensures
            r == (Habit {
                id: 0,
                title,
                habit_type,
                target_value,
                current_streak: 0,
                created_at: now,
                updated_at: now,
            }),
    {
        Habit { id: 0, title, habit_type, target_value, current_streak: 0, created_at: now, updated_at: now }
    }

    pub fn update_title(&mut self, new_title: String, now: i64)
        ensures
            *final(self) == (Habit { title: new_title, updated_at: now, ..*old(self) }),
    {
        self.title = new_title;
        self.updated_at = now;
    }

    pub fn update_target_value(&mut self, new_target: Option<i32>, now: i64)
        ensures
            *final(self) == (Habit { target_value: new_target, updated_at: now, ..*old(self) }),
    {
        self.target_value = new_target;
        self.updated_at = now;
    }

    pub fn update_streak(&mut self, new_streak: i32, now: i64)
        ensures
            *final(self) == (Habit { current_streak: new_streak, updated_at: now, ..*old(self) }),
    {
        self.current_streak = new_streak;
        self.updated_at = now;
    }
}

/// What was logged for a habit on one calendar day (`YYYY-MM-DD`).
#[derive(Clone, Debug)]
pub struct HabitEntry {
    pub id: i32,
    pub habit_id: i32,
    pub date: String,
    pub completed: bool,
    pub value: i32,
    pub created_at: i64,
}

impl HabitEntry {
    /// A new entry; its id is given by the store.
    pub fn new(habit_id: i32, date: String, completed: bool, value: i32, now: i64) -> (r: HabitEntry)
        ensures
            r == (HabitEntry { id: 0, habit_id, date, completed, value, created_at: now }),
    {
        HabitEntry { id: 0, habit_id, date, completed, value, created_at: now }
    }

    /// A copy of this entry.
    pub fn snapshot(&self) -> (r: HabitEntry)
        ensures
            r == *self,
    {
        HabitEntry {
            id: self.id,
            habit_id: self.habit_id,
            date: self.date.clone(),
            completed: self.completed,
            value: self.value,
            created_at: self.created_at,
        }
    }
}

/// Data for a new habit.
#[derive(Clone, Debug)]
pub struct CreateHabitRequest {
    pub title: String,
    pub habit_type: HabitType,
    pub target_value: Option<i32>,
}

/// Fields of a habit to change.
#[derive(Clone, Debug)]
pub struct UpdateHabitRequest {
    pub title: Option<String>,
    pub target_value: Option<i32>,
}

/// Data for a habit entry; a missing flag counts as `false`, a missing value as 0.
#[derive(Clone, Debug)]
pub struct CreateHabitEntryRequest {
    pub habit_id: i32,
    pub date: String,
    pub completed: Option<bool>,
    pub value: Option<i32>,
}

/// The character's class.
#[derive(Clone, Copy, Debug, PartialEq, Eq, Structural)]
pub enum CharacterClass {
    Warrior,
    Mage,
    Bard,
    Rogue,
}

/// One of the six attribute counters.
#[derive(Clone, Copy, Debug, PartialEq, Eq, Structural)]
pub enum Attribute {
    Strength,
    Intelligence,
    Charisma,
    Dexterity,
    Wisdom,
    Constitution,
}

/// The attribute whose lower-case name is `name`, if any.
pub open spec fn attribute_named(name: Seq<char>) -> Option<Attribute> {
    if name == "strength"@ {
        Some(Attribute::Strength)
    } else if name == "intelligence"@ {
        Some(Attribute::Intelligence)
    } else if name == "charisma"@ {
        Some(Attribute::Charisma)
    } else if name == "dexterity"@ {
        Some(Attribute::Dexterity)
    } else if name == "wisdom"@ {
        Some(Attribute::Wisdom)
    } else if name == "constitution"@ {
        Some(Attribute::Constitution)
    } else {
        None
    }
}

/// Each attribute's name leads back to it.
pub proof fn lemma_name_round_trip(a: Attribute)
    ensures
        attribute_named(a.spec_name()) == Some(a),
{
    reveal_strlit("strength");
    reveal_strlit("intelligence");
    reveal_strlit("charisma");
    reveal_strlit("dexterity");
    reveal_strlit("wisdom");
    reveal_strlit("constitution");
    assert("strength"@[0] != "charisma"@[0]);
    assert("intelligence"@[0] != "constitution"@[0]);
    assert("strength"@.len() != "intelligence"@.len());
    assert("strength"@.len() != "dexterity"@.len());
    assert("strength"@.len() != "wisdom"@.len());
    assert("intelligence"@.len() != "charisma"@.len());
    assert("intelligence"@.len() != "dexterity"@.len());
    assert("charisma"@.len() != "dexterity"@.len());
    assert("dexterity"@.len() != "wisdom"@.len());
    assert("wisdom"@.len() != "constitution"@.len());
}

impl Attribute {
    pub open spec fn spec_name(self) -> Seq<char> {
        match self {
            Attribute::Strength => "strength"@,
            Attribute::Intelligence => "intelligence"@,
            Attribute::Charisma => "charisma"@,
            Attribute::Dexterity => "dexterity"@,
            Attribute::Wisdom => "wisdom"@,
            Attribute::Constitution => "constitution"@,
        }
    }

    /// The attribute's name, in lower case.
    pub fn name(&self) -> (r: String)
        ensures
            r@ == self.spec_name(),
    {
        match self {
            Attribute::Strength => String::from_str("strength"),
            Attribute::Intelligence => String::from_str("intelligence"),
            Attribute::Charisma => String::from_str("charisma"),
            Attribute::Dexterity => String::from_str("dexterity"),
            Attribute::Wisdom => String::from_str("wisdom"),
            Attribute::Constitution => String::from_str("constitution"),
        }
    }

    /// The attribute with this name; names are case-sensitive.
    pub fn from_name(name: &str) -> (r: Option<Attribute>)
        ensures
            r == attribute_named(name@),
    {
        if same_text(name, "strength") {
            Some(Attribute::Strength)
        } else if same_text(name, "intelligence") {
            Some(Attribute::Intelligence)
        } else if same_text(name, "charisma") {
            Some(Attribute::Charisma)
        } else if same_text(name, "dexterity") {
            Some(Attribute::Dexterity)
        } else if same_text(name, "wisdom") {
            Some(Attribute::Wisdom)
        } else if same_text(name, "constitution") {
            Some(Attribute::Constitution)
        } else {
            None
        }
    }
}

/// Six independent attribute counters.
#[derive(Clone, Copy, Debug, PartialEq, Eq, Structural)]
pub struct CharacterAttributes {
    pub strength: i32,
    pub intelligence: i32,
    pub charisma: i32,
    pub dexterity: i32,
    pub wisdom: i32,
    pub constitution: i32,
}

impl CharacterAttributes {
    /// The counter of `a`.
    pub open spec fn get(self, a: Attribute) -> i32 {
        match a {
            Attribute::Strength => self.strength,
            Attribute::Intelligence => self.intelligence,
            Attribute::Charisma => self.charisma,
            Attribute::Dexterity => self.dexterity,
            Attribute::Wisdom => self.wisdom,
            Attribute::Constitution => self.constitution,
        }
    }

    /// These counters with the one of `a` set to `v`.
    pub open spec fn with(self, a: Attribute, v: i32) -> CharacterAttributes {
        match a {
            Attribute::Strength => CharacterAttributes { strength: v, ..self },
            Attribute::Intelligence => CharacterAttributes { intelligence: v, ..self },
            Attribute::Charisma => CharacterAttributes { charisma: v, ..self },
            Attribute::Dexterity => CharacterAttributes { dexterity: v, ..self },
            Attribute::Wisdom => CharacterAttributes { wisdom: v, ..self },
            Attribute::Constitution => CharacterAttributes { constitution: v, ..self },
        }
    }

    /// `points` can be added to the counter named `name` without overflow
    /// (an unknown name changes nothing).
    pub open spec fn can_add(self, name: Seq<char>, points: i32) -> bool {
        match attribute_named(name) {
            Some(a) => i32::MIN <= self.get(a) + points <= i32::MAX,
            None => true,
        }
    }

    /// These counters after adding `points` to the one named `name`.
    pub open spec fn added(self, name: Seq<char>, points: i32) -> CharacterAttributes {
        match attribute_named(name) {
            Some(a) => self.with(a, (self.get(a) + points) as i32),
            None => self,
        }
    }

    /// Every counter at its starting value, 10.
    pub fn new() -> (r: CharacterAttributes)
        ensures
            forall|a: Attribute| r.get(a) == 10,
    {
        CharacterAttributes {
            strength: 10,
            intelligence: 10,
            charisma: 10,
            dexterity: 10,
            wisdom: 10,
            constitution: 10,
        }
    }

    /// Adds `points` to the counter named `attribute`; an unknown name is a no-op.
    pub fn add_points(&mut self, attribute: &str, points: i32)
        requires
            old(self).can_add(attribute@, points),
        ensures
            *final(self) == old(self).added(attribute@, points),
    {
        match Attribute::from_name(attribute) {
            Some(Attribute::Strength) => self.strength = self.strength + points,
            Some(Attribute::Intelligence) => self.intelligence = self.intelligence + points,
            Some(Attribute::Charisma) => self.charisma = self.charisma + points,
            Some(Attribute::Dexterity) => self.dexterity = self.dexterity + points,
            Some(Attribute::Wisdom) => self.wisdom = self.wisdom + points,
            Some(Attribute::Constitution) => self.constitution = self.constitution + points,
            None => {},
        }
    }
}

/// The single progression subject (its id is always 1).
#[derive(Clone, Copy, Debug, PartialEq, Eq, Structural)]
pub struct Character {
    pub id: i32,
    pub level: i32,
    pub experience: i64,
    pub character_class: CharacterClass,
    pub attributes: CharacterAttributes,
    pub created_at: i64,
    pub updated_at: i64,
}

impl Character {
    /// The cached level agrees with the experience.
    pub open spec fn wf(self) -> bool {
        self.level == level_of(self.experience as int)
    }

    /// A fresh character: level 1, no experience, every attribute at 10.
    pub fn new(character_class: CharacterClass, now: i64) -> (r: Character)
        ensures
            r.id == 1,
            r.level == 1,
            r.experience == 0,
            r.character_class == character_class,
            forall|a: Attribute| r.attributes.get(a) == 10,
            r.created_at == now,
            r.updated_at == now,
            r.wf(),
    {
        Character {
            id: 1,
            level: 1,
            experience: 0,
            character_class,
            attributes: CharacterAttributes::new(),
            created_at: now,
            updated_at: now,
        }
    }

    /// Adds experience, recomputes the level and tells whether it rose.
    pub fn add_experience(&mut self, exp_points: i64, now: i64) -> (leveled_up: bool)
        requires
            i64::MIN <= old(self).experience + exp_points <= i64::MAX,
        ensures
            final(self).experience == old(self).experience + exp_points,
            final(self).level == level_of(final(self).experience as int),
            final(self).updated_at == now,
            final(self).id == old(self).id,
            final(self).character_class == old(self).character_class,
            final(self).attributes == old(self).attributes,
            final(self).created_at == old(self).created_at,
            leveled_up == (old(self).level < final(self).level),
            final(self).wf(),
    {
        self.experience = self.experience + exp_points;
        self.updated_at = now;
        let old_level = self.level;
        self.level = self.calculate_level();
        old_level < self.level
    }

    /// The character after a best-effort award of `amount` at `now`: applied
    /// where the new total fits, else nothing changes.
    pub open spec fn awarded(self, amount: i64, now: i64) -> Character {
        let e = self.experience + amount;
        if i64::MIN <= e <= i64::MAX {
            Character { experience: e as i64, level: level_of(e) as i32, updated_at: now, ..self }
        } else {
            self
        }
    }

    /// Best-effort award: adds `amount` where the total fits, else changes
    /// nothing and returns `None`; otherwise tells whether the level rose.
    pub fn award_experience(&mut self, amount: i64, now: i64) -> (r: Option<bool>)
        ensures
            *final(self) == old(self).awarded(amount, now),
            r is None <==> !(i64::MIN <= old(self).experience + amount <= i64::MAX),
            r is Some ==> r->0 == (old(self).level < final(self).level),
            old(self).wf() ==> final(self).wf(),
    {
        let fits = if amount >= 0 {
            self.experience <= i64::MAX - amount
        } else {
            self.experience >= i64::MIN - amount
        };
        if fits {
            Some(self.add_experience(amount, now))
        } else {
            None
        }
    }

    /// Level for the current experience: `floor(sqrt(experience / 100)) + 1`.
    pub fn calculate_level(&self) -> (r: i32)
        ensures
            r == level_of(self.experience as int),
    {
        level_for_experience(self.experience)
    }

    /// Experience still missing to the next level: `100 * level^2 - experience`.
    pub fn experience_to_next_level(&self) -> (r: i64)
        requires
            i64::MIN <= 100 * self.level * self.level - self.experience <= i64::MAX,
        ensures
            r == 100 * self.level * self.level - self.experience,
    {
        let l = self.level as i128;
        assert(l * l <= 0x4000_0000_0000_0000) by (nonlinear_arith)
            requires
                -0x8000_0000 <= l <= 0x7fff_ffff,
        ;
        assert(0 <= l * l) by (nonlinear_arith);
        let required = 100 * (l * l);
        assert(required == 100 * self.level * self.level) by (nonlinear_arith)
            requires
                required == 100 * (l * l),
                l == self.level,
        ;
        (required - self.experience as i128) as i64
    }

    /// Adds `points` to the attribute named `attribute` (an unknown name is a no-op).
    pub fn add_attribute_points(&mut self, attribute: &str, points: i32, now: i64)
        requires
            old(self).attributes.can_add(attribute@, points),
        ensures
            *final(self) == (Character {
                attributes: old(self).attributes.added(attribute@, points),
                updated_at: now,
                ..*old(self)
            }),
    {
        self.attributes.add_points(attribute, points);
        self.updated_at = now;
    }
}

/// Data for the character.
#[derive(Clone, Debug)]
pub struct CreateCharacterRequest {
    pub character_class: CharacterClass,
}

/// Fields of the character to change.
#[derive(Clone, Debug)]
pub struct UpdateCharacterRequest {
    pub character_class: Option<CharacterClass>,
}

/// Lifecycle of a quest: `Active` moves once, to `Completed` or `Expired`.
#[derive(Clone, Copy, Debug, PartialEq, Eq, Structural)]
pub enum QuestStatus {
    Active,
    Completed,
    Expired,
}

/// What a quest's progress counts.
#[derive(Clone, Copy, Debug, PartialEq, Eq, Structural)]
pub enum QuestType {
    /// Completed tasks, optionally of a category.
    Task,
    /// The streak of one habit.
    Habit,
    /// The character's experience.
    Character,
}

/// A weekly quest; `week` is the ISO week (`YYYY-WW`) it was made in.
#[derive(Clone, Debug)]
pub struct Quest {
    pub id: i32,
    pub title: String,
    pub description: String,
    pub quest_type: QuestType,
    pub target_value: i32,
    pub current_progress: i32,
    pub category: Option<String>,
    pub habit_id: Option<i32>,
    pub status: QuestStatus,
    pub reward_exp: i64,
    pub deadline: Option<i64>,
    pub week: String,
    pub created_at: i64,
    pub updated_at: i64,
}

/// A copy of an optional text.
pub fn copy_text_option(o: &Option<String>) -> (r: Option<String>)
    ensures
        r == *o,
{
    match o {
        Some(s) => Some(s.clone()),
        None => None,
    }
}

impl Quest {
    /// A new active quest with no progress; its id is given by the store.
    pub fn new(
        title: String,
        description: String,
        quest_type: QuestType,
        target_value: i32,
        category: Option<String>,
        habit_id: Option<i32>,
        reward_exp: i64,
        deadline: Option<i64>,
        week: String,
        now: i64,
    ) -> (r: Quest)
        ensures
            r == (Quest {
                id: 0,
                title,
                description,
                quest_type,
                target_value,
                current_progress: 0,
                category,
                habit_id,
                status: QuestStatus::Active,
                reward_exp,
                deadline,
                week,
                created_at: now,
                updated_at: now,
            }),
    {
        Quest {
            id: 0,
            title,
            description,
            quest_type,
            target_value,
            current_progress: 0,
            category,
            habit_id,
            status: QuestStatus::Active,
            reward_exp,
            deadline,
            week,
            created_at: now,
            updated_at: now,
        }
    }

    /// Progress has reached the target.
    pub fn is_completed(&self) -> (r: bool)
        ensures
            r == (self.current_progress >= self.target_value),
    {
        self.current_progress >= self.target_value
    }

    /// The quest after its progress is set to `progress` at time `now`: an
    /// active quest that reaches its target becomes Completed.
    pub open spec fn progressed(self, progress: i32, now: i64) -> Quest {
        Quest {
            current_progress: progress,
            status: if progress >= self.target_value && self.status == QuestStatus::Active {
                QuestStatus::Completed
            } else {
                self.status
            },
            updated_at: now,
            ..self
        }
    }

    /// Sets the progress; an active quest that reaches its target is Completed.
    pub fn update_progress(&mut self, progress: i32, now: i64)
        ensures
            *final(self) == old(self).progressed(progress, now),
    {
        self.current_progress = progress;
        if self.is_completed() && self.status == QuestStatus::Active {
            self.status = QuestStatus::Completed;
        }
        self.updated_at = now;
    }

    /// Marks the quest Expired.
    pub fn mark_expired(&mut self, now: i64)
        ensures
            *final(self) == (Quest { status: QuestStatus::Expired, updated_at: now, ..*old(self) }),
    {
        self.status = QuestStatus::Expired;
        self.updated_at = now;
    }

    /// A copy of this quest.
    pub fn snapshot(&self) -> (r: Quest)
        ensures
            r == *self,
    {
        Quest {
            id: self.id,
            title: self.title.clone(),
            description: self.description.clone(),
            quest_type: self.quest_type,
            target_value: self.target_value,
            current_progress: self.current_progress,
            category: copy_text_option(&self.category),
            habit_id: self.habit_id,
            status: self.status,
            reward_exp: self.reward_exp,
            deadline: self.deadline,
            week: self.week.clone(),
            created_at: self.created_at,
            updated_at: self.updated_at,
        }
    }
}

/// Data for a new quest.
#[derive(Clone, Debug)]
pub struct CreateQuestRequest {
    pub title: String,
    pub description: String,
    pub quest_type: QuestType,
    pub target_value: i32,
    pub category: Option<String>,
    pub habit_id: Option<i32>,
    pub reward_exp: i64,
    pub deadline: Option<i64>,
}

/// Fields of a quest to change.
#[derive(Clone, Debug)]
pub struct UpdateQuestRequest {
    pub current_progress: Option<i32>,
    pub status: Option<QuestStatus>,
}

/// The measure that an achievement is judged on.
#[derive(Clone, Copy, Debug, PartialEq, Eq, Structural)]
pub enum AchievementType {
    /// The longest current habit streak.
    HabitStreak,
    /// The number of completed tasks.
    TaskCount,
    /// The character's level.
    CharacterLevel,
    /// The number of completed quests.
    QuestCount,
}

/// Lifecycle of a badge: `Locked`, then `Available`, then `Earned`.
#[derive(Clone, Copy, Debug, PartialEq, Eq, Structural)]
pub enum AchievementStatus {
    Locked,
    Available,
    Earned,
}

/// Position of a status in the one-way lifecycle.
pub open spec fn status_rank(s: AchievementStatus) -> int {
    match s {
        AchievementStatus::Locked => 0,
        AchievementStatus::Available => 1,
        AchievementStatus::Earned => 2,
    }
}

/// A badge; `earned_at` is set once, when it is Earned.
#[derive(Clone, Debug)]
pub struct Achievement {
    pub id: i32,
    pub name: String,
    pub description: String,
    pub achievement_type: AchievementType,
    pub required_value: i32,
    pub icon: String,
    pub status: AchievementStatus,
    pub earned_at: Option<i64>,
    pub created_at: i64,
    pub updated_at: i64,
}

impl Achievement {
    /// A new locked badge; its id is given by the store.
    pub fn new(
        name: String,
        description: String,
        achievement_type: AchievementType,
        required_value: i32,
        icon: String,
        now: i64,
    ) -> (r: Achievement)
        ensures
            r == (Achievement {
                id: 0,
                name,
                description,
                achievement_type,
                required_value,
                icon,
                status: AchievementStatus::Locked,
                earned_at: None,
                created_at: now,
                updated_at: now,
            }),
    {
        Achievement {
            id: 0,
            name,
            description,
            achievement_type,
            required_value,
            icon,
            status: AchievementStatus::Locked,
            earned_at: None,
            created_at: now,
            updated_at: now,
        }
    }

    /// The badge once made Available at `now` (only a Locked one changes).
    pub open spec fn made_available(self, now: i64) -> Achievement {
        if self.status == AchievementStatus::Locked {
            Achievement { status: AchievementStatus::Available, updated_at: now, ..self }
        } else {
            self
        }
    }

    /// The badge once Earned at `now`.
    pub open spec fn earned(self, now: i64) -> Achievement {
        Achievement {
            status: AchievementStatus::Earned,
            earned_at: Some(now),
            updated_at: now,
            ..self
        }
    }

    /// A Locked badge becomes Available; any other is left as it is.
    pub fn make_available(&mut self, now: i64)
        ensures
            *final(self) == old(self).made_available(now),
    {
        if self.status == AchievementStatus::Locked {
            self.status = AchievementStatus::Available;
            self.updated_at = now;
        }
    }

    /// Marks the badge Earned at `now`.
    pub fn mark_earned(&mut self, now: i64)
        ensures
            *final(self) == old(self).earned(now),
    {
        self.status = AchievementStatus::Earned;
        self.earned_at = Some(now);
        self.updated_at = now;
    }

    /// A copy of this badge.
    pub fn snapshot(&self) -> (r: Achievement)
        ensures
            r == *self,
    {
        Achievement {
            id: self.id,
            name: self.name.clone(),
            description: self.description.clone(),
            achievement_type: self.achievement_type,
            required_value: self.required_value,
            icon: self.icon.clone(),
            status: self.status,
            earned_at: self.earned_at,
            created_at: self.created_at,
            updated_at: self.updated_at,
        }
    }
}

/// Data for a new achievement.
#[derive(Clone, Debug)]
pub struct CreateAchievementRequest {
    pub name: String,
    pub description: String,
    pub achievement_type: AchievementType,
    pub required_value: i32,
    pub icon: String,
}

} // verus!
