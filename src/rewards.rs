//! Rewards for completed work: experience, and the attribute that a title
//! points to by its keywords.

use crate::error::CoreError;
use crate::models::{Attribute, Character, attribute_named, lemma_name_round_trip};
use crate::progression::{level_for_experience, level_of};
use crate::text::{chars_of, has_substring, lower_of, lowercase, seq_contains};
use vstd::prelude::*;

verus! {

/// One of four keywords occurs in `t`.
pub open spec fn mentions_any(t: Seq<char>, a: Seq<char>, b: Seq<char>, c: Seq<char>, d: Seq<char>) -> bool {
    has_substring(t, a) || has_substring(t, b) || has_substring(t, c) || has_substring(t, d)
}

/// Attribute of a lower-cased task title: the first keyword group, in this
/// order, that the title mentions.
pub open spec fn task_attribute(t: Seq<char>) -> Option<Attribute> {
    if mentions_any(t, "sport"@, "trening"@, "ćwiczenia"@, "fitness"@) {
        Some(Attribute::Strength)
    } else if mentions_any(t, "nauka"@, "książka"@, "kurs"@, "czytanie"@) {
        Some(Attribute::Intelligence)
    } else if mentions_any(t, "prezentacja"@, "spotkanie"@, "kontakt"@, "rozmowa"@) {
        Some(Attribute::Charisma)
    } else if mentions_any(t, "hobby"@, "praktyka"@, "umiejętność"@, "projekt"@) {
        Some(Attribute::Dexterity)
    } else if mentions_any(t, "medytacja"@, "refleksja"@, "mindfulness"@, "planowanie"@) {
        Some(Attribute::Wisdom)
    } else if mentions_any(t, "sen"@, "dieta"@, "zdrowie"@, "nawyk"@) {
        Some(Attribute::Constitution)
    } else {
        None
    }
}

/// Attribute of a lower-cased habit title: the same six groups in the same
/// order, with habit-flavoured keywords.
pub open spec fn habit_attribute(t: Seq<char>) -> Option<Attribute> {
    if mentions_any(t, "sport"@, "trening"@, "ćwiczenia"@, "fitness"@) {
        Some(Attribute::Strength)
    } else if mentions_any(t, "nauka"@, "książka"@, "czytanie"@, "kurs"@) {
        Some(Attribute::Intelligence)
    } else if mentions_any(t, "prezentacja"@, "spotkanie"@, "kontakt"@, "rozmowa"@) {
        Some(Attribute::Charisma)
    } else if mentions_any(t, "hobby"@, "praktyka"@, "umiejętność"@, "gra"@) {
        Some(Attribute::Dexterity)
    } else if mentions_any(t, "medytacja"@, "refleksja"@, "mindfulness"@, "planowanie"@) {
        Some(Attribute::Wisdom)
    } else if mentions_any(t, "sen"@, "dieta"@, "zdrowie"@, "woda"@) {
        Some(Attribute::Constitution)
    } else {
        None
    }
}

/// Name of an optional attribute.
pub open spec fn attribute_name(a: Option<Attribute>) -> Option<Seq<char>> {
    match a {
        Some(x) => Some(x.spec_name()),
        None => None,
    }
}

/// Characters of an optional text.
pub open spec fn text_view(o: Option<String>) -> Option<Seq<char>> {
    match o {
        Some(s) => Some(s@),
        None => None,
    }
}

/// Experience for a task: 25 when it serves a goal, else 15.
pub open spec fn task_exp(is_goal_related: bool) -> int {
    if is_goal_related {
        25
    } else {
        15
    }
}

/// `n / d` rounded to the nearest integer, halves upward (for `n >= 0`, `d > 0`).
pub open spec fn rounded_div(n: int, d: int) -> int {
    (2 * n + d) / (2 * d)
}

/// Experience for a habit entry with streak `s`:
/// `round(10 * (1 + min(s / 30, 1) * 0.5))`, that is `round((600 + 10 m) / 60)`
/// with `m = min(s, 30)`.
pub open spec fn habit_exp(s: int) -> int {
    let m = if s < 30 {
        s
    } else {
        30
    };
    rounded_div(600 + 10 * m, 60)
}

/// Whether keyword `k` occurs in the characters `t`.
fn mentions(t: &Vec<char>, k: &str) -> (r: bool)
    ensures
        r == has_substring(t@, k@),
{
    let kc = chars_of(k);
    seq_contains(t, &kc)
}

/// Whether one of four keywords occurs in `t`.
fn mentions_any_exec(t: &Vec<char>, a: &str, b: &str, c: &str, d: &str) -> (r: bool)
    ensures
        r == mentions_any(t@, a@, b@, c@, d@),
{
    mentions(t, a) || mentions(t, b) || mentions(t, c) || mentions(t, d)
}

/// The attribute that an already lower-cased task title points to.
pub fn task_attribute_in(lowered: &str) -> (r: Option<Attribute>)
    ensures
        r == task_attribute(lowered@),
{
    let t = chars_of(lowered);
    if mentions_any_exec(&t, "sport", "trening", "ćwiczenia", "fitness") {
        Some(Attribute::Strength)
    } else if mentions_any_exec(&t, "nauka", "książka", "kurs", "czytanie") {
        Some(Attribute::Intelligence)
    } else if mentions_any_exec(&t, "prezentacja", "spotkanie", "kontakt", "rozmowa") {
        Some(Attribute::Charisma)
    } else if mentions_any_exec(&t, "hobby", "praktyka", "umiejętność", "projekt") {
        Some(Attribute::Dexterity)
    } else if mentions_any_exec(&t, "medytacja", "refleksja", "mindfulness", "planowanie") {
        Some(Attribute::Wisdom)
    } else if mentions_any_exec(&t, "sen", "dieta", "zdrowie", "nawyk") {
        Some(Attribute::Constitution)
    } else {
        None
    }
}

/// The attribute that a task title points to, in any case.
pub fn classify_task_title(title: &str) -> (r: Option<Attribute>)
    ensures
        r == task_attribute(lower_of(title@)),
{
    let lower = lowercase(title);
    task_attribute_in(lower.as_str())
}

/// The attribute that an already lower-cased habit title points to.
pub fn habit_attribute_in(lowered: &str) -> (r: Option<Attribute>)
    ensures
        r == habit_attribute(lowered@),
{
    let t = chars_of(lowered);
    if mentions_any_exec(&t, "sport", "trening", "ćwiczenia", "fitness") {
        Some(Attribute::Strength)
    } else if mentions_any_exec(&t, "nauka", "książka", "czytanie", "kurs") {
        Some(Attribute::Intelligence)
    } else if mentions_any_exec(&t, "prezentacja", "spotkanie", "kontakt", "rozmowa") {
        Some(Attribute::Charisma)
    } else if mentions_any_exec(&t, "hobby", "praktyka", "umiejętność", "gra") {
        Some(Attribute::Dexterity)
    } else if mentions_any_exec(&t, "medytacja", "refleksja", "mindfulness", "planowanie") {
        Some(Attribute::Wisdom)
    } else if mentions_any_exec(&t, "sen", "dieta", "zdrowie", "woda") {
        Some(Attribute::Constitution)
    } else {
        None
    }
}

/// The attribute that a habit title points to, in any case.
pub fn classify_habit_title(title: &str) -> (r: Option<Attribute>)
    ensures
        r == habit_attribute(lower_of(title@)),
{
    let lower = lowercase(title);
    habit_attribute_in(lower.as_str())
}

/// Name of an optional attribute, as text.
fn attribute_name_exec(a: Option<Attribute>) -> (r: Option<String>)
    ensures
        text_view(r) == attribute_name(a),
{
    match a {
        Some(x) => Some(x.name()),
        None => None,
    }
}

/// Experience and attribute for completing a task.
pub fn calculate_task_exp(task_title: &str, is_goal_related: bool) -> (r: (i64, Option<String>))
    ensures
        r.0 == task_exp(is_goal_related),
        text_view(r.1) == attribute_name(task_attribute(lower_of(task_title@))),
{
    let base_exp: i64 = if is_goal_related {
        25
    } else {
        15
    };
    (base_exp, attribute_name_exec(classify_task_title(task_title)))
}

/// Experience for a habit entry with the given streak, as an integer.
pub fn habit_exp_for_streak(current_streak: i32) -> (r: i64)
    requires
        current_streak >= 0,
    ensures
        r == habit_exp(current_streak as int),
{
    let m: i64 = if current_streak < 30 {
        current_streak as i64
    } else {
        30
    };
    (2 * (600 + 10 * m) + 60) / 120
}

/// Experience and attribute for completing a habit with the given streak.
pub fn calculate_habit_exp(habit_title: &str, current_streak: i32) -> (r: (i64, Option<String>))
    requires
        current_streak >= 0,
    ensures
        r.0 == habit_exp(current_streak as int),
        text_view(r.1) == attribute_name(habit_attribute(lower_of(habit_title@))),
{
    (habit_exp_for_streak(current_streak), attribute_name_exec(classify_habit_title(habit_title)))
}

/// `addExperience(current, points)`: the new experience, its level, and
/// whether the level rose.
pub fn add_experience(current: i64, points: i64) -> (r: (i64, i32, bool))
    requires
        i64::MIN <= current + points <= i64::MAX,
    ensures
        r.0 == current + points,
        r.1 == level_of(r.0 as int),
        r.2 == (level_of(current as int) < r.1),
{
    let next = current + points;
    let old_level = level_for_experience(current);
    let new_level = level_for_experience(next);
    (next, new_level, old_level < new_level)
}

/// Adds `points` to the named attribute; an unknown name is refused.
pub fn add_attribute_points(character: &mut Character, attribute: &str, points: i32, now: i64) -> (r: Result<(), CoreError>)
    requires
        old(character).attributes.can_add(attribute@, points),
    ensures
        attribute_named(attribute@) is None ==> r == Err::<(), CoreError>(CoreError::UnknownAttribute)
            && *final(character) == *old(character),
        attribute_named(attribute@) is Some ==> r is Ok && *final(character) == (Character {
            attributes: old(character).attributes.added(attribute@, points),
            updated_at: now,
            ..*old(character)
        }),
{
    match Attribute::from_name(attribute) {
        Some(_) => {
            character.add_attribute_points(attribute, points, now);
            Ok(())
        },
        None => Err(CoreError::UnknownAttribute),
    }
}

/// The character after gaining `exp` experience at `now`, plus one point in
/// `attr` if there is one.
pub open spec fn rewarded(c: Character, exp: int, attr: Option<Attribute>, now: i64) -> Character {
    let e = c.experience + exp;
    Character {
        experience: e as i64,
        level: level_of(e) as i32,
        attributes: match attr {
            Some(a) => c.attributes.with(a, (c.attributes.get(a) + 1) as i32),
            None => c.attributes,
        },
        updated_at: now,
        ..c
    }
}

/// Adds the experience and the attribute point of a reward.
fn apply_reward(character: &mut Character, exp: i64, attr: Option<Attribute>, now: i64) -> (leveled_up: bool)
    requires
        0 <= exp <= 25,
        old(character).experience + 25 <= i64::MAX,
        forall|a: Attribute| old(character).attributes.get(a) < i32::MAX,
    ensures
        *final(character) == rewarded(*old(character), exp as int, attr, now),
        leveled_up == (old(character).level < final(character).level),
{
    let leveled_up = character.add_experience(exp, now);
    match attr {
        Some(a) => {
            let name = a.name();
            proof {
                lemma_name_round_trip(a);
            }
            character.add_attribute_points(name.as_str(), 1, now);
        },
        None => {},
    }
    leveled_up
}

/// Rewards the character for completing a task; tells whether it levelled up.
pub fn process_task_completion(character: &mut Character, task_title: &str, is_goal_related: bool, now: i64) -> (leveled_up: bool)
    requires
        old(character).experience + 25 <= i64::MAX,
        forall|a: Attribute| old(character).attributes.get(a) < i32::MAX,
    ensures
        *final(character) == rewarded(
            *old(character),
            task_exp(is_goal_related),
            task_attribute(lower_of(task_title@)),
            now,
        ),
        leveled_up == (old(character).level < final(character).level),
{
    let exp: i64 = if is_goal_related {
        25
    } else {
        15
    };
    let attr = classify_task_title(task_title);
    apply_reward(character, exp, attr, now)
}

/// Rewards the character for completing a habit with the given streak; tells
/// whether it levelled up.
pub fn process_habit_completion(character: &mut Character, habit_title: &str, current_streak: i32, now: i64) -> (leveled_up: bool)
    requires
        current_streak >= 0,
        old(character).experience + 25 <= i64::MAX,
        forall|a: Attribute| old(character).attributes.get(a) < i32::MAX,
    ensures
        *final(character) == rewarded(
            *old(character),
            habit_exp(current_streak as int),
            habit_attribute(lower_of(habit_title@)),
            now,
        ),
        leveled_up == (old(character).level < final(character).level),
{
    let exp = habit_exp_for_streak(current_streak);
    let attr = classify_habit_title(habit_title);
    apply_reward(character, exp, attr, now)
}

/// A reward (at most 25 experience and one attribute point) fits the
/// character's counters.
pub open spec fn reward_fits(c: Character) -> bool {
    &&& c.experience + 25 <= i64::MAX
    &&& forall|a: Attribute| c.attributes.get(a) < i32::MAX
}

/// Whether a reward fits the character's counters.
pub fn can_reward(c: &Character) -> (r: bool)
    ensures
        r == reward_fits(*c),
{
    let a = &c.attributes;
    let r = c.experience <= i64::MAX - 25 && a.strength < i32::MAX && a.intelligence < i32::MAX
        && a.charisma < i32::MAX && a.dexterity < i32::MAX && a.wisdom < i32::MAX
        && a.constitution < i32::MAX;
    proof {
        if !r && c.experience <= i64::MAX - 25 {
            if a.strength >= i32::MAX {
                assert(c.attributes.get(Attribute::Strength) >= i32::MAX);
            } else if a.intelligence >= i32::MAX {
                assert(c.attributes.get(Attribute::Intelligence) >= i32::MAX);
            } else if a.charisma >= i32::MAX {
                assert(c.attributes.get(Attribute::Charisma) >= i32::MAX);
            } else if a.dexterity >= i32::MAX {
                assert(c.attributes.get(Attribute::Dexterity) >= i32::MAX);
            } else if a.wisdom >= i32::MAX {
                assert(c.attributes.get(Attribute::Wisdom) >= i32::MAX);
            } else {
                assert(c.attributes.get(Attribute::Constitution) >= i32::MAX);
            }
        }
    }
    r
}

} // verus!
