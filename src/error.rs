//! Failures that the engine reports to its callers.

use vstd::prelude::*;
use vstd::string::StringExecFns;

verus! {

/// Why an operation was refused. No variant is used for normal control flow.
#[derive(Clone, Copy, Debug, PartialEq, Eq, Structural)]
pub enum CoreError {
    /// A title is empty or holds only whitespace.
    EmptyTitle,
    /// A title is longer than its limit in characters.
    TitleTooLong,
    /// An attribute name is not one of the six recognised names.
    UnknownAttribute,
    /// A calendar date could not be read as `YYYY-MM-DD`.
    InvalidDate,
    /// No record has the requested id.
    NotFound,
    /// The quest is Completed or Expired.
    QuestNotActive,
    /// The achievement is Locked or already Earned.
    AchievementNotAvailable,
    /// The achievement's requirement does not hold any more.
    RequirementNotMet,
}

/// The message of each failure.
pub open spec fn message_text(e: CoreError) -> Seq<char> {
    match e {
        CoreError::EmptyTitle => "title cannot be empty"@,
        CoreError::TitleTooLong => "title is too long"@,
        CoreError::UnknownAttribute => "invalid attribute name"@,
        CoreError::InvalidDate => "failed to parse date"@,
        CoreError::NotFound => "record not found"@,
        CoreError::QuestNotActive => "quest is not active"@,
        CoreError::AchievementNotAvailable => "achievement is not available to earn"@,
        CoreError::RequirementNotMet => "achievement requirements are no longer met"@,
    }
}

impl CoreError {
    /// A message for people.
    pub fn message(&self) -> (r: String)
        ensures
            r@ == message_text(*self),
    {
        match self {
            CoreError::EmptyTitle => String::from_str("title cannot be empty"),
            CoreError::TitleTooLong => String::from_str("title is too long"),
            CoreError::UnknownAttribute => String::from_str("invalid attribute name"),
            CoreError::InvalidDate => String::from_str("failed to parse date"),
            CoreError::NotFound => String::from_str("record not found"),
            CoreError::QuestNotActive => String::from_str("quest is not active"),
            CoreError::AchievementNotAvailable => String::from_str(
                "achievement is not available to earn",
            ),
            CoreError::RequirementNotMet => String::from_str(
                "achievement requirements are no longer met",
            ),
        }
    }
}

} // verus!
