//! Progression and rules engine of a gamified productivity tracker: experience
//! and levels, attribute growth, habit streaks, rewards, weekly quests and
//! achievement badges, each stated as a verified contract over plain data.

pub mod achievements;
pub mod error;
pub mod models;
pub mod numtext;
pub mod operations;
pub mod progression;
pub mod quests;
pub mod rewards;
pub mod streak;
pub mod text;
