//! Weekly session planning: occurrence arithmetic on a fixed-zone calendar and
//! the decisions of the reminder bot.
pub mod bot;
pub mod time_helper;
