pub mod calendar;
pub mod duration;
pub mod jira;
pub mod pattern;
pub mod text;
pub mod timew;
pub mod sync;
