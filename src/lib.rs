//! Campus service library: the personal timetable engine (recurring weekly
//! slots, conflict detection, partial-success batch commits) and the plain
//! value types and rules of the surrounding service.

pub mod activity;
pub mod auth;
pub mod course;
pub mod engine;
pub mod error;
pub mod file_detector;
pub mod forum;
pub mod laws;
pub mod schedule;
pub mod slot;
pub mod store;
pub mod text;
pub mod time_format;
pub mod upload;
pub mod user;
