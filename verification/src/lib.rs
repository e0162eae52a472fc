//! Scheduling rules of a cron-driven task executor: retry-policy limits,
//! re-scheduling of executed tasks, the conversions between the wire and
//! model representations of a task, and the framing of cache replies.

pub mod adapters;
pub mod cron_schedule;
pub mod logic;
pub mod schemas;
pub mod text;
pub mod randomness;
pub mod sql;
pub mod diplomat;
pub mod controllers;
