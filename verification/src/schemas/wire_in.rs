pub mod redis;
pub mod task;
