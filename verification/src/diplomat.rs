pub mod postgres;
pub mod redis;
