pub mod http;
pub mod redis;
