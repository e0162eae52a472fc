pub mod db;
pub mod http;
pub mod redis;
