pub mod execution;
pub mod insertion;
