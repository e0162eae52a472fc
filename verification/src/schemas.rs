pub mod models;
pub mod wire_in;
pub mod wire_out;
