pub mod target;
pub mod runtime;
