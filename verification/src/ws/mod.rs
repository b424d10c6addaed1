pub mod registry;
pub mod handler;
