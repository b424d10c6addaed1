pub mod sources;
