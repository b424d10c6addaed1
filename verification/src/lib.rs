pub mod error;
pub mod ingest;
pub mod moderation;
pub mod notify;
pub mod search;
pub mod text;
pub mod time;
pub mod ws;
