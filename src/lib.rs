//! Navigation, task bracketing and persisted state of a multi-step packaging wizard.
pub mod kv;
pub mod library;
pub mod message;
pub mod platform;
pub mod shell;
pub mod task;
pub mod text;
pub mod welcome;
pub mod wine;
