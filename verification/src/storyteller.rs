//! What the tool reports while it runs: progress, actions and their human-readable form.
pub mod event;
pub mod handler;
pub mod progress;
