//! Refresh scheduling and notification decisions for a usage monitor.

pub mod api;
pub mod auto_refresh;
pub mod clock;
pub mod credentials;
pub mod error;
pub mod history;
pub mod notification_lemmas;
pub mod notifications;
pub mod orchestrator;
pub mod poll;
pub mod text;
pub mod tray;
pub mod types;
pub mod validation;
