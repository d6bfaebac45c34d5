//! Lifecycle supervisor for a single local backend worker process.

pub mod escalation;
pub mod health;
pub mod launch;
pub mod logger;
pub mod supervisor;
pub mod text;
pub mod window_gate;
