//! A verified core for an automated pointer-clicking utility.
//!
//! The library holds the clicking engine: an axis-aligned region type with an
//! order-independent containment test, an immutable-per-run configuration
//! snapshot, an environment capability that abstracts over pointer reads,
//! click synthesis and suspension, and the cancellable timed loop with its
//! start/stop/toggle/reconfigure state machine. The host shell (UI, hotkey
//! listener, tray icon) stays outside and drives the engine only through its
//! public operations.

pub mod config;
pub mod engine;
pub mod env;
pub mod geometry;

pub use config::Config;
pub use engine::AutoClicker;
pub use engine::EnvironmentError;
pub use env::ClickEnv;
pub use env::ScriptEnv;
pub use geometry::Rect;
