//! Deep-link dispatch for a single-instance desktop application.
//!
//! A desktop shell registers a custom URL scheme with the operating system;
//! clicking such a URL launches or activates the application. This library
//! holds the coordination logic of that shell: deciding whether a freshly
//! launched process becomes the primary instance or relays its arguments to
//! an already-running one, validating candidate deep-link URLs against the
//! registered scheme prefix, and turning each delivery into the exact list
//! of UI actions (window creation, focus, event emission, script-injection
//! fallback) that the embedding shell must perform against its window
//! handles. The shell itself — the event loop, the window handles, the
//! OS-level hooks — stays outside; it feeds events in as plain values and
//! carries the returned actions out.

pub mod actions;
pub mod dispatch;
pub mod laws;
pub mod scheme;

pub use actions::AbsAction;
pub use actions::Platform;
pub use actions::UiAction;
pub use dispatch::Config;
pub use dispatch::Dispatcher;
pub use dispatch::LaunchOutcome;
pub use dispatch::decide_launch;
pub use dispatch::default_config;
pub use scheme::spec_prefix_of;
pub use scheme::starts_with_prefix;
