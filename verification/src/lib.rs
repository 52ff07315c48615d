//! A verified global hotkey registration manager.
//!
//! The manager maps a fixed set of named actions to user-configured
//! key-combination strings, registers them with the operating system's
//! global-shortcut facility through an injected collaborator, and is the
//! single source of truth for what is currently bound.  Replacing the whole
//! hotkey set is atomic: a failure rolls back every registration the call
//! made, so callers never observe a partially applied set.

pub mod fake;
pub mod laws;
pub mod manager;
pub mod os;

pub use fake::FakeShortcutOs;
pub use manager::HotkeyConfig;
pub use manager::HotkeyError;
pub use manager::HotkeyManager;
pub use manager::check_hotkey_availability;
pub use os::FaultKind;
pub use os::OsError;
pub use os::ShortcutOs;
