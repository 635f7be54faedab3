//! Tray and window event coordination for a desktop application that lives
//! in the system tray.
//!
//! The crate decides; it never touches a window. Each handler maps one event
//! of the host runtime to the ordered list of operations the host has to
//! carry out: [`on_system_tray_event`] for the tray menu, [`on_window_event`]
//! for the main window. [`create_system_tray`] describes the menu itself, and
//! [`Host`] is a small executable model of the runtime against which the
//! effect of those operations is stated and proved.

pub mod host;
pub mod ident;
pub mod laws;
pub mod menu;
pub mod ops;
pub mod tray;
pub mod window;

pub use host::{CloseRequest, Host, HostError, WindowState};
pub use menu::{create_system_tray, MenuEntry, MenuId, TrayMenu};
pub use ops::{main_window_label, HostOp};
pub use tray::{menu_action, on_system_tray_event, TrayEvent};
pub use window::{on_window_event, WindowEvent};
