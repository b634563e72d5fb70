//! A notification-area ("system tray") icon with a context menu.
//!
//! The library holds the platform-independent logic: the menu model and its
//! builder, the table from native command ids back to events, the decisions
//! the tray window takes for each window message, and the change detection of
//! live icon and menu updates. The native calls are made around it.
use vstd::prelude::*;

pub mod dispatcher;
pub mod entries;
pub mod error;
pub mod icon;
pub mod menu;
pub mod native_menu;
pub mod tray;

pub use dispatcher::{EventSource, Reaction, TrayState};
pub use entries::{EntryKind, NativeEntry};
pub use error::Error;
pub use icon::Icon;
pub use menu::{MenuBuilder, MenuItem};
pub use native_menu::NativeMenu;
pub use tray::{TrayIcon, TrayIconBuilder};
