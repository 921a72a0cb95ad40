//! Core logic of a tray-resident desktop overlay shell.
//!
//! The shell itself (webview, tray icon, OS hotkey capture, updater plumbing)
//! lives outside this crate; here stand the decisions it runs on: the
//! persisted settings record with its canonical text encoding, the
//! hotkey-registration fallback state machine, the key-combo grammar, tray
//! menu dispatch, the window-presenter state model, the startup gate, the
//! update-flow decisions and the format-usage stub.

pub mod codec;
pub mod combo;
pub mod guard;
pub mod registrar;
pub mod settings;
pub mod startup;
pub mod stats;
pub mod text;
pub mod tray;
pub mod updater;
pub mod window;
