//! Tracking of a single foreign top-level window that appears somewhere in
//! the process tree of a launched command: discovery by polling and by
//! window events, narrow event scoping once found, and the window
//! operations a tray host needs.
pub mod background_window;
pub mod base_window;
pub mod cli;
pub mod event_queue;
pub mod foreign_process_tree;
pub mod icon;
pub mod msg_loop;
pub mod process_set;
pub mod text;
pub mod tray_icon;
pub mod win_event_hook;
pub mod window_ops;
