//! Core of a menu-bar application that supervises a single helper server
//! process (a remote-file-open server for an editor) and lets the user toggle
//! it on and off and pick the target editor, persisting that choice.
//!
//! The library holds the verified logic: the editor registry, the persisted
//! preference and its on-disk format, the process supervisor's state machine,
//! and the tray command router that turns user events into supervisor
//! transitions and UI-update commands. The surrounding binary performs the
//! actual process spawning, file reads and writes, and menu rendering, and
//! feeds their outcomes back in as plain values.

pub mod config;
pub mod editor;
pub mod laws;
pub mod router;
pub mod supervisor;
