//! The decision logic of the RetroVeneer front end and its installer: menu
//! navigation, the per-frame state machine of the user interface, what each
//! screen draws, the files and scripts the program writes, and the steps of
//! the installer.  Window, keyboard, file system, processes and timers are
//! driven by the program around this library.
pub mod menu_nav;
pub mod spinner;
pub mod ui;
pub mod ui_laws;
pub mod config;
pub mod paths;
pub mod scene;
pub mod screens;
pub mod installer;
