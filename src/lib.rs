//! The decisions and values behind a small desktop application shell: what
//! its commands answer, how its menus are laid out, and what a click on the
//! tray icon or one of its entries asks the application to do.
pub mod commands;
pub mod menu;
pub mod tray;
