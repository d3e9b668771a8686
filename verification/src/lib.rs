//! Control layer of a small desktop browser shell: what a typed address
//! means, which tabs are open and which is active, which built-in page
//! answers a request, whether Flash runs natively or emulated, and what the
//! browser reports of its memory.

pub mod address;
pub mod browser_core;
pub mod chrome;
pub mod commands;
pub mod encoding;
pub mod flash;
pub mod main_window;
pub mod markup;
pub mod memory;
pub mod pages;
pub mod scripts;
pub mod shell;
pub mod tabs;
pub mod text;
