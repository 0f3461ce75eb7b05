//! Verified core of the MilkyWM orbital window manager: tiling geometry,
//! workspaces with a sun and orbiting planets, the orbital switcher state
//! machine, keyboard/pointer/IPC decision logic and small text codecs.
pub mod layout;
pub mod orbit;
pub mod workspace;
pub mod orbital;
pub mod keysyms;
pub mod input;
pub mod text;
pub mod ipc;
pub mod ctl;
pub mod starfield;
pub mod backend;
pub mod paths;
pub mod thumbnail;
