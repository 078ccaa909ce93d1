//! Clipboard-history core: text normalisation, content signatures,
//! clipboard payload checks and window geometry of the ZsClip manager.

pub mod chars;
pub mod text;
pub mod paths;
pub mod item;
pub mod signature;
pub mod capture;
pub mod geometry;
pub mod edge;
pub mod source;
pub mod hosts;
pub mod vv;
pub mod lan;
pub mod store;
pub mod qr;
pub mod hotkey;
pub mod pixels;
pub mod intake;
pub mod outside;
pub mod settings;
pub mod keys;
pub mod menu;
pub mod query;
