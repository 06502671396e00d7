//! A multi-protocol client core for small text-oriented internet protocols:
//! protocol classification, request building, response parsing, content
//! parsing and navigation state.

pub mod gemtext;
pub mod gopher;
pub mod guppy;
pub mod handlers;
pub mod history;
pub mod hosts;
pub mod location;
pub mod navigation;
pub mod nex;
pub mod plain;
pub mod protocol;
pub mod scorpion;
pub mod status;
pub mod text;
