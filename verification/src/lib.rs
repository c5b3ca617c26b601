//! A verified core for an XDCC download client: the IRC line codec, the
//! CTCP/DCC and XDCC grammars, and the session and download state machines.

pub mod command;
pub mod ctcp;
pub mod dcc;
pub mod downloader;
pub mod session;
pub mod text;
pub mod xdcc;
