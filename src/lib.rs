//! An interactive shell over phext documents: the session state machine and
//! its command language, with the phext engine (libphext) behind contracts.

pub mod text;
pub mod coordinate;
pub mod engine;
pub mod command;
pub mod shell;
pub mod laws;
