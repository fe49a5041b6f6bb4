//! A relay for web form submissions: an account directory routes each
//! submission to a recipient, and the submission is handed to a transactional
//! email gateway as an HTML message.
//!
//! The library decides; the caller performs the network exchange. A
//! submission is started with [`handler::begin`], which either asks for one
//! gateway request or answers at once, and the gateway's reply is turned into
//! the answer for the form with [`handler::finish`].

pub mod config;
pub mod directory;
pub mod gateway;
pub mod handler;
pub mod json;
pub mod message;
