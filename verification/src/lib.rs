//! A chat channel on top of Synology Chat's webhooks.
//!
//! Synology Chat posts what people write to the channel through an *outgoing
//! webhook*, and takes what the channel has to say through an *incoming
//! webhook*. This crate decides what a request of the first becomes, and which
//! requests to make of the second; it opens no connection itself.
//!
//! * [`adapter`] checks a request's token and turns its payload into a message.
//! * [`payload`] finds the payload in a request and reads it.
//! * [`send`] cuts a message into chunks and leads through posting them.
//! * [`types`] holds the messages, users and contents.
//! * [`laws`] states what holds of all of this together.
//! * [`text`] and [`decimal`] work on characters and digits.
//! * [`json`], [`form`], [`secret`] and [`clock`] hold the calls into other
//!   crates, with what is taken for granted of them.

pub mod adapter;
pub mod clock;
pub mod decimal;
pub mod form;
pub mod json;
pub mod laws;
pub mod payload;
pub mod secret;
pub mod send;
pub mod text;
pub mod types;
