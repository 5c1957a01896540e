//! The core of a streaming chat engine, with contracts that are proved.
//!
//! A client holds a conversation of many turns with a generative model that
//! answers as a stream of events. In the middle of an answer the model may ask
//! for a function to be run, an image to be generated or the web to be searched,
//! and the result is spliced into what the client sees. This crate holds the
//! rules of that exchange and proves what they promise; connections, channels
//! and durable storage belong to the program around it.
//!
//! - [`data`]: the ledger of sessions and of what was written to each, in order.
//! - [`gemini`]: the client of the model's stream, and the shapes it exchanges
//!   with the backend.
//! - [`dispatch`]: the registry of the functions that the model may call.
//! - [`composer`]: the relay between the stream and the consumer, as a state
//!   machine.
//! - [`trace`]: what holds of whole runs of the relay.
//! - [`flux`] and [`brave`]: what the two functions of the registry ask of their
//!   services, and what they make of the answers.
//! - [`context`]: what the model is told of a channel without a session.
//! - [`transcript`] and [`display`]: the text of a run, and what a consumer shows
//!   of it.
//! - [`activity`]: what a bot that serves the engine appears to be doing.
//! - [`proto`], [`error`], [`strmap`], [`text`], [`views`]: messages, failures and
//!   the helpers that the rest is built on.

pub mod activity;
pub mod brave;
pub mod composer;
pub mod context;
pub mod data;
pub mod dispatch;
pub mod display;
pub mod error;
pub mod flux;
pub mod gemini;
pub mod proto;
pub mod strmap;
pub mod text;
pub mod trace;
pub mod transcript;
pub mod views;
