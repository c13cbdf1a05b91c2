//! Relays camera snapshots from a Shinobi surveillance server to a Telegram chat.
//!
//! A relay lists the server's monitors, fetches every monitor's current picture, puts
//! the pictures together in the order of the list and delivers them to a chat as one
//! batch. A camera that gives no picture is left out; the others are still delivered.
//!
//! Nothing in this crate touches the network. The snapshot client says where to ask and
//! how to read the answers; the relay and the chat sink are state machines that ask
//! their caller for the next action and take what happened as an event.

pub mod armed;
pub mod batch;
pub mod batch_laws;
pub mod chat;
pub mod command;
pub mod error;
pub mod monitor;
pub mod relay;
pub mod relay_laws;
pub mod shinobi;
pub mod sink;
pub mod sink_laws;
pub mod telegram;
pub mod trigger;
