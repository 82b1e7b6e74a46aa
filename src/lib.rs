//! Outbound-request correlation for an asynchronous MQTT client: the keys
//! that identify outstanding requests, the table of pending completions,
//! and the registration task that inserts into it under the connection lock.

pub mod key;
pub mod error;
pub mod packet;
pub mod notifier;
pub mod table;
pub mod handler;
