//! The verified core of the Node.js binding of the Arnelify server: reading
//! the options of a new server, keeping the servers and the open streams by
//! id, decoding the commands that the JavaScript side sends over a server's
//! local socket, and shaping what is sent back.
pub mod json;
pub mod options;
pub mod config;
pub mod registry;
pub mod addr_table;
pub mod commands;
pub mod events;
pub mod parse;
pub mod lifecycle;
pub mod clock;
pub mod laws;
