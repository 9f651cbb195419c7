//! Verified core of the Preaching Partner client: the messages exchanged with
//! the server and the frontend, the SQL statements that persist them, and the
//! decisions taken by the connection, login and synchronisation loops.

pub mod datatypes;
pub mod encoding;
pub mod queries;
pub mod rows;
pub mod services;
pub mod commands;
pub mod connection;
pub mod conversation;
pub mod login;
pub mod sync;
pub mod token_store;
