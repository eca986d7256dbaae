//! Core of an FTP server (RFC 959 subset): the reply codec, the command
//! parser, the virtual-filesystem jail, the user store, and the
//! connection/transfer state machine. All socket and file I/O is left to the
//! embedding program, which feeds events in and carries actions out.
pub mod buffer;
pub mod command;
pub mod fsmodel;
pub mod paths;
pub mod records;
pub mod registry;
pub mod response;
pub mod server;
pub mod users;

pub use response::{create_response, get_test_html, Response};
