//! Client side of the remote console (RCON) protocol of a game server, with
//! the decisions of its interactive console, and the plain data of the
//! project tool around it.

pub mod config_file;
pub mod console;
pub mod error;
pub mod fabric;
pub mod modrinth;
pub mod packet;
pub mod prompt;
pub mod server_props;
pub mod session;
pub mod text;
