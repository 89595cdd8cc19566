//! The message types of the 8080_msg chat protocol, their wire framing, and the
//! decisions that the chat server and the terminal client take on them.
//!
//! - [`message`]: messages, users, privileges and the packets that clients and the
//!   server exchange;
//! - [`frame`]: the length-prefixed framing that carries an encoded packet;
//! - [`server`]: the roster of connected users and the server's answer to each packet;
//! - [`client`]: how the terminal client turns a typed line into a packet;
//! - [`tty_msg`]: the types of the older `tty_msg` protocol and its native-endian framing.
pub mod message;
pub mod frame;
pub mod server;
pub mod client;
pub mod tty_msg;

pub use message::{
    FileTransfer, InvalidUserPrivilege, Message, Packet, User, UserFile, UserPrivilege, Username,
};
