//! Verified core of a UHF RFID reader client: the serial frame format of the
//! reader (header byte, length, address, command, data, checksum), the
//! command frames the client sends, the decoding of the reader's replies,
//! the hex text used for EPC codes, and the decision logic of the client's
//! sessions (connect, inventory, EPC matching).

pub mod frame;
pub mod commands;
pub mod response;
pub mod ui;
pub mod buffer;
pub mod hex;
pub mod transfer;
pub mod session;
pub mod connect;
pub mod config;
pub mod inventory;
pub mod sheet;

