//! The game cartridge: its header, the KEY1 cipher and the command
//! protocol.
pub mod key1;
pub mod header;
pub mod backup;
pub mod registers;
pub mod card;
pub mod secure;
