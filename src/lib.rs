//! Host-side protocol library for the INL Retro-Prog cartridge dumper.
//!
//! The library builds the vendor control transfers that drive the device,
//! decides what to do with each response, and turns captured bytes into
//! cartridge images and headers. Performing the transfers is left to the
//! caller.
pub mod opcodes;
pub mod transport;
pub mod buffer;
pub mod operation;
pub mod session;
pub mod io;
pub mod pinport;
pub mod bootload;
pub mod nes;
pub mod nes_mappers;
pub mod snes;
pub mod text;
pub mod gb;
pub mod gba;
pub mod genesis;
pub mod cli;
