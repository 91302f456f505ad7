//! Dump plans for each supported NES mapper: the bank-switch writes issued
//! before each buffered dump, and the flash-id probes.
pub mod cnrom;
pub mod mmc1;
pub mod mmc3;
pub mod nrom;
pub mod unrom;
