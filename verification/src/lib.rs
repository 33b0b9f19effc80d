//! Identification of the NAND flash chips behind NVMe and SATA SSD
//! controllers.
//!
//! The library is the pure half of the tool: it builds the vendor-specific
//! command structures bit for bit, classifies raw completion data, and
//! extracts flash-bank identifiers from the response buffers.  An unverified
//! shell owns the device handle; it submits the requests this library builds
//! and hands every raw reply back for interpretation.

pub mod ata;
pub mod bank;
pub mod controllers;
pub mod detect;
pub mod nand_db;
pub mod nvme;
pub mod text;
