//! Recovery of deleted and lost files from NTFS volumes: decoding of the
//! on-disk structures, the rules of the scan and recovery pipeline, and the
//! signature carver, each with a machine-checked contract.

pub mod bitlocker;
pub mod bytes;
pub mod data_runs;
pub mod disk_reader;
pub mod error;
pub mod file_carver;
pub mod filesystem_disk_reader;
pub mod filesystem_recovery_engine;
pub mod fixup;
pub mod ntfs_parser;
pub mod ordering;
pub mod recovery_engine;
pub mod recovery_strategies;
pub mod signature_catalogue;
pub mod text;
pub mod validation;
pub mod vss;
