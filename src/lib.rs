//! Access to the cf-ad9361-dds-core-lpc DDS core through the IIO debugfs
//! `direct_reg_access` file.
//!
//! The library decides which enumerated IIO device is the DDS core, where its
//! register-access file lives, and which bytes a register write sends. Reading
//! directories and writing files is left to the caller.
pub mod config;
pub mod text;
pub mod dds_core;

pub use dds_core::{DdsCore, DdsError, DeviceScan, RegisterWrite};

pub use config::{
    DEBUG_ROOT, I_CHANNEL_SOURCE_ADDR, IIO_DEVICES_DIR, NAME_FILE, Q_CHANNEL_SOURCE_ADDR,
    REG_ACCESS_FILE, TARGET_NAME,
};

