//! Fixed names, paths and register addresses of the DDS core.
use vstd::prelude::*;

verus! {

/// Directory whose children are the devices known to the IIO framework.
pub const IIO_DEVICES_DIR: &'static str = "/sys/bus/iio/devices";

/// Attribute file, inside each device directory, holding the device's type.
pub const NAME_FILE: &'static str = "name";

/// Type string reported by the DDS core's driver.
pub const TARGET_NAME: &'static str = "cf-ad9361-dds-core-lpc";

/// Root of the IIO debugfs tree.
pub const DEBUG_ROOT: &'static str = "/sys/kernel/debug/iio";

/// File, inside a device's debugfs directory, that accepts register writes.
pub const REG_ACCESS_FILE: &'static str = "direct_reg_access";

/// Address of the I channel control register (DDS_CHAN_CNTRL_7).
pub const I_CHANNEL_SOURCE_ADDR: u32 = 0x80000418;

/// Address of the Q channel control register (DDS_CHAN_CNTRL_8).
pub const Q_CHANNEL_SOURCE_ADDR: u32 = 0x80000458;

} // verus!
