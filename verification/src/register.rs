//! Register addresses of the sensor.
use vstd::prelude::*;

verus! {

pub const PRODUCT_ID: u8 = 0x00;

pub const PRODUCT_REVISION: u8 = 0x01;

pub const MOTION: u8 = 0x02;

pub const DELTAX_L: u8 = 0x03;

pub const DELTAX_H: u8 = 0x04;

pub const DELTAY_L: u8 = 0x05;

pub const DELTAY_H: u8 = 0x06;

pub const SQUAL: u8 = 0x07;

pub const RAW_DATA_SUM: u8 = 0x08;

pub const MAXIMUM_RAW_DATA: u8 = 0x09;

pub const MINIMUM_RAW_DATA: u8 = 0x0A;

pub const SHUTTER_LOWER: u8 = 0x0B;

pub const SHUTTER_UPPER: u8 = 0x0C;

pub const OBSERVATION: u8 = 0x15;

pub const MOTION_BURST: u8 = 0x16;

pub const POWER_UP_RESET: u8 = 0x3A;

pub const SHUTDOWN: u8 = 0x3B;

pub const RAW_DATA_GRAB: u8 = 0x58;

pub const RAW_DATA_GRAB_STATUS: u8 = 0x59;

pub const ORIENTATION: u8 = 0x5B;

pub const INVERSE_PRODUCT_ID: u8 = 0x5F;

/// The addresses of the registers that the driver's operations use.
pub proof fn lemma_register_map()
    ensures
        PRODUCT_ID == 0x00,
        PRODUCT_REVISION == 0x01,
        MOTION == 0x02,
        MOTION_BURST == 0x16,
        POWER_UP_RESET == 0x3A,
        RAW_DATA_GRAB == 0x58,
        RAW_DATA_GRAB_STATUS == 0x59,
        ORIENTATION == 0x5B,
{
}

} // verus!
