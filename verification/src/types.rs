//! The values that the driver hands out.
use vstd::prelude::*;

verus! {

#[verifier::external_type_specification]
#[verifier::external_body]
pub struct ExSpiErrorKind(embedded_hal_async::spi::ErrorKind);

/// Product identification information.
#[derive(Debug, Clone, Copy, PartialEq, Eq, Structural)]
pub struct Id {
    /// Product ID number retrieved from the PRODUCT_ID register
    pub product_id: u8,
    /// Product revision number retrieved from the PRODUCT_REVISION register
    pub revision: u8,
}

/// The product ID that a PAA5100JE reports.
pub const PAA5100JE_PRODUCT_ID: u8 = 0x49;

/// The highest product revision of the PAA5100JE that the driver accepts.
pub const PAA5100JE_MAX_REVISION: u8 = 0x01;

impl Id {
    /// An id is accepted when it names the PAA5100JE in a known revision.
    pub open spec fn spec_is_paa5100je(self) -> bool {
        self.product_id == PAA5100JE_PRODUCT_ID && self.revision <= PAA5100JE_MAX_REVISION
    }

    pub fn is_paa5100je(&self) -> (accepted: bool)
        ensures
            accepted == self.spec_is_paa5100je(),
    {
        self.product_id == PAA5100JE_PRODUCT_ID && self.revision <= PAA5100JE_MAX_REVISION
    }
}

/// The accepted ids: product id 0x49 with revision 0 or 1, and no other.
pub proof fn lemma_accepted_ids(id: Id)
    ensures
        id.spec_is_paa5100je() <==> (id.product_id == 0x49 && (id.revision == 0 || id.revision
            == 1)),
{
}

/// Errors that the sensor driver reports.
#[derive(Debug, Clone, Copy, PartialEq, Eq)]
pub enum SensorError {
    /// An error occurred during SPI comms.
    Spi(embedded_hal_async::spi::ErrorKind),
    /// ID or revision number retrieved from the sensor was invalid.
    InvalidId(Id),
    /// Motion data retrieved from sensor did not pass validation.
    InvalidMotion,
}

/// Valid rotation settings.
#[allow(non_camel_case_types)]
#[derive(Debug, Clone, Copy, PartialEq, Eq, Structural)]
pub enum RotationDegrees {
    _0,
    _90,
    _180,
    _270,
}

impl RotationDegrees {
    pub open spec fn spec_degrees(self) -> u16 {
        match self {
            RotationDegrees::_0 => 0,
            RotationDegrees::_90 => 90,
            RotationDegrees::_180 => 180,
            RotationDegrees::_270 => 270,
        }
    }

    /// The rotation in degrees.
    pub fn degrees(&self) -> (d: u16)
        ensures
            d == self.spec_degrees(),
    {
        match self {
            RotationDegrees::_0 => 0,
            RotationDegrees::_90 => 90,
            RotationDegrees::_180 => 180,
            RotationDegrees::_270 => 270,
        }
    }
}

/// The rotations are 0, 90, 180 and 270 degrees.
pub proof fn lemma_rotation_degrees()
    ensures
        RotationDegrees::_0.spec_degrees() == 0,
        RotationDegrees::_90.spec_degrees() == 90,
        RotationDegrees::_180.spec_degrees() == 180,
        RotationDegrees::_270.spec_degrees() == 270,
{
}

/// Motion since the last reading.
#[derive(Debug, Clone, Copy, PartialEq, Eq, Structural)]
pub struct MotionDelta {
    /// Motion in the x direction
    pub x: i16,
    /// Motion in the y direction
    pub y: i16,
}

} // verus!
