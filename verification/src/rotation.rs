//! How the sensor's orientation register encodes a rotation.
use crate::protocol::{Command, Progress, Reply};
use crate::register::ORIENTATION;
use crate::types::{RotationDegrees, SensorError};
use vstd::prelude::*;

verus! {

/// Orientation bit: exchange the x and y axes.
pub const SWAP_XY: u8 = 0b1000_0000;

/// Orientation bit: invert the y axis.
pub const INVERT_Y: u8 = 0b0100_0000;

/// Orientation bit: invert the x axis.
pub const INVERT_X: u8 = 0b0010_0000;

/// The orientation register value for a rotation.
pub open spec fn orientation_bits(rotation: RotationDegrees) -> u8 {
    match rotation {
        RotationDegrees::_0 => SWAP_XY | INVERT_X | INVERT_Y,
        RotationDegrees::_90 => INVERT_Y,
        RotationDegrees::_180 => SWAP_XY,
        RotationDegrees::_270 => INVERT_X,
    }
}

pub fn orientation(rotation: RotationDegrees) -> (bits: u8)
    ensures
        bits == orientation_bits(rotation),
{
    match rotation {
        RotationDegrees::_0 => SWAP_XY | INVERT_X | INVERT_Y,
        RotationDegrees::_90 => INVERT_Y,
        RotationDegrees::_180 => SWAP_XY,
        RotationDegrees::_270 => INVERT_X,
    }
}

/// The orientation values are 0xE0, 0x40, 0x80 and 0x20, and different
/// rotations write different values.
pub proof fn lemma_orientation_values(a: RotationDegrees, b: RotationDegrees)
    ensures
        orientation_bits(RotationDegrees::_0) == 0xE0,
        orientation_bits(RotationDegrees::_90) == 0x40,
        orientation_bits(RotationDegrees::_180) == 0x80,
        orientation_bits(RotationDegrees::_270) == 0x20,
        a != b ==> orientation_bits(a) != orientation_bits(b),
{
    assert(0b1000_0000u8 | 0b0010_0000u8 | 0b0100_0000u8 == 0xE0u8) by (bit_vector);
}

/// The command that sets the sensor's rotation.
pub open spec fn rotation_command(rotation: RotationDegrees) -> Command {
    Command::Write { register: ORIENTATION, value: orientation_bits(rotation) }
}

/// Setting the sensor's rotation: one write of the orientation register.
pub struct RotationUpdate {
    rotation: RotationDegrees,
}

impl RotationUpdate {
    pub closed spec fn rotation(&self) -> RotationDegrees {
        self.rotation
    }

    /// The command that the machine waits on the reply to.
    pub open spec fn pending(&self) -> Command {
        rotation_command(self.rotation())
    }

    pub fn start(rotation: RotationDegrees) -> (progress: Progress<RotationUpdate, ()>)
        ensures
            progress matches Progress::Continue(m, command) && m.rotation() == rotation
                && command == rotation_command(rotation),
    {
        let value = orientation(rotation);
        Progress::Continue(
            RotationUpdate { rotation },
            Command::Write { register: ORIENTATION, value },
        )
    }

    pub fn resume(self, reply: Reply) -> (progress: Progress<RotationUpdate, ()>)
        requires
            reply.answers(self.pending()),
        ensures
            match reply {
                Reply::Failed(kind) => progress == Progress::<RotationUpdate, ()>::Finish(
                    Err(SensorError::Spi(kind)),
                ),
                _ => progress == Progress::<RotationUpdate, ()>::Finish(Ok(())),
            },
    {
        match reply {
            Reply::Failed(kind) => Progress::Finish(Err(SensorError::Spi(kind))),
            _ => Progress::Finish(Ok(())),
        }
    }
}

} // verus!
