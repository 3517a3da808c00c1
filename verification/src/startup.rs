//! Bringing the sensor up: reset, calibration, identification and a default rotation.
//!
//! The same sequence serves to create a driver and to wake a sensor that has shut
//! itself down.
use crate::calibration::{
    calibration_command, calibration_script, lemma_calibration_lengths,
    CalibrationReadings, SELECT_REGISTER, TRIM_REGISTER_A, TRIM_REGISTER_B,
    TRIM_STATUS_REGISTER,
};
use crate::protocol::{Command, Progress, Reply};
use crate::register::{MOTION, ORIENTATION, POWER_UP_RESET, PRODUCT_ID, PRODUCT_REVISION};
use crate::rotation::{orientation, rotation_command};
use crate::types::{Id, RotationDegrees, SensorError};
use vstd::prelude::*;

verus! {

/// The value written to POWER_UP_RESET to reset the sensor.
pub const RESET_VALUE: u8 = 0x5A;

/// Milliseconds to wait after the reset.
pub const RESET_DELAY_MS: u32 = 20;

/// Everything that the startup sequence reads and acts on.
#[derive(Debug, Clone, Copy, PartialEq, Eq, Structural)]
pub struct StartupReadings {
    pub calibration: CalibrationReadings,
    pub product_id: u8,
    pub revision: u8,
}

impl StartupReadings {
    /// Nothing read yet.
    pub open spec fn spec_initial() -> StartupReadings {
        StartupReadings {
            calibration: CalibrationReadings { reg_67: 0, reg_73: 0, reg_70: 0, reg_71: 0 },
            product_id: 0,
            revision: 0,
        }
    }

    /// The identification read by the startup sequence.
    pub open spec fn read_id(self) -> Id {
        Id { product_id: self.product_id, revision: self.revision }
    }

    /// The readings after `register` was read and gave `value`; reads of other
    /// registers are not kept.
    pub open spec fn with_read(self, register: u8, value: u8) -> StartupReadings {
        if register == SELECT_REGISTER {
            StartupReadings { calibration: CalibrationReadings { reg_67: value, ..self.calibration }, ..self }
        } else if register == TRIM_STATUS_REGISTER {
            StartupReadings { calibration: CalibrationReadings { reg_73: value, ..self.calibration }, ..self }
        } else if register == TRIM_REGISTER_A {
            StartupReadings { calibration: CalibrationReadings { reg_70: value, ..self.calibration }, ..self }
        } else if register == TRIM_REGISTER_B {
            StartupReadings { calibration: CalibrationReadings { reg_71: value, ..self.calibration }, ..self }
        } else if register == PRODUCT_ID {
            StartupReadings { product_id: value, ..self }
        } else if register == PRODUCT_REVISION {
            StartupReadings { revision: value, ..self }
        } else {
            self
        }
    }

    /// The readings after `command` got `reply`.
    pub open spec fn after(self, command: Command, reply: Reply) -> StartupReadings {
        match (command, reply) {
            (Command::Read { register }, Reply::Byte(value)) => self.with_read(register, value),
            _ => self,
        }
    }
}

/// The reset: write the reset value, wait, then read the five motion registers.
pub open spec fn reset_script() -> Seq<Command> {
    seq![
        Command::Write { register: POWER_UP_RESET, value: RESET_VALUE },
        Command::Delay { ms: RESET_DELAY_MS },
        Command::Read { register: MOTION },
        Command::Read { register: (MOTION + 1) as u8 },
        Command::Read { register: (MOTION + 2) as u8 },
        Command::Read { register: (MOTION + 3) as u8 },
        Command::Read { register: (MOTION + 4) as u8 },
    ]
}

/// Reading the product id and revision.
pub open spec fn identity_script() -> Seq<Command> {
    seq![Command::Read { register: PRODUCT_ID }, Command::Read { register: PRODUCT_REVISION }]
}

/// After an accepted id: set the rotation to 0 degrees, a known default.
pub open spec fn default_rotation_script(readings: StartupReadings) -> Seq<Command> {
    if readings.read_id().spec_is_paa5100je() {
        seq![rotation_command(RotationDegrees::_0)]
    } else {
        Seq::empty()
    }
}

/// Every command of the startup sequence, in order, given what its reads return.
pub open spec fn startup_script(readings: StartupReadings) -> Seq<Command> {
    reset_script() + calibration_script(readings.calibration) + identity_script()
        + default_rotation_script(readings)
}

/// What the startup sequence ends with when every transfer went through: an
/// error that carries the id when it is not a PAA5100JE in a known revision.
pub open spec fn startup_outcome(readings: StartupReadings) -> Result<(), SensorError> {
    if readings.read_id().spec_is_paa5100je() {
        Ok(())
    } else {
        Err(SensorError::InvalidId(readings.read_id()))
    }
}

pub proof fn lemma_startup_length(readings: StartupReadings)
    ensures
        startup_script(readings).len() == 7 + calibration_script(readings.calibration).len() + 2
            + default_rotation_script(readings).len(),
        default_rotation_script(readings).len() == if readings.read_id().spec_is_paa5100je() {
            1int
        } else {
            0int
        },
        100 <= startup_script(readings).len() <= 109,
{
    lemma_calibration_lengths(readings.calibration);
}

/// The startup sequence begins with the reset, command by command: 0x5A to
/// POWER_UP_RESET (0x3A), a 20 ms delay, and reads of registers 0x02 to 0x06; the
/// calibration follows; then the reads of registers 0x00 and 0x01.
pub proof fn lemma_startup_begins(readings: StartupReadings)
    ensures
        startup_script(readings).subrange(0, 7) == seq![
            Command::Write { register: 0x3A, value: 0x5A },
            Command::Delay { ms: 20 },
            Command::Read { register: 0x02 },
            Command::Read { register: 0x03 },
            Command::Read { register: 0x04 },
            Command::Read { register: 0x05 },
            Command::Read { register: 0x06 },
        ],
        ({
            let cal_len = calibration_script(readings.calibration).len() as int;
            &&& startup_script(readings).subrange(7, 7 + cal_len) == calibration_script(
                readings.calibration,
            )
            &&& startup_script(readings)[7 + cal_len] == (Command::Read { register: 0x00 })
            &&& startup_script(readings)[8 + cal_len] == (Command::Read { register: 0x01 })
        }),
{
    lemma_startup_length(readings);
    let cal = calibration_script(readings.calibration);
    let cal_len = cal.len() as int;
    let script = startup_script(readings);
    assert(script == reset_script() + cal + identity_script() + default_rotation_script(readings));
    assert(script.subrange(0, 7) =~= seq![
        Command::Write { register: 0x3A, value: 0x5A },
        Command::Delay { ms: 20 },
        Command::Read { register: 0x02 },
        Command::Read { register: 0x03 },
        Command::Read { register: 0x04 },
        Command::Read { register: 0x05 },
        Command::Read { register: 0x06 },
    ]);
    assert(script.subrange(7, 7 + cal_len) =~= cal);
    assert(script[7 + cal_len] == identity_script()[0]);
    assert(script[8 + cal_len] == identity_script()[1]);
}

/// The startup sequence ends by setting the rotation to 0 degrees (orientation
/// 0xE0) when the id is accepted, and with the read of the revision otherwise.
pub proof fn lemma_startup_ends(readings: StartupReadings)
    ensures
        readings.read_id().spec_is_paa5100je() ==> startup_script(readings).last() == (
        Command::Write { register: ORIENTATION, value: 0xE0 }),
        !readings.read_id().spec_is_paa5100je() ==> startup_script(readings).last() == (Command::Read {
            register: PRODUCT_REVISION,
        }),
{
    lemma_startup_length(readings);
    crate::rotation::lemma_orientation_values(RotationDegrees::_0, RotationDegrees::_0);
    let cal = calibration_script(readings.calibration);
    let script = startup_script(readings);
    assert(script == reset_script() + cal + identity_script() + default_rotation_script(readings));
    if readings.read_id().spec_is_paa5100je() {
        assert(script.last() == default_rotation_script(readings)[0]);
    } else {
        assert(script.last() == identity_script()[1]);
    }
}

/// The command at `index` of the startup script, or `None` past its end.
pub fn startup_command(index: usize, readings: &StartupReadings) -> (command: Option<Command>)
    ensures
        index < startup_script(*readings).len() ==> command == Some(
            startup_script(*readings)[index as int],
        ),
        index >= startup_script(*readings).len() ==> command is None,
{
    proof {
        lemma_startup_length(*readings);
    }
    let ghost reset = reset_script();
    let ghost cal = calibration_script(readings.calibration);
    let ghost ident = identity_script();
    let ghost last = default_rotation_script(*readings);
    let ghost script = startup_script(*readings);
    assert(script == reset + cal + ident + last);
    if index < 7 {
        assert(script[index as int] == reset[index as int]);
        let c = if index == 0 {
            Command::Write { register: POWER_UP_RESET, value: RESET_VALUE }
        } else if index == 1 {
            Command::Delay { ms: RESET_DELAY_MS }
        } else {
            let offset = (index - 2) as u8;
            Command::Read { register: MOTION + offset }
        };
        return Some(c);
    }
    let i = index - 7;
    match calibration_command(i, &readings.calibration) {
        Some(c) => {
            assert(script[index as int] == cal[i as int]);
            return Some(c);
        },
        None => {},
    }
    let cal_len: usize = if readings.calibration.reg_73 == 0 {
        99
    } else {
        91
    };
    let j = i - cal_len;
    if j < 2 {
        assert(script[index as int] == ident[j as int]);
        let c = if j == 0 {
            Command::Read { register: PRODUCT_ID }
        } else {
            Command::Read { register: PRODUCT_REVISION }
        };
        return Some(c);
    }
    let id = Id { product_id: readings.product_id, revision: readings.revision };
    if j == 2 && id.is_paa5100je() {
        assert(script[index as int] == last[0]);
        let value = orientation(RotationDegrees::_0);
        return Some(Command::Write { register: ORIENTATION, value });
    }
    None
}

impl StartupReadings {
    /// `with_read`, computed.
    pub fn record_read(self, register: u8, value: u8) -> (updated: StartupReadings)
        ensures
            updated == self.with_read(register, value),
    {
        let mut updated = self;
        if register == SELECT_REGISTER {
            updated.calibration.reg_67 = value;
        } else if register == TRIM_STATUS_REGISTER {
            updated.calibration.reg_73 = value;
        } else if register == TRIM_REGISTER_A {
            updated.calibration.reg_70 = value;
        } else if register == TRIM_REGISTER_B {
            updated.calibration.reg_71 = value;
        } else if register == PRODUCT_ID {
            updated.product_id = value;
        } else if register == PRODUCT_REVISION {
            updated.revision = value;
        }
        updated
    }
}

/// Where each kept read stands in the startup script.
proof fn lemma_read_positions(readings: StartupReadings, p: int)
    requires
        0 <= p < startup_script(readings).len(),
        startup_script(readings)[p] is Read,
    ensures
        ({
            let register = startup_script(readings)[p]->Read_register;
            let cal_len = calibration_script(readings.calibration).len();
            &&& register == SELECT_REGISTER ==> p == 12
            &&& register == TRIM_STATUS_REGISTER ==> p == 19
            &&& register == TRIM_REGISTER_A ==> p == 20 && readings.calibration.reg_73 == 0
            &&& register == TRIM_REGISTER_B ==> p == 21 && readings.calibration.reg_73 == 0
            &&& register == PRODUCT_ID ==> p == 7 + cal_len
            &&& register == PRODUCT_REVISION ==> p == 8 + cal_len
        }),
{
    lemma_startup_length(readings);
    lemma_calibration_lengths(readings.calibration);
    let script = startup_script(readings);
    let cal = calibration_script(readings.calibration);
    let head = crate::calibration::calibration_head(readings.calibration.reg_67);
    let trim = crate::calibration::calibration_trim(readings.calibration);
    let tail = crate::calibration::calibration_tail();
    assert(script == reset_script() + cal + identity_script() + default_rotation_script(readings));
    assert(cal == head + trim + tail);
    if p < 7 {
        assert(script[p] == reset_script()[p]);
    } else if p < 7 + cal.len() {
        assert(script[p] == cal[p - 7]);
        let k = p - 7;
        if k < 13 {
            assert(cal[k] == head[k]);
        } else if k < 13 + trim.len() {
            assert(cal[k] == trim[k - 13]);
        } else {
            assert(cal[k] == tail[k - 13 - trim.len()]);
        }
    } else if p < 9 + cal.len() {
        assert(script[p] == identity_script()[p - 7 - cal.len()]);
    } else {
        assert(script[p] == default_rotation_script(readings)[p - 9 - cal.len()]);
    }
}

/// A read does not change the commands issued up to and including itself.
proof fn lemma_read_keeps_prefix(readings: StartupReadings, p: int, value: u8)
    requires
        0 <= p < startup_script(readings).len(),
        startup_script(readings)[p] is Read,
    ensures
        ({
            let updated = readings.with_read(startup_script(readings)[p]->Read_register, value);
            &&& p < startup_script(updated).len()
            &&& startup_script(updated).take(p + 1) == startup_script(readings).take(p + 1)
        }),
{
    lemma_read_positions(readings, p);
    let register = startup_script(readings)[p]->Read_register;
    let updated = readings.with_read(register, value);
    lemma_startup_length(readings);
    lemma_startup_length(updated);
    lemma_calibration_lengths(readings.calibration);
    lemma_calibration_lengths(updated.calibration);
    let script = startup_script(readings);
    let script2 = startup_script(updated);
    assert(script == reset_script() + calibration_script(readings.calibration) + identity_script()
        + default_rotation_script(readings));
    assert(script2 == reset_script() + calibration_script(updated.calibration) + identity_script()
        + default_rotation_script(updated));
    assert(script2.take(p + 1) =~= script.take(p + 1));
}

/// The startup sequence as a machine. Its position is the index in the startup
/// script of the command it waits on the reply to.
pub struct Startup {
    position: usize,
    pending: Command,
    readings: StartupReadings,
    issued: Ghost<Seq<Command>>,
}

impl Startup {
    pub closed spec fn position(&self) -> int {
        self.position as int
    }

    /// What the reads so far returned.
    pub closed spec fn readings(&self) -> StartupReadings {
        self.readings
    }

    /// Every command issued so far, the pending one last.
    pub closed spec fn issued(&self) -> Seq<Command> {
        self.issued@
    }

    pub closed spec fn wf(&self) -> bool {
        &&& self.position < startup_script(self.readings).len()
        &&& self.pending == startup_script(self.readings)[self.position as int]
        &&& self.issued@ == startup_script(self.readings).take(self.position + 1)
    }

    /// The command that the machine waits on the reply to.
    pub open spec fn pending(&self) -> Command {
        startup_script(self.readings())[self.position()]
    }

    pub fn start() -> (progress: Progress<Startup, ()>)
        ensures
            progress matches Progress::Continue(m, command) && m.wf() && m.position() == 0
                && m.readings() == StartupReadings::spec_initial() && command == startup_script(
                StartupReadings::spec_initial(),
            )[0] && m.issued() == seq![command],
    {
        let readings = StartupReadings {
            calibration: CalibrationReadings { reg_67: 0, reg_73: 0, reg_70: 0, reg_71: 0 },
            product_id: 0,
            revision: 0,
        };
        proof {
            lemma_startup_length(readings);
        }
        let command = startup_command(0, &readings).unwrap();
        let ghost issued = seq![command];
        assert(issued =~= startup_script(readings).take(1));
        Progress::Continue(
            Startup { position: 0, pending: command, readings, issued: Ghost(issued) },
            command,
        )
    }

    /// Takes the reply to the pending command. A failed transfer ends the
    /// sequence with that SPI error. Otherwise everything issued so far is the
    /// startup script's prefix for what is known now, and the machine either
    /// issues the script's next command or, past its end, finishes with
    /// `startup_outcome`.
    pub fn resume(self, reply: Reply) -> (progress: Progress<Startup, ()>)
        requires
            self.wf(),
            reply.answers(self.pending()),
        ensures
            match reply {
                Reply::Failed(kind) => progress == Progress::<Startup, ()>::Finish(
                    Err(SensorError::Spi(kind)),
                ),
                _ => {
                    let readings = self.readings().after(self.pending(), reply);
                    let script = startup_script(readings);
                    let next = self.position() + 1;
                    &&& self.issued() == script.take(next)
                    &&& if next < script.len() {
                        progress matches Progress::Continue(m, command) && m.wf() && m.position()
                            == next && m.readings() == readings && command == script[next]
                            && m.issued() == self.issued().push(command)
                    } else {
                        &&& progress == Progress::<Startup, ()>::Finish(startup_outcome(readings))
                        &&& self.issued() == script
                    }
                },
            },
    {
        if let Reply::Failed(kind) = reply {
            return Progress::Finish(Err(SensorError::Spi(kind)));
        }
        let mut readings = self.readings;
        if let Command::Read { register } = self.pending {
            if let Reply::Byte(value) = reply {
                proof {
                    lemma_read_keeps_prefix(self.readings, self.position as int, value);
                }
                readings = readings.record_read(register, value);
            }
        }
        assert(readings == self.readings().after(self.pending(), reply));
        proof {
            lemma_startup_length(readings);
        }
        let next = self.position + 1;
        match startup_command(next, &readings) {
            Some(command) => {
                let ghost issued = self.issued@.push(command);
                assert(issued =~= startup_script(readings).take(next + 1));
                Progress::Continue(
                    Startup { position: next, pending: command, readings, issued: Ghost(issued) },
                    command,
                )
            },
            None => {
                assert(self.issued@ =~= startup_script(readings));
                let id = Id { product_id: readings.product_id, revision: readings.revision };
                if id.is_paa5100je() {
                    Progress::Finish(Ok(()))
                } else {
                    Progress::Finish(Err(SensorError::InvalidId(id)))
                }
            },
        }
    }
}

} // verus!
