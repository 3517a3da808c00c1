use embedded_hal_async::spi::ErrorKind;
use paa5100je_pmw3901::calibration::{calibration_command, trim_a, trim_b, CalibrationReadings};
use paa5100je_pmw3901::protocol::{Command, Progress, Reply};
use paa5100je_pmw3901::register::{ORIENTATION, POWER_UP_RESET, PRODUCT_ID, PRODUCT_REVISION};
use paa5100je_pmw3901::startup::Startup;
use paa5100je_pmw3901::{Id, SensorError};

/// Runs the startup sequence against a sensor whose registers read as `read`
/// says; the transfer numbered `fail_at` (counting from 1) fails, if any.
fn run_startup(read: impl Fn(u8) -> u8, fail_at: Option<usize>) -> (Vec<Command>, Result<(), SensorError>) {
    let mut commands = Vec::new();
    let mut progress = Startup::start();
    loop {
        match progress {
            Progress::Finish(result) => return (commands, result),
            Progress::Continue(machine, command) => {
                commands.push(command);
                let reply = match command {
                    Command::Delay { .. } => Reply::Waited,
                    _ if fail_at == Some(commands.len()) => Reply::Failed(ErrorKind::ChipSelectFault),
                    Command::Write { .. } => Reply::Written,
                    Command::Read { register } => Reply::Byte(read(register)),
                    Command::ReadBurst { .. } => panic!("no burst during startup"),
                };
                progress = machine.resume(reply);
            }
        }
    }
}

fn sensor(register: u8) -> u8 {
    match register {
        0x00 => 0x49,
        0x01 => 0x00,
        0x67 => 0x80,
        0x73 => 0x00,
        0x70 => 20,
        0x71 => 5,
        _ => 0x11,
    }
}

#[test]
fn startup_with_trim_adjustment() {
    let (commands, result) = run_startup(sensor, None);
    assert_eq!(result, Ok(()));
    assert_eq!(commands.len(), 109);
    assert_eq!(commands[0], Command::Write { register: POWER_UP_RESET, value: 0x5A });
    assert_eq!(commands[1], Command::Delay { ms: 20 });
    for i in 0..5 {
        assert_eq!(commands[2 + i], Command::Read { register: 0x02 + i as u8 });
    }
    assert_eq!(commands[12], Command::Read { register: 0x67 });
    assert_eq!(commands[13], Command::Write { register: 0x48, value: 0x04 });
    assert_eq!(commands[19], Command::Read { register: 0x73 });
    assert_eq!(commands[20], Command::Read { register: 0x70 });
    assert_eq!(commands[21], Command::Read { register: 0x71 });
    assert_eq!(commands[26], Command::Write { register: 0x70, value: 45 });
    assert_eq!(commands[27], Command::Write { register: 0x71, value: 2 });
    assert_eq!(commands[28], Command::Write { register: 0x7F, value: 0x00 });
    assert_eq!(commands[87], Command::Delay { ms: 10 });
    assert_eq!(commands[102], Command::Delay { ms: 240 });
    assert_eq!(commands[105], Command::Write { register: 0x7F, value: 0x00 });
    assert_eq!(commands[106], Command::Read { register: PRODUCT_ID });
    assert_eq!(commands[107], Command::Read { register: PRODUCT_REVISION });
    assert_eq!(commands[108], Command::Write { register: ORIENTATION, value: 0xE0 });
}

#[test]
fn startup_without_trim_adjustment() {
    let read = |register: u8| match register {
        0x73 => 0x01,
        0x67 => 0x7F,
        other => sensor(other),
    };
    let (commands, result) = run_startup(read, None);
    assert_eq!(result, Ok(()));
    assert_eq!(commands.len(), 101);
    assert_eq!(commands[13], Command::Write { register: 0x48, value: 0x02 });
    assert_eq!(commands[20], Command::Write { register: 0x7F, value: 0x00 });
    assert_eq!(commands[21], Command::Write { register: 0x61, value: 0xAD });
    assert_eq!(commands[100], Command::Write { register: ORIENTATION, value: 0xE0 });
    assert!(!commands.contains(&Command::Read { register: 0x70 }));
}

#[test]
fn startup_rejects_wrong_product() {
    let read = |register: u8| match register {
        0x00 => 0x48,
        other => sensor(other),
    };
    let (commands, result) = run_startup(read, None);
    assert_eq!(result, Err(SensorError::InvalidId(Id { product_id: 0x48, revision: 0x00 })));
    assert_eq!(commands.len(), 108);
    assert_eq!(commands[107], Command::Read { register: PRODUCT_REVISION });
}

#[test]
fn startup_rejects_unknown_revision() {
    let read = |register: u8| match register {
        0x01 => 0x02,
        other => sensor(other),
    };
    let (_, result) = run_startup(read, None);
    assert_eq!(result, Err(SensorError::InvalidId(Id { product_id: 0x49, revision: 0x02 })));
}

#[test]
fn startup_stops_at_spi_error() {
    let (commands, result) = run_startup(sensor, Some(30));
    assert_eq!(result, Err(SensorError::Spi(ErrorKind::ChipSelectFault)));
    assert_eq!(commands.len(), 30);
}

#[test]
fn trim_adjustments() {
    assert_eq!(trim_a(0), 14);
    assert_eq!(trim_a(14), 28);
    assert_eq!(trim_a(15), 40);
    assert_eq!(trim_a(28), 53);
    assert_eq!(trim_a(29), 40);
    assert_eq!(trim_a(52), 63);
    assert_eq!(trim_a(244), 63);
    assert_eq!(trim_b(0), 0);
    assert_eq!(trim_b(3), 1);
    assert_eq!(trim_b(5), 2);
}

#[test]
fn trim_adjustments_of_large_reads() {
    assert_eq!(trim_a(245), 63);
    assert_eq!(trim_a(255), 63);
    assert_eq!(trim_b(6), 2);
    assert_eq!(trim_b(100), 45);
    assert_eq!(trim_b(255), 114);
}

#[test]
fn startup_with_large_trim_reads() {
    let read = |register: u8| match register {
        0x70 => 250,
        0x71 => 200,
        other => sensor(other),
    };
    let (commands, result) = run_startup(read, None);
    assert_eq!(result, Ok(()));
    assert_eq!(commands.len(), 109);
    assert_eq!(commands[26], Command::Write { register: 0x70, value: 0x3F });
    assert_eq!(commands[27], Command::Write { register: 0x71, value: 90 });
}

#[test]
fn calibration_commands_by_index() {
    let readings = CalibrationReadings { reg_67: 0, reg_73: 1, reg_70: 0, reg_71: 0 };
    assert_eq!(calibration_command(0, &readings), Some(Command::Write { register: 0x7F, value: 0x00 }));
    assert_eq!(calibration_command(6, &readings), Some(Command::Write { register: 0x48, value: 0x02 }));
    assert_eq!(calibration_command(90, &readings), Some(Command::Write { register: 0x7F, value: 0x00 }));
    assert_eq!(calibration_command(91, &readings), None);
}
