use paa5100je_pmw3901::protocol::{write_frame, Command, Progress, Reply};
use paa5100je_pmw3901::register::ORIENTATION;
use paa5100je_pmw3901::rotation::{orientation, RotationUpdate};
use paa5100je_pmw3901::{Id, RotationDegrees, SensorError};
use embedded_hal_async::spi::ErrorKind;

#[test]
fn write_frame_sets_write_bit() {
    assert_eq!(write_frame(0x5B, 0xE0), [0xDB, 0xE0]);
    assert_eq!(write_frame(0x00, 0x12), [0x80, 0x12]);
    assert_eq!(write_frame(0x80, 0x01), [0x80, 0x01]);
}

#[test]
fn orientation_values_per_rotation() {
    assert_eq!(orientation(RotationDegrees::_0), 0xE0);
    assert_eq!(orientation(RotationDegrees::_90), 0x40);
    assert_eq!(orientation(RotationDegrees::_180), 0x80);
    assert_eq!(orientation(RotationDegrees::_270), 0x20);
}

#[test]
fn rotation_degrees_values() {
    assert_eq!(RotationDegrees::_0.degrees(), 0);
    assert_eq!(RotationDegrees::_90.degrees(), 90);
    assert_eq!(RotationDegrees::_180.degrees(), 180);
    assert_eq!(RotationDegrees::_270.degrees(), 270);
}

#[test]
fn set_rotation_writes_orientation_register() {
    match RotationUpdate::start(RotationDegrees::_90) {
        Progress::Continue(machine, command) => {
            assert_eq!(command, Command::Write { register: ORIENTATION, value: 0x40 });
            match machine.resume(Reply::Written) {
                Progress::Finish(result) => assert_eq!(result, Ok(())),
                Progress::Continue(..) => panic!("one write is enough"),
            }
        }
        Progress::Finish(_) => panic!("nothing written"),
    }
}

#[test]
fn set_rotation_reports_spi_error() {
    match RotationUpdate::start(RotationDegrees::_0) {
        Progress::Continue(machine, _) => match machine.resume(Reply::Failed(ErrorKind::Overrun)) {
            Progress::Finish(result) => {
                assert_eq!(result, Err(SensorError::Spi(ErrorKind::Overrun)))
            }
            Progress::Continue(..) => panic!("a failed write ends the operation"),
        },
        Progress::Finish(_) => panic!("nothing written"),
    }
}

#[test]
fn id_accepts_only_paa5100je() {
    assert!(Id { product_id: 0x49, revision: 0x00 }.is_paa5100je());
    assert!(Id { product_id: 0x49, revision: 0x01 }.is_paa5100je());
    assert!(!Id { product_id: 0x49, revision: 0x02 }.is_paa5100je());
    assert!(!Id { product_id: 0x48, revision: 0x00 }.is_paa5100je());
}
