use embedded_hal_async::spi::ErrorKind;
use paa5100je_pmw3901::identity::IdQuery;
use paa5100je_pmw3901::motion::{motion_from_burst, MotionQuery, MotionRaw};
use paa5100je_pmw3901::protocol::{Command, Progress, Reply};
use paa5100je_pmw3901::register::{MOTION_BURST, PRODUCT_ID, PRODUCT_REVISION};
use paa5100je_pmw3901::{Id, MotionDelta, SensorError};

fn continue_with<M, T>(progress: Progress<M, T>) -> (M, Command) {
    match progress {
        Progress::Continue(machine, command) => (machine, command),
        Progress::Finish(_) => panic!("finished early"),
    }
}

fn finished<M, T>(progress: Progress<M, T>) -> Result<T, SensorError> {
    match progress {
        Progress::Finish(result) => result,
        Progress::Continue(..) => panic!("not finished"),
    }
}

#[test]
fn id_reads_product_id_then_revision() {
    let (machine, command) = continue_with(IdQuery::start());
    assert_eq!(command, Command::Read { register: PRODUCT_ID });
    let (machine, command) = continue_with(machine.resume(Reply::Byte(0x49)));
    assert_eq!(command, Command::Read { register: PRODUCT_REVISION });
    let result = finished(machine.resume(Reply::Byte(0x01)));
    assert_eq!(result, Ok(Id { product_id: 0x49, revision: 0x01 }));
}

#[test]
fn id_reports_spi_error() {
    let (machine, _) = continue_with(IdQuery::start());
    let (machine, _) = continue_with(machine.resume(Reply::Byte(0x49)));
    let result = finished(machine.resume(Reply::Failed(ErrorKind::ModeFault)));
    assert_eq!(result, Err(SensorError::Spi(ErrorKind::ModeFault)));
}

fn burst(dr: u8, x: [u8; 2], y: [u8; 2], quality: u8, shutter_upper: u8) -> [u8; 12] {
    [dr, 0, x[0], x[1], y[0], y[1], quality, 0, 0, 0, shutter_upper, 0]
}

#[test]
fn motion_burst_decodes_deltas_in_native_order() {
    let b = burst(0x80, [0x34, 0x12], [0xFE, 0xFF], 0x40, 0x00);
    let expected = MotionDelta {
        x: i16::from_ne_bytes([0x34, 0x12]),
        y: i16::from_ne_bytes([0xFE, 0xFF]),
    };
    assert_eq!(motion_from_burst(b), Ok(expected));
    let decoded = motion_from_burst(b).unwrap();
    assert!(
        (decoded.x == 0x1234 && decoded.y == -2) || (decoded.x == 0x3412 && decoded.y == -257)
    );
}

#[test]
fn motion_raw_fields_follow_burst_layout() {
    let raw = MotionRaw::from_burst([0x81, 2, 0x01, 0x00, 0x00, 0x01, 7, 8, 9, 10, 11, 12]);
    assert_eq!(raw.dr, 0x81);
    assert_eq!(raw.obs, 2);
    assert_eq!(raw.x, i16::from_ne_bytes([0x01, 0x00]));
    assert_eq!(raw.y, i16::from_ne_bytes([0x00, 0x01]));
    assert_eq!(raw.quality, 7);
    assert_eq!(raw.raw_sum, 8);
    assert_eq!(raw.raw_max, 9);
    assert_eq!(raw.raw_min, 10);
    assert_eq!(raw.shutter_upper, 11);
    assert_eq!(raw.shutter_lower, 12);
}

#[test]
fn motion_without_ready_bit_is_invalid() {
    let b = burst(0x7F, [1, 0], [1, 0], 0x40, 0x00);
    assert_eq!(motion_from_burst(b), Err(SensorError::InvalidMotion));
}

#[test]
fn motion_with_low_quality_and_full_shutter_is_invalid() {
    let b = burst(0x80, [1, 0], [1, 0], 0x18, 0x1F);
    assert_eq!(motion_from_burst(b), Err(SensorError::InvalidMotion));
}

#[test]
fn motion_with_low_quality_alone_is_valid() {
    let b = burst(0x80, [0, 0], [0, 0], 0x18, 0x1E);
    assert_eq!(motion_from_burst(b), Ok(MotionDelta { x: 0, y: 0 }));
    let b = burst(0x80, [0, 0], [0, 0], 0x19, 0x1F);
    assert_eq!(motion_from_burst(b), Ok(MotionDelta { x: 0, y: 0 }));
}

#[test]
fn motion_query_reads_burst() {
    let (machine, command) = continue_with(MotionQuery::start());
    assert_eq!(command, Command::ReadBurst { register: MOTION_BURST });
    let b = burst(0x80, [5, 0], [0, 0], 0x40, 0x00);
    let result = finished(machine.resume(Reply::Burst(b)));
    assert_eq!(result, motion_from_burst(b));
    assert!(result.is_ok());
}

#[test]
fn motion_query_reports_spi_error() {
    let (machine, _) = continue_with(MotionQuery::start());
    let result = finished(machine.resume(Reply::Failed(ErrorKind::Other)));
    assert_eq!(result, Err(SensorError::Spi(ErrorKind::Other)));
}
