use embedded_hal_async::spi::ErrorKind;
use paa5100je_pmw3901::capture::FrameCapture;
use paa5100je_pmw3901::frame::{FrameBuffer, FRAME_SIZE};
use paa5100je_pmw3901::protocol::{Command, Progress, Reply};
use paa5100je_pmw3901::register::{RAW_DATA_GRAB, RAW_DATA_GRAB_STATUS};
use paa5100je_pmw3901::SensorError;

fn upper_part(pixel: u8) -> u8 {
    0b0100_0000 | (pixel >> 2)
}

fn lower_part(pixel: u8) -> u8 {
    0b1000_0000 | ((pixel & 0b11) << 2)
}

#[test]
fn frame_buffer_assembles_pixel_from_two_parts() {
    let mut frame = FrameBuffer::new();
    frame.feed(upper_part(0xB7));
    assert!(!frame.is_complete());
    frame.feed(lower_part(0xB7));
    frame.feed(0x00);
    frame.feed(0xFF);
    frame.feed(upper_part(0x01));
    frame.feed(lower_part(0x01));
    let pixels = frame.into_pixels();
    assert_eq!(pixels.len(), FRAME_SIZE);
    assert_eq!(pixels[0], 0xB7);
    assert_eq!(pixels[1], 0x01);
    assert_eq!(pixels[2], 0x00);
}

#[test]
fn frame_buffer_lower_part_keeps_upper_bits() {
    let mut frame = FrameBuffer::new();
    frame.feed(0b0111_1111);
    frame.feed(0b1000_0100);
    assert_eq!(frame.into_pixels()[0], 0b1111_1101);
}

#[test]
fn frame_buffer_completes_after_all_pixels() {
    let mut frame = FrameBuffer::new();
    for i in 0..FRAME_SIZE {
        assert!(!frame.is_complete());
        frame.feed(upper_part(i as u8));
        frame.feed(lower_part(i as u8));
    }
    assert!(frame.is_complete());
    let pixels = frame.into_pixels();
    for i in 0..FRAME_SIZE {
        assert_eq!(pixels[i], i as u8);
    }
}

#[test]
fn frame_capture_runs_whole_sequence() {
    let mut commands = Vec::new();
    let mut status_reads = 0;
    let mut stream: Vec<u8> = Vec::new();
    for i in 0..FRAME_SIZE {
        stream.push(upper_part((i * 7) as u8));
        if i % 100 == 0 {
            stream.push(0x00);
        }
        stream.push(lower_part((i * 7) as u8));
    }
    let mut next_byte = 0;
    let mut progress = FrameCapture::start();
    let result = loop {
        match progress {
            Progress::Finish(result) => break result,
            Progress::Continue(machine, command) => {
                commands.push(command);
                let reply = match command {
                    Command::Write { .. } => Reply::Written,
                    Command::Delay { .. } => Reply::Waited,
                    Command::Read { register } if register == RAW_DATA_GRAB_STATUS => {
                        status_reads += 1;
                        Reply::Byte(if status_reads < 3 { 0x3F } else { 0x80 })
                    }
                    Command::Read { register } if register == RAW_DATA_GRAB => {
                        next_byte += 1;
                        Reply::Byte(stream[next_byte - 1])
                    }
                    other => panic!("unexpected command {:?}", other),
                };
                progress = machine.resume(reply);
            }
        }
    };
    let pixels = result.unwrap();
    assert_eq!(pixels.len(), FRAME_SIZE);
    for i in 0..FRAME_SIZE {
        assert_eq!(pixels[i], (i * 7) as u8);
    }
    assert_eq!(status_reads, 3);
    assert_eq!(next_byte, stream.len());
    assert_eq!(commands[0], Command::Write { register: 0x7F, value: 0x07 });
    assert_eq!(commands[8], Command::Delay { ms: 10 });
    assert_eq!(commands[10], Command::Write { register: 0x58, value: 0xFF });
    assert_eq!(commands[11], Command::Read { register: RAW_DATA_GRAB_STATUS });
    assert_eq!(commands[14], Command::Write { register: RAW_DATA_GRAB, value: 0x00 });
    assert_eq!(commands.len(), 15 + stream.len());
}

#[test]
fn frame_capture_reports_spi_error() {
    let mut progress = FrameCapture::start();
    let mut issued = 0;
    loop {
        match progress {
            Progress::Finish(result) => {
                assert_eq!(result, Err(SensorError::Spi(ErrorKind::FrameFormat)));
                break;
            }
            Progress::Continue(machine, command) => {
                issued += 1;
                let reply = match command {
                    Command::Delay { .. } => Reply::Waited,
                    _ if issued == 12 => Reply::Failed(ErrorKind::FrameFormat),
                    Command::Write { .. } => Reply::Written,
                    _ => Reply::Byte(0),
                };
                progress = machine.resume(reply);
            }
        }
    }
    assert_eq!(issued, 12);
}
