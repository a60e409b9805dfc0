use arducam_legacy::exchange::finish;
use arducam_legacy::{
    Action, Arducam, Error, Event, Exchange, ImageFormat, Operation, Outcome, RegisterTables,
    Resolution, TableId,
};

fn tables() -> RegisterTables {
    RegisterTables {
        jpeg_init: vec![[0xFF, 0x00], [0x2C, 0xFF]],
        yuv422: vec![[0xFF, 0x00], [0x05, 0x00], [0xDA, 0x10]],
        jpeg: vec![[0xE0, 0x14]],
        jpeg_160x120: vec![[0x01, 0xA0]],
        jpeg_176x144: vec![[0x02, 0xB0]],
        jpeg_320x240: vec![[0x03, 0x40], [0x13, 0xF0]],
        jpeg_352x288: vec![[0x04, 0x60]],
        jpeg_640x480: vec![[0x05, 0x80]],
        jpeg_800x600: vec![[0x06, 0x20]],
        jpeg_1024x768: vec![[0x07, 0x00]],
        jpeg_1280x1024: vec![[0x08, 0x00]],
        jpeg_1600x1200: vec![[0x09, 0x40]],
    }
}

fn camera(resolution: Resolution) -> Arducam {
    Arducam::new(tables(), resolution, ImageFormat::JPEG)
}

fn sensor(reg: u8, data: u8) -> Action {
    Action::SensorWrite { device: 0x30, reg, data }
}

/// Runs an exchange to its end against `answer`; hands back what was asked
/// for, in order, and the result.
fn drive(
    mut exchange: Exchange,
    mut answer: impl FnMut(usize, &Action) -> Event,
) -> (Vec<Action>, Result<Outcome, Error>) {
    let mut asked = Vec::new();
    let mut next = exchange.pending();
    while let Some(action) = next {
        let event = answer(asked.len(), &action);
        asked.push(action);
        next = exchange.resume(event);
    }
    assert_eq!(exchange.pending(), None);
    (asked, exchange.outcome().expect("an ended exchange has a result"))
}

/// Answers every action with success and zeroes for what it reads.
fn willing(_: usize, action: &Action) -> Event {
    Event::Completed(vec![0; action.reply_len()])
}

fn read_image(len: usize) {
    let cam = camera(Resolution::Res320x240);
    let (asked, result) = drive(cam.read_captured_image(len), |_, action| {
        Event::Completed((0..action.reply_len()).map(|i| (i % 251) as u8).collect())
    });
    assert_eq!(
        asked,
        vec![
            Action::RegisterBurst { opcode: 0x3C, len },
            Action::RegisterWrite { addr: 0x84, data: 0x01 },
        ]
    );
    let expected: Vec<u8> = (0..len).map(|i| (i % 251) as u8).collect();
    assert_eq!(result, Ok(Outcome::Image(expected)));
}

#[test]
fn read_captured_image_of_no_bytes() {
    read_image(0);
}

#[test]
fn read_captured_image_of_one_byte() {
    read_image(1);
}

#[test]
fn read_captured_image_of_8192_bytes() {
    read_image(8192);
}

#[test]
fn read_captured_image_failed_burst_skips_the_clear() {
    let cam = camera(Resolution::Res320x240);
    let (asked, result) = drive(cam.read_captured_image(16), |_, _| Event::Failed);
    assert_eq!(asked, vec![Action::RegisterBurst { opcode: 0x3C, len: 16 }]);
    assert_eq!(result, Err(Error::Spi));
}

#[test]
fn read_captured_image_short_burst_is_out_of_bounds() {
    let cam = camera(Resolution::Res320x240);
    let (asked, result) = drive(cam.read_captured_image(16), |_, _| Event::Completed(vec![0; 15]));
    assert_eq!(asked.len(), 1);
    assert_eq!(result, Err(Error::OutOfBounds));
}

#[test]
fn init_sends_reset_tables_and_resolution() {
    let cam = camera(Resolution::Res320x240);
    let (asked, result) = drive(cam.init(), willing);
    assert_eq!(
        asked,
        vec![
            Action::RegisterWrite { addr: 0x87, data: 0x80 },
            Action::Delay { ms: 100 },
            Action::RegisterWrite { addr: 0x87, data: 0x00 },
            Action::Delay { ms: 100 },
            sensor(0xFF, 0x01),
            Action::Delay { ms: 100 },
            sensor(0x12, 0x80),
            Action::Delay { ms: 100 },
            sensor(0xFF, 0x00),
            sensor(0x2C, 0xFF),
            sensor(0xFF, 0x00),
            sensor(0x05, 0x00),
            sensor(0xDA, 0x10),
            sensor(0xE0, 0x14),
            sensor(0xFF, 0x01),
            sensor(0x15, 0x00),
            sensor(0x03, 0x40),
            sensor(0x13, 0xF0),
        ]
    );
    assert_eq!(result, Ok(Outcome::Done));
}

#[test]
fn init_stops_at_third_transaction_failure() {
    let cam = camera(Resolution::Res320x240);
    let mut transactions = 0;
    let (asked, result) = drive(cam.init(), |_, action| match action {
        Action::Delay { .. } => Event::Completed(vec![]),
        _ => {
            transactions += 1;
            if transactions == 3 {
                Event::Failed
            } else {
                Event::Completed(vec![])
            }
        }
    });
    assert_eq!(transactions, 3);
    assert_eq!(asked.len(), 5);
    assert_eq!(asked[4], sensor(0xFF, 0x01));
    assert_eq!(result, Err(Error::I2c));
}

#[test]
fn init_stops_at_register_bus_failure() {
    let cam = camera(Resolution::Res320x240);
    let mut exchange = cam.init();
    assert_eq!(exchange.pending(), Some(Action::RegisterWrite { addr: 0x87, data: 0x80 }));
    assert_eq!(exchange.resume(Event::Completed(vec![])), Some(Action::Delay { ms: 100 }));
    assert_eq!(
        exchange.resume(Event::Completed(vec![])),
        Some(Action::RegisterWrite { addr: 0x87, data: 0x00 })
    );
    assert_eq!(exchange.outcome(), None);
    assert_eq!(exchange.resume(Event::Failed), None);
    assert_eq!(exchange.outcome(), Some(Err(Error::Spi)));
    assert_eq!(exchange.completed(), 2);
    assert_eq!(exchange.resume(Event::Completed(vec![])), None);
    assert_eq!(exchange.resume(Event::Failed), None);
    assert_eq!(exchange.completed(), 2);
    assert_eq!(exchange.outcome(), Some(Err(Error::Spi)));
}

#[test]
fn init_failure_inside_a_table_stops_the_table() {
    let cam = camera(Resolution::Res320x240);
    let (asked, result) = drive(cam.init(), |i, action| {
        if i == 9 {
            Event::Failed
        } else {
            willing(i, action)
        }
    });
    assert_eq!(asked.len(), 10);
    assert_eq!(asked[9], sensor(0x2C, 0xFF));
    assert_eq!(result, Err(Error::I2c));
}

#[test]
fn failed_delay_is_out_of_bounds() {
    let cam = camera(Resolution::Res320x240);
    let (asked, result) = drive(cam.init(), |i, action| {
        if i == 1 {
            Event::Failed
        } else {
            willing(i, action)
        }
    });
    assert_eq!(asked.len(), 2);
    assert_eq!(result, Err(Error::OutOfBounds));
}

#[test]
fn bytes_for_a_write_are_out_of_bounds() {
    let cam = camera(Resolution::Res320x240);
    let (asked, result) = drive(cam.start_capture(), |_, _| Event::Completed(vec![0x00]));
    assert_eq!(asked.len(), 1);
    assert_eq!(result, Err(Error::OutOfBounds));
}

#[test]
fn each_resolution_sends_its_own_table() {
    let all = [
        (Resolution::Res160x120, 0x01, 0xA0),
        (Resolution::Res176x144, 0x02, 0xB0),
        (Resolution::Res352x288, 0x04, 0x60),
        (Resolution::Res640x480, 0x05, 0x80),
        (Resolution::Res800x600, 0x06, 0x20),
        (Resolution::Res1024x768, 0x07, 0x00),
        (Resolution::Res1280x1024, 0x08, 0x00),
        (Resolution::Res1600x1200, 0x09, 0x40),
    ];
    for (resolution, reg, data) in all {
        assert_eq!(camera(resolution).send_resolution(), vec![sensor(reg, data)]);
    }
    assert_eq!(
        camera(Resolution::Res320x240).send_resolution(),
        vec![sensor(0x03, 0x40), sensor(0x13, 0xF0)]
    );
}

#[test]
fn set_resolution_stores_and_sends_only_the_table() {
    let mut cam = camera(Resolution::Res320x240);
    assert_eq!(cam.resolution(), Resolution::Res320x240);
    assert_eq!(cam.format(), ImageFormat::JPEG);
    let exchange = cam.set_resolution(Resolution::Res800x600);
    assert_eq!(exchange.operation(), Operation::SetResolution);
    assert_eq!(cam.resolution(), Resolution::Res800x600);
    let (asked, result) = drive(exchange, willing);
    assert_eq!(asked, vec![sensor(0x06, 0x20)]);
    assert_eq!(result, Ok(Outcome::Done));
    assert_eq!(cam.send_resolution(), vec![sensor(0x06, 0x20)]);
}

#[test]
fn set_resolution_failure_is_sensor_bus_error() {
    let mut cam = camera(Resolution::Res320x240);
    let (asked, result) = drive(cam.set_resolution(Resolution::Res160x120), |_, _| Event::Failed);
    assert_eq!(asked.len(), 1);
    assert_eq!(result, Err(Error::I2c));
    assert_eq!(cam.resolution(), Resolution::Res160x120);
}

#[test]
fn start_capture_clears_then_triggers() {
    let cam = camera(Resolution::Res320x240);
    let (asked, result) = drive(cam.start_capture(), willing);
    assert_eq!(
        asked,
        vec![
            Action::RegisterWrite { addr: 0x84, data: 0x01 },
            Action::RegisterWrite { addr: 0x84, data: 0x02 },
        ]
    );
    assert_eq!(result, Ok(Outcome::Done));
}

#[test]
fn start_capture_failed_clear_does_not_trigger() {
    let cam = camera(Resolution::Res320x240);
    let (asked, result) = drive(cam.start_capture(), |_, _| Event::Failed);
    assert_eq!(asked, vec![Action::RegisterWrite { addr: 0x84, data: 0x01 }]);
    assert_eq!(result, Err(Error::Spi));
}

#[test]
fn is_capture_done_reads_trigger_register() {
    let cam = camera(Resolution::Res320x240);
    for (trig, done) in [(0x00, false), (0x04, false), (0xF7, false), (0x08, true), (0xFF, true)] {
        let (asked, result) = drive(cam.is_capture_done(), |_, _| Event::Completed(vec![trig]));
        assert_eq!(asked, vec![Action::RegisterRead { addr: 0x41 }]);
        assert_eq!(result, Ok(Outcome::Flag(done)));
    }
}

#[test]
fn is_capture_done_failure_is_register_bus_error() {
    let cam = camera(Resolution::Res320x240);
    let (_, result) = drive(cam.is_capture_done(), |_, _| Event::Failed);
    assert_eq!(result, Err(Error::Spi));
}

#[test]
fn get_fifo_length_reads_low_mid_high() {
    let cam = camera(Resolution::Res320x240);
    let (asked, result) = drive(cam.get_fifo_length(), |_, action| match action {
        Action::RegisterRead { addr: 0x42 } => Event::Completed(vec![0x78]),
        Action::RegisterRead { addr: 0x43 } => Event::Completed(vec![0x56]),
        Action::RegisterRead { addr: 0x44 } => Event::Completed(vec![0xB4]),
        _ => Event::Failed,
    });
    assert_eq!(
        asked,
        vec![
            Action::RegisterRead { addr: 0x42 },
            Action::RegisterRead { addr: 0x43 },
            Action::RegisterRead { addr: 0x44 },
        ]
    );
    assert_eq!(result, Ok(Outcome::Length(0x34_5678)));
}

#[test]
fn get_fifo_length_all_ones() {
    let cam = camera(Resolution::Res320x240);
    let (_, result) = drive(cam.get_fifo_length(), |_, _| Event::Completed(vec![0xFF]));
    assert_eq!(result, Ok(Outcome::Length(0x7F_FFFF)));
}

#[test]
fn get_fifo_length_stops_at_failed_read() {
    let cam = camera(Resolution::Res320x240);
    let (asked, result) = drive(cam.get_fifo_length(), |i, _| {
        if i == 1 {
            Event::Failed
        } else {
            Event::Completed(vec![0x01])
        }
    });
    assert_eq!(asked.len(), 2);
    assert_eq!(result, Err(Error::Spi));
}

#[test]
fn get_sensor_chipid_reads_high_then_low() {
    let cam = camera(Resolution::Res320x240);
    let (asked, result) = drive(cam.get_sensor_chipid(), |_, action| match action {
        Action::SensorRead { reg: 0x0A, .. } => Event::Completed(vec![0x26]),
        Action::SensorRead { reg: 0x0B, .. } => Event::Completed(vec![0x42]),
        _ => Event::Completed(vec![]),
    });
    assert_eq!(
        asked,
        vec![
            sensor(0xFF, 0x01),
            Action::SensorRead { device: 0x30, reg: 0x0A, len: 1 },
            Action::SensorRead { device: 0x30, reg: 0x0B, len: 1 },
        ]
    );
    assert_eq!(result, Ok(Outcome::ChipId([0x26, 0x42])));
}

#[test]
fn get_sensor_chipid_failure_is_sensor_bus_error() {
    let cam = camera(Resolution::Res320x240);
    let (asked, result) = drive(cam.get_sensor_chipid(), |i, action| {
        if i == 2 {
            Event::Failed
        } else {
            willing(i, action)
        }
    });
    assert_eq!(asked.len(), 3);
    assert_eq!(result, Err(Error::I2c));
}

fn connectivity(readback: u8, high: u8, low: u8) -> (Vec<Action>, Result<Outcome, Error>) {
    let cam = camera(Resolution::Res320x240);
    drive(cam.is_connected(), |_, action| match action {
        Action::RegisterRead { .. } => Event::Completed(vec![readback]),
        Action::SensorRead { reg: 0x0A, .. } => Event::Completed(vec![high]),
        Action::SensorRead { reg: 0x0B, .. } => Event::Completed(vec![low]),
        _ => Event::Completed(vec![]),
    })
}

#[test]
fn is_connected_sequence_and_verdict() {
    let (asked, result) = connectivity(0x52, 0x26, 0x41);
    assert_eq!(
        asked,
        vec![
            Action::RegisterWrite { addr: 0x80, data: 0x52 },
            Action::RegisterRead { addr: 0x00 },
            sensor(0xFF, 0x01),
            Action::SensorRead { device: 0x30, reg: 0x0A, len: 1 },
            Action::SensorRead { device: 0x30, reg: 0x0B, len: 1 },
        ]
    );
    assert_eq!(result, Ok(Outcome::Flag(true)));
}

#[test]
fn is_connected_verdicts() {
    assert_eq!(connectivity(0x00, 0x26, 0x41).1, Ok(Outcome::Flag(false)));
    assert_eq!(connectivity(0x52, 0x26, 0x42).1, Ok(Outcome::Flag(true)));
    assert_eq!(connectivity(0x00, 0x26, 0x42).1, Ok(Outcome::Flag(true)));
    assert_eq!(connectivity(0x52, 0x00, 0x00).1, Ok(Outcome::Flag(false)));
    assert_eq!(connectivity(0x52, 0x41, 0x26).1, Ok(Outcome::Flag(false)));
}

#[test]
fn is_connected_failures_name_their_bus() {
    let cam = camera(Resolution::Res320x240);
    let (asked, result) = drive(cam.is_connected(), |_, _| Event::Failed);
    assert_eq!(asked.len(), 1);
    assert_eq!(result, Err(Error::Spi));
    let (asked, result) = drive(cam.is_connected(), |i, action| {
        if i == 3 {
            Event::Failed
        } else {
            willing(i, action)
        }
    });
    assert_eq!(asked.len(), 4);
    assert_eq!(result, Err(Error::I2c));
}

#[test]
fn capture_end_to_end() {
    let cam = Arducam::new(tables(), Resolution::Res320x240, ImageFormat::JPEG);
    let (asked, result) = drive(cam.init(), willing);
    assert_eq!(asked.len(), 18);
    assert_eq!(result, Ok(Outcome::Done));

    let (_, result) = drive(cam.start_capture(), willing);
    assert_eq!(result, Ok(Outcome::Done));

    let (_, result) = drive(cam.is_capture_done(), |_, _| Event::Completed(vec![0x08]));
    assert_eq!(result, Ok(Outcome::Flag(true)));

    let (_, result) = drive(cam.get_fifo_length(), |_, action| match action {
        Action::RegisterRead { addr: 0x42 } => Event::Completed(vec![0x10]),
        _ => Event::Completed(vec![0x00]),
    });
    assert_eq!(result, Ok(Outcome::Length(16)));

    let image: Vec<u8> = (100..116).collect();
    let (asked, result) = drive(cam.read_captured_image(16), |_, action| match action {
        Action::RegisterBurst { .. } => Event::Completed(image.clone()),
        _ => Event::Completed(vec![]),
    });
    assert_eq!(asked[0], Action::RegisterBurst { opcode: 0x3C, len: 16 });
    assert_eq!(result, Ok(Outcome::Image(image.clone())));
}

#[test]
fn ended_exchange_takes_no_answers() {
    let cam = camera(Resolution::Res320x240);
    let mut exchange = cam.is_capture_done();
    assert_eq!(exchange.operation(), Operation::IsCaptureDone);
    assert_eq!(exchange.completed(), 0);
    assert_eq!(exchange.outcome(), None);
    assert_eq!(exchange.resume(Event::Completed(vec![0x08])), None);
    assert_eq!(exchange.completed(), 1);
    assert_eq!(exchange.resume(Event::Completed(vec![0x00])), None);
    assert_eq!(exchange.resume(Event::Failed), None);
    assert_eq!(exchange.completed(), 1);
    assert_eq!(exchange.outcome(), Some(Ok(Outcome::Flag(true))));
}

#[test]
fn empty_script_is_finished_at_once() {
    let exchange = Exchange::new(Operation::SetResolution, vec![]);
    assert_eq!(exchange.pending(), None);
    assert_eq!(exchange.outcome(), Some(Ok(Outcome::Done)));
}

#[test]
fn finish_checks_the_number_of_bytes() {
    assert_eq!(finish(Operation::GetFifoLength, &vec![0x10, 0x00]), Err(Error::OutOfBounds));
    assert_eq!(finish(Operation::GetFifoLength, &vec![0x10, 0x00, 0x00]), Ok(Outcome::Length(16)));
    assert_eq!(finish(Operation::IsCaptureDone, &vec![]), Err(Error::OutOfBounds));
    assert_eq!(finish(Operation::IsCaptureDone, &vec![0x08]), Ok(Outcome::Flag(true)));
    assert_eq!(finish(Operation::IsConnected, &vec![0x52]), Err(Error::OutOfBounds));
    assert_eq!(
        finish(Operation::IsConnected, &vec![0x52, 0x26, 0x41]),
        Ok(Outcome::Flag(true))
    );
    assert_eq!(finish(Operation::GetSensorChipid, &vec![0x26]), Err(Error::OutOfBounds));
    assert_eq!(
        finish(Operation::GetSensorChipid, &vec![0x26, 0x41]),
        Ok(Outcome::ChipId([0x26, 0x41]))
    );
    assert_eq!(finish(Operation::ReadCapturedImage, &vec![1, 2, 3]), Ok(Outcome::Image(vec![1, 2, 3])));
    assert_eq!(finish(Operation::Init, &vec![]), Ok(Outcome::Done));
    assert_eq!(finish(Operation::StartCapture, &vec![]), Ok(Outcome::Done));
}

#[test]
fn tables_are_found_by_name() {
    let t = tables();
    assert_eq!(t.table(TableId::JpegInit), &vec![[0xFF, 0x00], [0x2C, 0xFF]]);
    assert_eq!(t.table(TableId::Yuv422).len(), 3);
    assert_eq!(t.table(TableId::Jpeg), &vec![[0xE0, 0x14]]);
    assert_eq!(t.table(TableId::Jpeg1600x1200), &vec![[0x09, 0x40]]);
    assert_eq!(t.table(Resolution::Res640x480.table()), &vec![[0x05, 0x80]]);
}
