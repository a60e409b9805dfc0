//! The camera driver: which actions each operation consists of.

use vstd::prelude::*;
use crate::bus::Action;
use crate::decode::TEST_PATTERN;
use crate::exchange::{Exchange, Operation, Progress};
use crate::tables::{RegisterTables, TableId};
use crate::types::{ImageFormat, Resolution};

verus! {

/// Scratch register of the FIFO controller.
pub const ARDUCHIP_TEST1: u8 = 0x00;

/// FIFO control register.
pub const ARDUCHIP_FIFO: u8 = 0x04;

/// Soft-reset control register.
pub const ARDUCHIP_RESET: u8 = 0x07;

/// Trigger register.
pub const ARDUCHIP_TRIG: u8 = 0x41;

/// Seven-bit sensor-bus address of the sensor.
pub const OV2640_ADDR: u8 = 0x30;

/// Bank select register of the sensor.
pub const OV2640_BANK_SELECT: u8 = 0xFF;

/// Sensor register whose top bit resets the sensor.
pub const OV2640_COM7: u8 = 0x12;

/// Sensor register that is cleared after the format tables.
pub const OV2640_COM10: u8 = 0x15;

/// Sensor register that holds the high byte of the identity.
pub const OV2640_CHIPID_HIGH: u8 = 0x0A;

/// Sensor register that holds the low byte of the identity.
pub const OV2640_CHIPID_LOW: u8 = 0x0B;

/// Value of the FIFO control register that clears the buffer.
pub const FIFO_CLEAR_MASK: u8 = 0x01;

/// Value of the FIFO control register that starts a capture.
pub const FIFO_START_MASK: u8 = 0x02;

/// Opcode that opens a burst read of the FIFO.
pub const FIFO_BURST: u8 = 0x3C;

/// Low byte of the FIFO length.
pub const FIFO_SIZE1: u8 = 0x42;

/// Middle byte of the FIFO length.
pub const FIFO_SIZE2: u8 = 0x43;

/// High byte of the FIFO length.
pub const FIFO_SIZE3: u8 = 0x44;

/// Bit that marks a register-bus address as a write.
pub const WRITE_FLAG: u8 = 0x80;

/// The seven bits of a register-bus address that name the register.
pub const ADDRESS_MASK: u8 = 0x7F;

/// Length of each pause of the reset sequence, in milliseconds.
pub const RESET_PAUSE_MS: u32 = 100;

/// Write of `data` to the FIFO controller's register `addr`: the address
/// goes out with the write bit set.
pub open spec fn register_write(addr: u8, data: u8) -> Action {
    Action::RegisterWrite { addr: addr | WRITE_FLAG, data }
}

/// Read of the FIFO controller's register `addr`: the address goes out with
/// the write bit cleared.
pub open spec fn register_read(addr: u8) -> Action {
    Action::RegisterRead { addr: addr & ADDRESS_MASK }
}

/// Write of `data` to the sensor's register `reg`.
pub open spec fn sensor_write(reg: u8, data: u8) -> Action {
    Action::SensorWrite { device: OV2640_ADDR, reg, data }
}

/// Read of `len` bytes from the sensor's register `reg`.
pub open spec fn sensor_read(reg: u8, len: usize) -> Action {
    Action::SensorRead { device: OV2640_ADDR, reg, len }
}

/// One sensor write for each pair of `regs`, in the order of the table.
pub open spec fn table_script(regs: Seq<[u8; 2]>) -> Seq<Action> {
    Seq::new(regs.len(), |i: int| sensor_write(regs[i][0], regs[i][1]))
}

/// The reset pulse, the bank select and the sensor reset that open the
/// initialisation, each followed by a pause.
pub open spec fn reset_script() -> Seq<Action> {
    seq![
        register_write(ARDUCHIP_RESET, 0x80),
        Action::Delay { ms: RESET_PAUSE_MS },
        register_write(ARDUCHIP_RESET, 0x00),
        Action::Delay { ms: RESET_PAUSE_MS },
        sensor_write(OV2640_BANK_SELECT, 0x01),
        Action::Delay { ms: RESET_PAUSE_MS },
        sensor_write(OV2640_COM7, 0x80),
        Action::Delay { ms: RESET_PAUSE_MS },
    ]
}

/// The table that puts the sensor into `resolution`.
pub open spec fn resolution_script(tables: RegisterTables, resolution: Resolution) -> Seq<Action> {
    table_script(tables.spec_table(resolution.spec_table()))
}

/// Initialisation: the reset sequence, the bootstrap, colour-space and
/// format tables, bank 1 again, the mode register cleared, and the table of
/// the resolution.
pub open spec fn init_script(tables: RegisterTables, resolution: Resolution) -> Seq<Action> {
    reset_script() + table_script(tables.jpeg_init@) + table_script(tables.yuv422@)
        + table_script(tables.jpeg@)
        + seq![sensor_write(OV2640_BANK_SELECT, 0x01), sensor_write(OV2640_COM10, 0x00)]
        + resolution_script(tables, resolution)
}

/// Bank 1 selected, then the two identity registers read, one byte each.
pub open spec fn chipid_script() -> Seq<Action> {
    seq![
        sensor_write(OV2640_BANK_SELECT, 0x01),
        sensor_read(OV2640_CHIPID_HIGH, 1),
        sensor_read(OV2640_CHIPID_LOW, 1),
    ]
}

/// The test pattern written to the scratch register and read back, then the
/// sensor's identity read.
pub open spec fn connected_script() -> Seq<Action> {
    seq![register_write(ARDUCHIP_TEST1, TEST_PATTERN), register_read(ARDUCHIP_TEST1)]
        + chipid_script()
}

/// The buffer cleared, then the capture started.
pub open spec fn capture_script() -> Seq<Action> {
    seq![
        register_write(ARDUCHIP_FIFO, FIFO_CLEAR_MASK),
        register_write(ARDUCHIP_FIFO, FIFO_START_MASK),
    ]
}

/// The trigger register read once.
pub open spec fn poll_script() -> Seq<Action> {
    seq![register_read(ARDUCHIP_TRIG)]
}

/// One burst of `len` bytes, then the buffer cleared.
pub open spec fn drain_script(len: usize) -> Seq<Action> {
    seq![
        Action::RegisterBurst { opcode: FIFO_BURST, len },
        register_write(ARDUCHIP_FIFO, FIFO_CLEAR_MASK),
    ]
}

/// The three length registers read: low, middle, high.
pub open spec fn length_script() -> Seq<Action> {
    seq![register_read(FIFO_SIZE1), register_read(FIFO_SIZE2), register_read(FIFO_SIZE3)]
}

/// Main struct responsible for communicating with the camera.
#[derive(Debug)]
pub struct Arducam {
    tables: RegisterTables,
    format: ImageFormat,
    resolution: Resolution,
}

impl Arducam {
    /// The register tables that the driver was built with.
    pub closed spec fn spec_tables(&self) -> RegisterTables {
        self.tables
    }

    /// The resolution that the driver currently stands at.
    pub closed spec fn spec_resolution(&self) -> Resolution {
        self.resolution
    }

    /// The image format that the driver was built with.
    pub closed spec fn spec_format(&self) -> ImageFormat {
        self.format
    }

    /// Creates a new driver but doesn't initialize the camera.
    pub fn new(tables: RegisterTables, resolution: Resolution, format: ImageFormat) -> (cam:
        Arducam)
        ensures
            cam.spec_tables() == tables,
            cam.spec_resolution() == resolution,
            cam.spec_format() == format,
    {
        Arducam { tables, format, resolution }
    }

    /// The resolution that the driver currently stands at.
    pub fn resolution(&self) -> (resolution: Resolution)
        ensures
            resolution == self.spec_resolution(),
    {
        self.resolution
    }

    /// The image format that the driver was built with.
    pub fn format(&self) -> (format: ImageFormat)
        ensures
            format == self.spec_format(),
    {
        self.format
    }

    /// Initializes the camera to its reset state and configures it.
    pub fn init(&self) -> (exchange: Exchange)
        ensures
            exchange@ == Progress::start(
                Operation::Init,
                init_script(self.spec_tables(), self.spec_resolution()),
            ),
    {
        let mut script: Vec<Action> = Vec::new();
        script.push(Self::arduchip_write_reg(ARDUCHIP_RESET, 0x80));
        script.push(Action::Delay { ms: RESET_PAUSE_MS });
        script.push(Self::arduchip_write_reg(ARDUCHIP_RESET, 0x00));
        script.push(Action::Delay { ms: RESET_PAUSE_MS });
        script.push(Self::sensor_writereg8_8(OV2640_BANK_SELECT, 0x01));
        script.push(Action::Delay { ms: RESET_PAUSE_MS });
        script.push(Self::sensor_writereg8_8(OV2640_COM7, 0x80));
        script.push(Action::Delay { ms: RESET_PAUSE_MS });
        assert(script@ =~= reset_script());
        let mut bootstrap = Self::sensor_writeregs8_8(
            self.tables.table(TableId::JpegInit).as_slice(),
        );
        script.append(&mut bootstrap);
        let mut colour = Self::sensor_writeregs8_8(self.tables.table(TableId::Yuv422).as_slice());
        script.append(&mut colour);
        let mut jpeg = Self::sensor_writeregs8_8(self.tables.table(TableId::Jpeg).as_slice());
        script.append(&mut jpeg);
        let ghost head = script@;
        script.push(Self::sensor_writereg8_8(OV2640_BANK_SELECT, 0x01));
        script.push(Self::sensor_writereg8_8(OV2640_COM10, 0x00));
        assert(script@ =~= head + seq![
            sensor_write(OV2640_BANK_SELECT, 0x01),
            sensor_write(OV2640_COM10, 0x00),
        ]);
        let mut size = self.send_resolution();
        script.append(&mut size);
        Exchange::new(Operation::Init, script)
    }

    /// Sets the camera resolution and sends its table to the sensor. The
    /// new resolution is stored whether or not the table arrives.
    pub fn set_resolution(&mut self, resolution: Resolution) -> (exchange: Exchange)
        ensures
            final(self).spec_resolution() == resolution,
            final(self).spec_tables() == old(self).spec_tables(),
            final(self).spec_format() == old(self).spec_format(),
            exchange@ == Progress::start(
                Operation::SetResolution,
                resolution_script(old(self).spec_tables(), resolution),
            ),
    {
        self.resolution = resolution;
        let script = self.send_resolution();
        Exchange::new(Operation::SetResolution, script)
    }

    /// Checks whether the camera still answers on both buses.
    pub fn is_connected(&self) -> (exchange: Exchange)
        ensures
            exchange@ == Progress::start(Operation::IsConnected, connected_script()),
    {
        let mut script: Vec<Action> = Vec::new();
        script.push(Self::arduchip_write_reg(ARDUCHIP_TEST1, TEST_PATTERN));
        script.push(Self::arduchip_read_reg(ARDUCHIP_TEST1));
        script.push(Self::sensor_writereg8_8(OV2640_BANK_SELECT, 0x01));
        script.push(Self::sensor_readreg8_8(OV2640_CHIPID_HIGH, 1));
        script.push(Self::sensor_readreg8_8(OV2640_CHIPID_LOW, 1));
        assert(script@ =~= connected_script());
        Exchange::new(Operation::IsConnected, script)
    }

    /// Sends an image capture request: clears the buffer, then triggers.
    pub fn start_capture(&self) -> (exchange: Exchange)
        ensures
            exchange@ == Progress::start(Operation::StartCapture, capture_script()),
    {
        let mut script: Vec<Action> = Vec::new();
        script.push(Self::flush_fifo());
        script.push(Self::start_fifo());
        assert(script@ =~= capture_script());
        Exchange::new(Operation::StartCapture, script)
    }

    /// Checks if the image capture is done. Changes nothing: it may be
    /// asked again and again.
    pub fn is_capture_done(&self) -> (exchange: Exchange)
        ensures
            exchange@ == Progress::start(Operation::IsCaptureDone, poll_script()),
    {
        let mut script: Vec<Action> = Vec::new();
        script.push(Self::arduchip_read_reg(ARDUCHIP_TRIG));
        assert(script@ =~= poll_script());
        Exchange::new(Operation::IsCaptureDone, script)
    }

    /// Drains `len` bytes of the captured image in one burst and clears the
    /// buffer afterwards. `len` is the room the caller has, not the length
    /// the FIFO reports: a longer image is cut.
    pub fn read_captured_image(&self, len: usize) -> (exchange: Exchange)
        ensures
            exchange@ == Progress::start(Operation::ReadCapturedImage, drain_script(len)),
    {
        let mut script: Vec<Action> = Vec::new();
        script.push(Action::RegisterBurst { opcode: FIFO_BURST, len });
        script.push(Self::flush_fifo());
        assert(script@ =~= drain_script(len));
        Exchange::new(Operation::ReadCapturedImage, script)
    }

    /// Asks for the image length that the FIFO reports.
    pub fn get_fifo_length(&self) -> (exchange: Exchange)
        ensures
            exchange@ == Progress::start(Operation::GetFifoLength, length_script()),
    {
        let mut script: Vec<Action> = Vec::new();
        script.push(Self::arduchip_read_reg(FIFO_SIZE1));
        script.push(Self::arduchip_read_reg(FIFO_SIZE2));
        script.push(Self::arduchip_read_reg(FIFO_SIZE3));
        assert(script@ =~= length_script());
        Exchange::new(Operation::GetFifoLength, script)
    }

    /// Asks for the sensor's vendor and product identity.
    pub fn get_sensor_chipid(&self) -> (exchange: Exchange)
        ensures
            exchange@ == Progress::start(Operation::GetSensorChipid, chipid_script()),
    {
        let mut script: Vec<Action> = Vec::new();
        script.push(Self::sensor_writereg8_8(OV2640_BANK_SELECT, 0x01));
        script.push(Self::sensor_readreg8_8(OV2640_CHIPID_HIGH, 1));
        script.push(Self::sensor_readreg8_8(OV2640_CHIPID_LOW, 1));
        assert(script@ =~= chipid_script());
        Exchange::new(Operation::GetSensorChipid, script)
    }

    /// The writes that put the sensor into the current resolution.
    pub fn send_resolution(&self) -> (script: Vec<Action>)
        ensures
            script@ == resolution_script(self.spec_tables(), self.spec_resolution()),
    {
        let id = self.resolution.table();
        Self::sensor_writeregs8_8(self.tables.table(id).as_slice())
    }

    /// The write that clears the FIFO.
    pub fn flush_fifo() -> (action: Action)
        ensures
            action == register_write(ARDUCHIP_FIFO, FIFO_CLEAR_MASK),
    {
        Self::arduchip_write_reg(ARDUCHIP_FIFO, FIFO_CLEAR_MASK)
    }

    /// The write that starts a capture.
    pub fn start_fifo() -> (action: Action)
        ensures
            action == register_write(ARDUCHIP_FIFO, FIFO_START_MASK),
    {
        Self::arduchip_write_reg(ARDUCHIP_FIFO, FIFO_START_MASK)
    }

    /// The burst opcode sent by itself.
    pub fn set_fifo_burst() -> (action: Action)
        ensures
            action == (Action::RegisterCommand { opcode: FIFO_BURST }),
    {
        Action::RegisterCommand { opcode: FIFO_BURST }
    }

    /// One transaction that writes the byte `addr` as it is, then `data`.
    pub fn arduchip_write(addr: u8, data: u8) -> (action: Action)
        ensures
            action == (Action::RegisterWrite { addr, data }),
    {
        Action::RegisterWrite { addr, data }
    }

    /// One transaction that writes the byte `addr` as it is, then reads one
    /// byte.
    pub fn arduchip_read(addr: u8) -> (action: Action)
        ensures
            action == (Action::RegisterRead { addr }),
    {
        Action::RegisterRead { addr }
    }

    /// Write of `data` to register `addr`. Whatever the top bit of `addr`,
    /// the address goes out with the write bit set and its low seven bits
    /// kept.
    pub fn arduchip_write_reg(addr: u8, data: u8) -> (action: Action)
        ensures
            action == register_write(addr, data),
            action matches Action::RegisterWrite { addr: framed, data: sent } && sent == data
                && framed >= 0x80 && framed % 128 == addr % 128,
    {
        assert((addr | 0x80) >= 0x80 && (addr | 0x80) % 128 == addr % 128) by (bit_vector);
        Self::arduchip_write(addr | WRITE_FLAG, data)
    }

    /// Read of register `addr`. Whatever the top bit of `addr`, the address
    /// goes out with the write bit cleared and its low seven bits kept.
    pub fn arduchip_read_reg(addr: u8) -> (action: Action)
        ensures
            action == register_read(addr),
            action matches Action::RegisterRead { addr: framed } && framed < 0x80 && framed
                == addr % 128,
    {
        assert((addr & 0x7F) < 0x80 && (addr & 0x7F) == addr % 128) by (bit_vector);
        Self::arduchip_read(addr & ADDRESS_MASK)
    }

    /// One sensor write for each pair of `regs`, in order.
    pub fn sensor_writeregs8_8(regs: &[[u8; 2]]) -> (script: Vec<Action>)
        ensures
            script@ == table_script(regs@),
    {
        let mut script: Vec<Action> = Vec::new();
        let mut i: usize = 0;
        while i < regs.len()
            invariant
                i <= regs.len(),
                script@ == table_script(regs@.take(i as int)),
            decreases regs.len() - i,
        {
            let reg = regs[i];
            script.push(Self::sensor_writereg8_8(reg[0], reg[1]));
            assert(script@ =~= table_script(regs@.take(i + 1)));
            i = i + 1;
        }
        assert(regs@.take(i as int) =~= regs@);
        script
    }

    /// Write of the two bytes `reg`, `data` to the sensor.
    pub fn sensor_writereg8_8(reg: u8, data: u8) -> (action: Action)
        ensures
            action == sensor_write(reg, data),
    {
        assert(reg & 0xFF == reg && data & 0xFF == data) by (bit_vector);
        Action::SensorWrite { device: OV2640_ADDR, reg: reg & 0xFF, data: data & 0xFF }
    }

    /// Write of the byte `reg` to the sensor, then a read of `len` bytes.
    pub fn sensor_readreg8_8(reg: u8, len: usize) -> (action: Action)
        ensures
            action == sensor_read(reg, len),
    {
        assert(reg & 0xFF == reg) by (bit_vector);
        Action::SensorRead { device: OV2640_ADDR, reg: reg & 0xFF, len }
    }
}

} // verus!
