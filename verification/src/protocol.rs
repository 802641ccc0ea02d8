//! Per-command request builders and reply decoders.
//!
//! Every command exposes `request`, which builds the 13-byte frame to send,
//! `reply_size`, which tells the transport how many bytes to read back, and
//! `decode`, which turns the received bytes into a typed value or an
//! [`Error`]. Values carry the raw wire units (millivolts, decivolts, tenths
//! of a percent, milliampere-hours) as integers; presentation layers scale
//! them as they see fit.

use vstd::prelude::*;

use crate::error::Error;
use crate::frame::{
    be16, bit_set, build_request, frame_error, frame_valid, request_frame, validate_checksum,
    validate_frame, validate_len, zero_payload, FRAME_LENGTH,
};

verus! {

/// The sender address written into byte 1 of a request. Only the host
/// address is needed: replies carry the BMS's own address.
#[derive(Debug, Clone, Copy)]
pub enum Address {
    /// The host (the machine this code runs on).
    Host,
}

/// Builds a request frame on behalf of `address`.
fn host_request(address: Address, command: u8, payload: &[u8; 8]) -> (r: Vec<u8>)
    ensures
        r@ == request_frame(command, payload@),
        frame_valid(r@),
{
    match address {
        Address::Host => build_request(command, payload),
    }
}

/// Builds a request frame whose eight payload bytes are all zero.
fn plain_request(address: Address, command: u8) -> (r: Vec<u8>)
    ensures
        r@ == request_frame(command, zero_payload()),
        frame_valid(r@),
{
    let payload: [u8; 8] = [0, 0, 0, 0, 0, 0, 0, 0];
    assert(payload@ =~= zero_payload());
    host_request(address, command, &payload)
}

/// Reads a big-endian 16-bit field from two bytes.
fn read_be16(hi: u8, lo: u8) -> (r: u16)
    ensures
        r == be16(hi, lo),
{
    (hi as u16) * 256 + (lo as u16)
}

/// Reads bit `p` of byte `b`, counting from the least significant bit.
fn read_bit(b: u8, p: u8) -> (r: bool)
    requires
        p < 8,
    ensures
        r == bit_set(b, p),
{
    (b >> p) & 1 != 0
}

/// State of charge and the pack's main electrical readings, in raw wire
/// units.
#[derive(Debug, Clone, PartialEq, Eq, Structural)]
pub struct Soc {
    /// Total battery voltage in tenths of a volt.
    pub total_voltage_decivolts: u16,
    /// Battery current in tenths of an ampere. Negative while charging,
    /// positive while discharging.
    pub current_deciamps: i32,
    /// State of charge in tenths of a percent.
    pub soc_decipercent: u16,
}

impl Soc {
    /// Builds the request frame that asks for the state of charge.
    pub fn request(address: Address) -> (r: Vec<u8>)
        ensures
            r@ == request_frame(0x90, zero_payload()),
            frame_valid(r@),
    {
        plain_request(address, 0x90)
    }

    /// Number of bytes the transport must read back for this command.
    pub fn reply_size() -> (r: usize)
        ensures
            r == 13,
    {
        FRAME_LENGTH
    }

    /// Decodes a state-of-charge reply. The current field carries a fixed
    /// +30000 encoding offset on the wire, which is subtracted here.
    pub fn decode(rx_buffer: &[u8]) -> (r: Result<Self, Error>)
        ensures
            match r {
                Ok(soc) => frame_error(rx_buffer@) is None
                    && soc.total_voltage_decivolts == be16(rx_buffer@[4], rx_buffer@[5])
                    && soc.current_deciamps == be16(rx_buffer@[8], rx_buffer@[9]) - 30000
                    && soc.soc_decipercent == be16(rx_buffer@[10], rx_buffer@[11]),
                Err(e) => frame_error(rx_buffer@) == Some(e),
            },
    {
        if let Err(e) = validate_frame(rx_buffer) {
            return Err(e);
        }
        Ok(Self {
            total_voltage_decivolts: read_be16(rx_buffer[4], rx_buffer[5]),
            current_deciamps: read_be16(rx_buffer[8], rx_buffer[9]) as i32 - 30000,
            soc_decipercent: read_be16(rx_buffer[10], rx_buffer[11]),
        })
    }
}

/// The highest and lowest single-cell voltages and which cells hold them,
/// in raw wire units.
#[derive(Debug, Clone, PartialEq, Eq, Structural)]
pub struct CellVoltageRange {
    /// Highest cell voltage in millivolts.
    pub highest_voltage_millivolts: u16,
    /// Number of the cell with the highest voltage.
    pub highest_cell: u8,
    /// Lowest cell voltage in millivolts.
    pub lowest_voltage_millivolts: u16,
    /// Number of the cell with the lowest voltage.
    pub lowest_cell: u8,
}

impl CellVoltageRange {
    /// Builds the request frame that asks for the cell-voltage range.
    pub fn request(address: Address) -> (r: Vec<u8>)
        ensures
            r@ == request_frame(0x91, zero_payload()),
            frame_valid(r@),
    {
        plain_request(address, 0x91)
    }

    /// Number of bytes the transport must read back for this command.
    pub fn reply_size() -> (r: usize)
        ensures
            r == 13,
    {
        FRAME_LENGTH
    }

    /// Decodes a cell-voltage-range reply.
    pub fn decode(rx_buffer: &[u8]) -> (r: Result<Self, Error>)
        ensures
            match r {
                Ok(range) => frame_error(rx_buffer@) is None
                    && range.highest_voltage_millivolts == be16(rx_buffer@[4], rx_buffer@[5])
                    && range.highest_cell == rx_buffer@[6]
                    && range.lowest_voltage_millivolts == be16(rx_buffer@[7], rx_buffer@[8])
                    && range.lowest_cell == rx_buffer@[9],
                Err(e) => frame_error(rx_buffer@) == Some(e),
            },
    {
        if let Err(e) = validate_frame(rx_buffer) {
            return Err(e);
        }
        Ok(Self {
            highest_voltage_millivolts: read_be16(rx_buffer[4], rx_buffer[5]),
            highest_cell: rx_buffer[6],
            lowest_voltage_millivolts: read_be16(rx_buffer[7], rx_buffer[8]),
            lowest_cell: rx_buffer[9],
        })
    }
}

/// A raw temperature byte made into degrees Celsius: the wire adds a +40
/// offset, and the result is narrowed to a signed byte with the silent
/// 8-bit wraparound the device's range makes unreachable in practice.
pub open spec fn temperature_from_raw(b: u8) -> i8 {
    if b - 40 > 127 {
        (b - 296) as i8
    } else {
        (b - 40) as i8
    }
}

/// The highest and lowest sensor temperatures and which sensors reported
/// them.
#[derive(Debug, Clone, PartialEq, Eq, Structural)]
pub struct TemperatureRange {
    /// Highest temperature in degrees Celsius.
    pub highest_temperature: i8,
    /// Number of the sensor that reported the highest temperature.
    pub highest_sensor: u8,
    /// Lowest temperature in degrees Celsius.
    pub lowest_temperature: i8,
    /// Number of the sensor that reported the lowest temperature.
    pub lowest_sensor: u8,
}

impl TemperatureRange {
    /// Builds the request frame that asks for the temperature range.
    pub fn request(address: Address) -> (r: Vec<u8>)
        ensures
            r@ == request_frame(0x92, zero_payload()),
            frame_valid(r@),
    {
        plain_request(address, 0x92)
    }

    /// Number of bytes the transport must read back for this command.
    pub fn reply_size() -> (r: usize)
        ensures
            r == 13,
    {
        FRAME_LENGTH
    }

    /// Decodes a temperature-range reply, removing the +40 wire offset.
    pub fn decode(rx_buffer: &[u8]) -> (r: Result<Self, Error>)
        ensures
            match r {
                Ok(range) => frame_error(rx_buffer@) is None
                    && range.highest_temperature == temperature_from_raw(rx_buffer@[4])
                    && range.highest_sensor == rx_buffer@[5]
                    && range.lowest_temperature == temperature_from_raw(rx_buffer@[6])
                    && range.lowest_sensor == rx_buffer@[7],
                Err(e) => frame_error(rx_buffer@) == Some(e),
            },
    {
        if let Err(e) = validate_frame(rx_buffer) {
            return Err(e);
        }
        Ok(Self {
            highest_temperature: read_temperature(rx_buffer[4]),
            highest_sensor: rx_buffer[5],
            lowest_temperature: read_temperature(rx_buffer[6]),
            lowest_sensor: rx_buffer[7],
        })
    }
}

/// Converts one raw temperature byte to degrees Celsius.
fn read_temperature(b: u8) -> (r: i8)
    ensures
        r == temperature_from_raw(b),
{
    let t: i16 = b as i16 - 40;
    if t > 127 {
        (t - 256) as i8
    } else {
        t as i8
    }
}

/// What the MOSFET switches are currently doing.
#[derive(Debug, Clone, Copy, PartialEq, Eq, Structural)]
pub enum MosfetMode {
    /// Neither charging nor discharging.
    Stationary,
    /// Charging.
    Charging,
    /// Discharging.
    Discharging,
}

/// The MOSFET mode encoded in one raw byte. The device only sends 0, 1
/// or 2.
pub open spec fn mosfet_mode_from_raw(b: u8) -> MosfetMode {
    if b == 0 {
        MosfetMode::Stationary
    } else if b == 1 {
        MosfetMode::Charging
    } else {
        MosfetMode::Discharging
    }
}

/// Big-endian 32-bit value held in four bytes.
pub open spec fn be32(b0: u8, b1: u8, b2: u8, b3: u8) -> u32 {
    (b0 * 0x1000000 + b1 * 0x10000 + b2 * 256 + b3) as u32
}

/// Reads a big-endian 32-bit field from four bytes.
fn read_be32(b0: u8, b1: u8, b2: u8, b3: u8) -> (r: u32)
    ensures
        r == be32(b0, b1, b2, b3),
{
    (b0 as u32) * 0x1000000 + (b1 as u32) * 0x10000 + (b2 as u32) * 256 + (b3 as u32)
}

/// The MOSFET switch states and remaining capacity, in raw wire units.
#[derive(Debug, Clone, PartialEq, Eq, Structural)]
pub struct MosfetStatus {
    /// Current operating mode.
    pub mode: MosfetMode,
    /// Whether the charging MOSFET is enabled.
    pub charging_mosfet: bool,
    /// Whether the discharging MOSFET is enabled.
    pub discharging_mosfet: bool,
    /// Number of BMS charge/discharge cycles.
    pub bms_cycles: u8,
    /// Remaining capacity in milliampere-hours.
    pub capacity_milliamp_hours: u32,
}

impl MosfetStatus {
    /// Builds the request frame that asks for the MOSFET status.
    pub fn request(address: Address) -> (r: Vec<u8>)
        ensures
            r@ == request_frame(0x93, zero_payload()),
            frame_valid(r@),
    {
        plain_request(address, 0x93)
    }

    /// Number of bytes the transport must read back for this command.
    pub fn reply_size() -> (r: usize)
        ensures
            r == 13,
    {
        FRAME_LENGTH
    }

    /// Decodes a MOSFET-status reply. The device writes only 0, 1 or 2
    /// into the mode byte of a well-formed reply; other values are outside
    /// this function's domain.
    pub fn decode(rx_buffer: &[u8]) -> (r: Result<Self, Error>)
        requires
            frame_error(rx_buffer@) is None ==> rx_buffer@[4] <= 2,
        ensures
            match r {
                Ok(status) => frame_error(rx_buffer@) is None
                    && status.mode == mosfet_mode_from_raw(rx_buffer@[4])
                    && status.charging_mosfet == (rx_buffer@[5] != 0)
                    && status.discharging_mosfet == (rx_buffer@[6] != 0)
                    && status.bms_cycles == rx_buffer@[7]
                    && status.capacity_milliamp_hours == be32(
                        rx_buffer@[8],
                        rx_buffer@[9],
                        rx_buffer@[10],
                        rx_buffer@[11],
                    ),
                Err(e) => frame_error(rx_buffer@) == Some(e),
            },
    {
        if let Err(e) = validate_frame(rx_buffer) {
            return Err(e);
        }
        let mode = if rx_buffer[4] == 0 {
            MosfetMode::Stationary
        } else if rx_buffer[4] == 1 {
            MosfetMode::Charging
        } else {
            MosfetMode::Discharging
        };
        Ok(Self {
            mode,
            charging_mosfet: rx_buffer[5] != 0,
            discharging_mosfet: rx_buffer[6] != 0,
            bms_cycles: rx_buffer[7],
            capacity_milliamp_hours: read_be32(
                rx_buffer[8],
                rx_buffer[9],
                rx_buffer[10],
                rx_buffer[11],
            ),
        })
    }
}

/// The state of the four digital inputs and four digital outputs, unpacked
/// from one byte, least significant bit first.
#[derive(Debug, Clone, PartialEq, Eq, Structural)]
pub struct IOState {
    /// Digital input 1.
    pub di1: bool,
    /// Digital input 2.
    pub di2: bool,
    /// Digital input 3.
    pub di3: bool,
    /// Digital input 4.
    pub di4: bool,
    /// Digital output 1.
    pub do1: bool,
    /// Digital output 2.
    pub do2: bool,
    /// Digital output 3.
    pub do3: bool,
    /// Digital output 4.
    pub do4: bool,
}

/// General device status. The `cells` and `temperature_sensors` counts gate
/// the multi-frame commands: callers must pass them back into the
/// cell-voltage, cell-temperature and balancing decoders.
#[derive(Debug, Clone, PartialEq, Eq, Structural)]
pub struct Status {
    /// Number of battery cells in the pack.
    pub cells: u8,
    /// Number of temperature sensors.
    pub temperature_sensors: u8,
    /// Whether a charger is attached and running.
    pub charger_running: bool,
    /// Whether a load is attached and drawing power.
    pub load_running: bool,
    /// The digital input and output lines.
    pub states: IOState,
    /// Number of charge/discharge cycles.
    pub cycles: u16,
}

impl Status {
    /// Builds the request frame that asks for the device status.
    pub fn request(address: Address) -> (r: Vec<u8>)
        ensures
            r@ == request_frame(0x94, zero_payload()),
            frame_valid(r@),
    {
        plain_request(address, 0x94)
    }

    /// Number of bytes the transport must read back for this command.
    pub fn reply_size() -> (r: usize)
        ensures
            r == 13,
    {
        FRAME_LENGTH
    }

    /// Decodes a status reply.
    pub fn decode(rx_buffer: &[u8]) -> (r: Result<Self, Error>)
        ensures
            match r {
                Ok(status) => frame_error(rx_buffer@) is None
                    && status.cells == rx_buffer@[4]
                    && status.temperature_sensors == rx_buffer@[5]
                    && status.charger_running == (rx_buffer@[6] != 0)
                    && status.load_running == (rx_buffer@[7] != 0)
                    && status.states.di1 == bit_set(rx_buffer@[8], 0)
                    && status.states.di2 == bit_set(rx_buffer@[8], 1)
                    && status.states.di3 == bit_set(rx_buffer@[8], 2)
                    && status.states.di4 == bit_set(rx_buffer@[8], 3)
                    && status.states.do1 == bit_set(rx_buffer@[8], 4)
                    && status.states.do2 == bit_set(rx_buffer@[8], 5)
                    && status.states.do3 == bit_set(rx_buffer@[8], 6)
                    && status.states.do4 == bit_set(rx_buffer@[8], 7)
                    && status.cycles == be16(rx_buffer@[9], rx_buffer@[10]),
                Err(e) => frame_error(rx_buffer@) == Some(e),
            },
    {
        if let Err(e) = validate_frame(rx_buffer) {
            return Err(e);
        }
        Ok(Self {
            cells: rx_buffer[4],
            temperature_sensors: rx_buffer[5],
            charger_running: rx_buffer[6] != 0,
            load_running: rx_buffer[7] != 0,
            states: IOState {
                di1: read_bit(rx_buffer[8], 0),
                di2: read_bit(rx_buffer[8], 1),
                di3: read_bit(rx_buffer[8], 2),
                di4: read_bit(rx_buffer[8], 3),
                do1: read_bit(rx_buffer[8], 4),
                do2: read_bit(rx_buffer[8], 5),
                do3: read_bit(rx_buffer[8], 6),
                do4: read_bit(rx_buffer[8], 7),
            },
            cycles: read_be16(rx_buffer[9], rx_buffer[10]),
        })
    }
}

/// The number of 13-byte frames a reply spans when it carries `count`
/// values at `per_frame` values per frame.
pub open spec fn frame_count(count: int, per_frame: int) -> int {
    (count + per_frame - 1) / per_frame
}

/// The 1-based `i`-th 13-byte frame window of a concatenated reply.
pub open spec fn frame_at(s: Seq<u8>, i: int) -> Seq<u8> {
    s.subrange(13 * (i - 1), 13 * i)
}

/// Whether the `f`-th frame of a concatenated reply carries its own
/// position in its sequence byte and a correct checksum.
pub open spec fn frame_ok(s: Seq<u8>, f: int) -> bool {
    s[13 * (f - 1) + 4] == f && frame_valid(frame_at(s, f))
}

/// Scans frames `i` through `n` of a concatenated reply in order. A frame
/// whose sequence byte differs from its position fails with
/// [`Error::FrameNoError`] before its checksum is looked at; a checksum
/// mismatch stops the scan with [`Error::CheckSumError`]; later frames are
/// not inspected.
pub open spec fn frames_error_from(s: Seq<u8>, i: int, n: int) -> Option<Error>
    decreases n + 1 - i,
{
    if i > n {
        None
    } else if s[13 * (i - 1) + 4] != i {
        Some(Error::FrameNoError)
    } else if !frame_valid(frame_at(s, i)) {
        Some(Error::CheckSumError)
    } else {
        frames_error_from(s, i + 1, n)
    }
}

/// Why a concatenated reply of `n` frames is rejected: too short, or one of
/// its frames fails the in-order scan. `None` means all frames are
/// accepted; bytes beyond the `n` frames are ignored.
pub open spec fn multi_frame_error(s: Seq<u8>, n: int) -> Option<Error> {
    if s.len() < 13 * n {
        Some(Error::ReplySizeError)
    } else {
        frames_error_from(s, 1, n)
    }
}

/// When every frame up to `n` passes, the in-order scan accepts the reply.
pub proof fn lemma_frames_all_ok(s: Seq<u8>, i: int, n: int)
    requires
        1 <= i,
        forall|f: int| i <= f <= n ==> #[trigger] frame_ok(s, f),
    ensures
        frames_error_from(s, i, n) is None,
    decreases n + 1 - i,
{
    if i <= n {
        assert(frame_ok(s, i));
        lemma_frames_all_ok(s, i + 1, n);
    }
}

/// The in-order scan can skip over leading frames already known good.
pub proof fn lemma_frames_error_skip(s: Seq<u8>, i: int, n: int)
    requires
        1 <= i <= n + 1,
        forall|f: int| 1 <= f < i ==> #[trigger] frame_ok(s, f),
    ensures
        frames_error_from(s, 1, n) == frames_error_from(s, i, n),
    decreases i,
{
    if i > 1 {
        lemma_frames_error_skip(s, i - 1, n);
        assert(frame_ok(s, i - 1));
    }
}

/// The `k`-th (0-based) cell voltage held in a concatenated reply, in
/// millivolts: two big-endian bytes in frame `k / 3` at payload offset
/// `5 + 2 * (k % 3)`.
pub open spec fn cell_voltage_at(s: Seq<u8>, k: int) -> u16 {
    be16(s[13 * (k / 3) + 5 + 2 * (k % 3)], s[13 * (k / 3) + 6 + 2 * (k % 3)])
}

/// The `k`-th (0-based) sensor temperature held in a concatenated reply, in
/// degrees Celsius: one byte in frame `k / 7` at payload offset
/// `5 + k % 7`, minus the +40 wire offset.
pub open spec fn cell_temperature_at(s: Seq<u8>, k: int) -> i32 {
    (s[13 * (k / 7) + 5 + (k % 7)] - 40) as i32
}

/// The per-cell voltages of the pack, in millivolts, in cell order.
#[derive(Debug, Clone, PartialEq, Eq)]
pub struct CellVoltages(pub Vec<u16>);

impl CellVoltages {
    /// Builds the request frame that asks for the individual cell voltages.
    pub fn request(address: Address) -> (r: Vec<u8>)
        ensures
            r@ == request_frame(0x95, zero_payload()),
            frame_valid(r@),
    {
        plain_request(address, 0x95)
    }

    /// The number of frames a reply spans: three cells fit in one frame.
    fn n_frames(n_cells: u8) -> (r: usize)
        ensures
            r == frame_count(n_cells as int, 3),
            r <= 85,
    {
        (n_cells as usize + 2) / 3
    }

    /// Number of bytes the transport must read back for `n_cells` cells.
    pub fn reply_size(n_cells: u8) -> (r: usize)
        ensures
            r == 13 * frame_count(n_cells as int, 3),
    {
        13 * Self::n_frames(n_cells)
    }

    /// Decodes a concatenated multi-frame cell-voltage reply into one
    /// voltage per cell, in order. Each frame is checked for its position
    /// and its checksum before its values are taken; the trailing padding
    /// of the last frame is not decoded.
    pub fn decode(rx_buffer: &[u8], n_cells: u8) -> (r: Result<Self, Error>)
        ensures
            match r {
                Ok(v) => multi_frame_error(rx_buffer@, frame_count(n_cells as int, 3)) is None
                    && v.0@.len() == n_cells
                    && (forall|k: int|
                        0 <= k < n_cells ==> v.0@[k] == cell_voltage_at(rx_buffer@, k)),
                Err(e) => multi_frame_error(rx_buffer@, frame_count(n_cells as int, 3)) == Some(e),
            },
    {
        let n_frames = Self::n_frames(n_cells);
        if let Err(e) = validate_len(rx_buffer, 13 * n_frames) {
            return Err(e);
        }
        let ghost s = rx_buffer@;
        let mut voltages: Vec<u16> = Vec::new();
        let mut n_frame: usize = 1;
        while n_frame <= n_frames
            invariant
                1 <= n_frame <= n_frames + 1,
                n_frames == frame_count(n_cells as int, 3),
                n_frames <= 85,
                s == rx_buffer@,
                s.len() >= 13 * n_frames,
                forall|f: int| 1 <= f < n_frame ==> #[trigger] frame_ok(s, f),
                voltages@.len() == vstd::math::min(3 * (n_frame - 1), n_cells as int),
                forall|k: int|
                    0 <= k < voltages@.len() ==> voltages@[k] == cell_voltage_at(s, k),
            decreases n_frames + 1 - n_frame,
        {
            let base = 13 * (n_frame - 1);
            let part = &rx_buffer[base..base + 13];
            if part[4] as usize != n_frame {
                proof {
                    lemma_frames_error_skip(s, n_frame as int, n_frames as int);
                }
                return Err(Error::FrameNoError);
            }
            if let Err(e) = validate_checksum(part) {
                proof {
                    assert(part@.take(12) =~= frame_at(s, n_frame as int).take(12));
                    lemma_frames_error_skip(s, n_frame as int, n_frames as int);
                }
                return Err(e);
            }
            proof {
                assert(part@.take(12) =~= frame_at(s, n_frame as int).take(12));
                assert(frame_ok(s, n_frame as int));
            }
            let mut j: usize = 0;
            while j < 3
                invariant
                    j <= 3,
                    1 <= n_frame <= n_frames,
                    s == rx_buffer@,
                    s.len() >= 13 * n_frames,
                    base == 13 * (n_frame - 1),
                    voltages@.len() == vstd::math::min(3 * (n_frame - 1) + j, n_cells as int),
                    forall|k: int|
                        0 <= k < voltages@.len() ==> voltages@[k] == cell_voltage_at(s, k),
                decreases 3 - j,
            {
                if voltages.len() < n_cells as usize {
                    let ghost k = voltages@.len() as int;
                    proof {
                        assert(k == 3 * (n_frame - 1) + j && 0 <= j < 3);
                        assert(k / 3 == n_frame - 1 && k % 3 == j) by (nonlinear_arith)
                            requires
                                k == 3 * (n_frame as int - 1) + j,
                                0 <= j < 3,
                                1 <= n_frame,
                        ;
                    }
                    let volt = read_be16(rx_buffer[base + 5 + 2 * j], rx_buffer[base + 6 + 2 * j]);
                    voltages.push(volt);
                }
                j = j + 1;
            }
            n_frame = n_frame + 1;
        }
        proof {
            lemma_frames_all_ok(s, 1, n_frames as int);
            vstd::arithmetic::div_mod::lemma_fundamental_div_mod(n_cells as int + 2, 3);
        }
        Ok(CellVoltages(voltages))
    }
}

/// Command that asks for the individual sensor temperatures. The reply
/// spans several frames when the pack has more than seven sensors.
pub struct CellTemperatures;

impl CellTemperatures {
    /// Builds the request frame that asks for the sensor temperatures.
    pub fn request(address: Address) -> (r: Vec<u8>)
        ensures
            r@ == request_frame(0x96, zero_payload()),
            frame_valid(r@),
    {
        plain_request(address, 0x96)
    }

    /// The number of frames a reply spans: seven sensors fit in one frame.
    fn n_frames(n_sensors: u8) -> (r: usize)
        ensures
            r == frame_count(n_sensors as int, 7),
            r <= 37,
    {
        (n_sensors as usize + 6) / 7
    }

    /// Number of bytes the transport must read back for `n_sensors`
    /// sensors.
    pub fn reply_size(n_sensors: u8) -> (r: usize)
        ensures
            r == 13 * frame_count(n_sensors as int, 7),
    {
        13 * Self::n_frames(n_sensors)
    }

    /// Decodes a concatenated multi-frame temperature reply into one
    /// reading per sensor, in order, removing the +40 wire offset. Each
    /// frame is checked for its position and its checksum before its values
    /// are taken; the trailing padding of the last frame is not decoded.
    pub fn decode(rx_buffer: &[u8], n_sensors: u8) -> (r: Result<Vec<i32>, Error>)
        ensures
            match r {
                Ok(v) => multi_frame_error(rx_buffer@, frame_count(n_sensors as int, 7)) is None
                    && v@.len() == n_sensors
                    && (forall|k: int|
                        0 <= k < n_sensors ==> v@[k] == cell_temperature_at(rx_buffer@, k)),
                Err(e) => multi_frame_error(rx_buffer@, frame_count(n_sensors as int, 7)) == Some(
                    e,
                ),
            },
    {
        let n_frames = Self::n_frames(n_sensors);
        if let Err(e) = validate_len(rx_buffer, 13 * n_frames) {
            return Err(e);
        }
        let ghost s = rx_buffer@;
        let mut result: Vec<i32> = Vec::new();
        let mut n_frame: usize = 1;
        while n_frame <= n_frames
            invariant
                1 <= n_frame <= n_frames + 1,
                n_frames == frame_count(n_sensors as int, 7),
                n_frames <= 37,
                s == rx_buffer@,
                s.len() >= 13 * n_frames,
                forall|f: int| 1 <= f < n_frame ==> #[trigger] frame_ok(s, f),
                result@.len() == vstd::math::min(7 * (n_frame - 1), n_sensors as int),
                forall|k: int|
                    0 <= k < result@.len() ==> result@[k] == cell_temperature_at(s, k),
            decreases n_frames + 1 - n_frame,
        {
            let base = 13 * (n_frame - 1);
            let part = &rx_buffer[base..base + 13];
            if part[4] as usize != n_frame {
                proof {
                    lemma_frames_error_skip(s, n_frame as int, n_frames as int);
                }
                return Err(Error::FrameNoError);
            }
            if let Err(e) = validate_checksum(part) {
                proof {
                    lemma_frames_error_skip(s, n_frame as int, n_frames as int);
                }
                return Err(e);
            }
            proof {
                assert(frame_ok(s, n_frame as int));
            }
            let mut j: usize = 0;
            while j < 7
                invariant
                    j <= 7,
                    1 <= n_frame <= n_frames,
                    s == rx_buffer@,
                    s.len() >= 13 * n_frames,
                    base == 13 * (n_frame - 1),
                    result@.len() == vstd::math::min(7 * (n_frame - 1) + j, n_sensors as int),
                    forall|k: int|
                        0 <= k < result@.len() ==> result@[k] == cell_temperature_at(s, k),
                decreases 7 - j,
            {
                if result.len() < n_sensors as usize {
                    let ghost k = result@.len() as int;
                    proof {
                        assert(k == 7 * (n_frame - 1) + j && 0 <= j < 7);
                        assert(k / 7 == n_frame - 1 && k % 7 == j) by (nonlinear_arith)
                            requires
                                k == 7 * (n_frame as int - 1) + j,
                                0 <= j < 7,
                                1 <= n_frame,
                        ;
                    }
                    let temperature = rx_buffer[base + 5 + j] as i32 - 40;
                    result.push(temperature);
                }
                j = j + 1;
            }
            n_frame = n_frame + 1;
        }
        proof {
            lemma_frames_all_ok(s, 1, n_frames as int);
            vstd::arithmetic::div_mod::lemma_fundamental_div_mod(n_sensors as int + 6, 7);
        }
        Ok(result)
    }
}

/// The number of balancing flags a reply carries for `n_cells` cells: one
/// per cell, capped at the 48 bits held in payload bytes 4 through 9.
pub open spec fn balance_flag_count(n_cells: int) -> int {
    if n_cells <= 48 {
        n_cells
    } else {
        48
    }
}

/// The balancing flag of cell `k` (0-based) in a reply frame: bit `k % 8`
/// of payload byte `4 + k / 8`.
pub open spec fn balance_flag_at(s: Seq<u8>, k: int) -> bool {
    bit_set(s[4 + k / 8], (k % 8) as u8)
}

/// Command that asks which cells are currently being balanced.
pub struct CellBalanceState;

impl CellBalanceState {
    /// Builds the request frame that asks for the balancing state.
    pub fn request(address: Address) -> (r: Vec<u8>)
        ensures
            r@ == request_frame(0x97, zero_payload()),
            frame_valid(r@),
    {
        plain_request(address, 0x97)
    }

    /// Number of bytes the transport must read back for this command.
    pub fn reply_size() -> (r: usize)
        ensures
            r == 13,
    {
        FRAME_LENGTH
    }

    /// Decodes a balancing-state reply into one flag per cell, in cell
    /// order, `true` where the cell is balancing.
    pub fn decode(rx_buffer: &[u8], n_cells: u8) -> (r: Result<Vec<bool>, Error>)
        ensures
            match r {
                Ok(v) => frame_error(rx_buffer@) is None
                    && v@.len() == balance_flag_count(n_cells as int)
                    && (forall|k: int|
                        0 <= k < v@.len() ==> v@[k] == balance_flag_at(rx_buffer@, k)),
                Err(e) => frame_error(rx_buffer@) == Some(e),
            },
    {
        if let Err(e) = validate_frame(rx_buffer) {
            return Err(e);
        }
        Ok(read_balance_flags(rx_buffer, n_cells))
    }
}

/// Reads the balancing flags out of a frame already validated.
fn read_balance_flags(rx_buffer: &[u8], n_cells: u8) -> (r: Vec<bool>)
    requires
        rx_buffer@.len() >= 13,
    ensures
        r@.len() == balance_flag_count(n_cells as int),
        forall|k: int| 0 <= k < r@.len() ==> r@[k] == balance_flag_at(rx_buffer@, k),
{
    let count: usize = if n_cells > 48 {
        48
    } else {
        n_cells as usize
    };
    let mut result: Vec<bool> = Vec::new();
    let mut k: usize = 0;
    while k < count
        invariant
            k <= count,
            count == balance_flag_count(n_cells as int),
            rx_buffer@.len() >= 13,
            result@.len() == k,
            forall|i: int| 0 <= i < k ==> result@[i] == balance_flag_at(rx_buffer@, i),
        decreases count - k,
    {
        result.push(read_bit(rx_buffer[4 + k / 8], (k % 8) as u8));
        k = k + 1;
    }
    result
}

/// Decodes cell voltages out of frames whose sequence numbers and checksums
/// a receiver has already checked one by one, in millivolts, in cell order.
/// Takes exactly the frames the cell count calls for: three cells per
/// frame.
pub fn decode_cell_voltages(rx_buffers: &[[u8; 13]], n_cells: u8) -> (r: Vec<u16>)
    requires
        rx_buffers@.len() == frame_count(n_cells as int, 3),
    ensures
        r@.len() == n_cells,
        forall|k: int|
            0 <= k < n_cells ==> r@[k] == be16(
                rx_buffers@[k / 3]@[5 + 2 * (k % 3)],
                rx_buffers@[k / 3]@[6 + 2 * (k % 3)],
            ),
{
    let n_frames = rx_buffers.len();
    let mut result: Vec<u16> = Vec::new();
    let mut f: usize = 0;
    while f < n_frames
        invariant
            f <= n_frames,
            n_frames == rx_buffers@.len(),
            n_frames == frame_count(n_cells as int, 3),
            result@.len() == vstd::math::min(3 * f, n_cells as int),
            forall|k: int|
                0 <= k < result@.len() ==> result@[k] == be16(
                    rx_buffers@[k / 3]@[5 + 2 * (k % 3)],
                    rx_buffers@[k / 3]@[6 + 2 * (k % 3)],
                ),
        decreases n_frames - f,
    {
        let mut j: usize = 0;
        while j < 3
            invariant
                j <= 3,
                f < n_frames,
                n_frames == rx_buffers@.len(),
                result@.len() == vstd::math::min(3 * f + j, n_cells as int),
                forall|k: int|
                    0 <= k < result@.len() ==> result@[k] == be16(
                        rx_buffers@[k / 3]@[5 + 2 * (k % 3)],
                        rx_buffers@[k / 3]@[6 + 2 * (k % 3)],
                    ),
            decreases 3 - j,
        {
            if result.len() < n_cells as usize {
                proof {
                    let k = result@.len() as int;
                    assert(k / 3 == f && k % 3 == j) by (nonlinear_arith)
                        requires
                            k == 3 * (f as int) + j,
                            0 <= j < 3,
                            0 <= f,
                    ;
                }
                let volt = read_be16(rx_buffers[f][5 + 2 * j], rx_buffers[f][6 + 2 * j]);
                result.push(volt);
            }
            j = j + 1;
        }
        f = f + 1;
    }
    proof {
        vstd::arithmetic::div_mod::lemma_fundamental_div_mod(n_cells as int + 2, 3);
    }
    result
}

/// Decodes sensor temperatures out of frames whose sequence numbers and
/// checksums a receiver has already checked one by one, in degrees Celsius,
/// in sensor order, removing the +40 wire offset. Takes exactly the frames
/// the sensor count calls for: seven sensors per frame.
pub fn decode_cell_temperatures(rx_buffers: &[[u8; 13]], sensors: u8) -> (r: Vec<i32>)
    requires
        rx_buffers@.len() == frame_count(sensors as int, 7),
    ensures
        r@.len() == sensors,
        forall|k: int|
            0 <= k < sensors ==> r@[k] == rx_buffers@[k / 7]@[5 + (k % 7)] - 40,
{
    let n_frames = rx_buffers.len();
    let mut result: Vec<i32> = Vec::new();
    let mut f: usize = 0;
    while f < n_frames
        invariant
            f <= n_frames,
            n_frames == rx_buffers@.len(),
            n_frames == frame_count(sensors as int, 7),
            result@.len() == vstd::math::min(7 * f, sensors as int),
            forall|k: int|
                0 <= k < result@.len() ==> result@[k] == rx_buffers@[k / 7]@[5 + (k % 7)] - 40,
        decreases n_frames - f,
    {
        let mut j: usize = 0;
        while j < 7
            invariant
                j <= 7,
                f < n_frames,
                n_frames == rx_buffers@.len(),
                result@.len() == vstd::math::min(7 * f + j, sensors as int),
                forall|k: int|
                    0 <= k < result@.len() ==> result@[k] == rx_buffers@[k / 7]@[5 + (k % 7)]
                        - 40,
            decreases 7 - j,
        {
            if result.len() < sensors as usize {
                proof {
                    let k = result@.len() as int;
                    assert(k / 7 == f && k % 7 == j) by (nonlinear_arith)
                        requires
                            k == 7 * (f as int) + j,
                            0 <= j < 7,
                            0 <= f,
                    ;
                }
                let temperature = rx_buffers[f][5 + j] as i32 - 40;
                result.push(temperature);
            }
            j = j + 1;
        }
        f = f + 1;
    }
    proof {
        vstd::arithmetic::div_mod::lemma_fundamental_div_mod(sensors as int + 6, 7);
    }
    result
}

/// Decodes balancing flags out of a frame whose checksum a receiver has
/// already checked: one flag per cell, `true` where the cell is balancing,
/// capped at the 48 bits the payload holds.
pub fn decode_balancing_status(rx_buffer: &[u8; 13], n_cells: u8) -> (r: Vec<bool>)
    ensures
        r@.len() == balance_flag_count(n_cells as int),
        forall|k: int| 0 <= k < r@.len() ==> r@[k] == balance_flag_at(rx_buffer@, k),
{
    read_balance_flags(vstd::array::array_as_slice(rx_buffer), n_cells)
}

/// An alarm or fault condition the BMS can report. An error-code reply
/// carries a bitmask spread over payload bytes 4 through 10; each set bit
/// names exactly one of these conditions.
#[derive(Debug, Clone, Copy, PartialEq, Eq, Structural)]
pub enum ErrorCode {
    /// Cell voltage too high, level 1.
    CellVoltHighLevel1,
    /// Cell voltage too high, level 2.
    CellVoltHighLevel2,
    /// Cell voltage too low, level 1.
    CellVoltLowLevel1,
    /// Cell voltage too low, level 2.
    CellVoltLowLevel2,
    /// Total voltage too high, level 1.
    SumVoltHighLevel1,
    /// Total voltage too high, level 2.
    SumVoltHighLevel2,
    /// Total voltage too low, level 1.
    SumVoltLowLevel1,
    /// Total voltage too low, level 2.
    SumVoltLowLevel2,
    /// Charging temperature too high, level 1.
    ChargeTempHighLevel1,
    /// Charging temperature too high, level 2.
    ChargeTempHighLevel2,
    /// Charging temperature too low, level 1.
    ChargeTempLowLevel1,
    /// Charging temperature too low, level 2.
    ChargeTempLowLevel2,
    /// Discharging temperature too high, level 1.
    DischargeTempHighLevel1,
    /// Discharging temperature too high, level 2.
    DischargeTempHighLevel2,
    /// Discharging temperature too low, level 1.
    DischargeTempLowLevel1,
    /// Discharging temperature too low, level 2.
    DischargeTempLowLevel2,
    /// Charge overcurrent, level 1.
    ChargeOvercurrentLevel1,
    /// Charge overcurrent, level 2.
    ChargeOvercurrentLevel2,
    /// Discharge overcurrent, level 1.
    DischargeOvercurrentLevel1,
    /// Discharge overcurrent, level 2.
    DischargeOvercurrentLevel2,
    /// State of charge too high, level 1.
    SocHighLevel1,
    /// State of charge too high, level 2.
    SocHighLevel2,
    /// State of charge too low, level 1.
    SocLowLevel1,
    /// State of charge too low, level 2.
    SocLowLevel2,
    /// Excessive voltage difference between cells, level 1.
    DiffVoltLevel1,
    /// Excessive voltage difference between cells, level 2.
    DiffVoltLevel2,
    /// Excessive temperature difference between sensors, level 1.
    DiffTempLevel1,
    /// Excessive temperature difference between sensors, level 2.
    DiffTempLevel2,
    /// Charging MOSFET over-temperature alarm.
    ChargeMosTempHighAlarm,
    /// Discharging MOSFET over-temperature alarm.
    DischargeMosTempHighAlarm,
    /// Charging MOSFET temperature sensor failure.
    ChargeMosTempSensorErr,
    /// Discharging MOSFET temperature sensor failure.
    DischargeMosTempSensorErr,
    /// Charging MOSFET stuck closed.
    ChargeMosAdhesionErr,
    /// Discharging MOSFET stuck closed.
    DischargeMosAdhesionErr,
    /// Charging MOSFET stuck open.
    ChargeMosOpenCircuitErr,
    /// Discharging MOSFET stuck open.
    DischargeMosOpenCircuitErr,
    /// Analog-front-end acquisition chip failure.
    AfeCollectChipErr,
    /// Cell-voltage collection circuit dropped off.
    VoltageCollectDropped,
    /// A single temperature sensor failed.
    CellTempSensorErr,
    /// EEPROM storage failure.
    EepromErr,
    /// Real-time-clock failure.
    RtcErr,
    /// Pre-charge failure.
    PrechangeFailure,
    /// Communication failure.
    CommunicationFailure,
    /// Internal communication module failure.
    InternalCommunicationFailure,
    /// Current detection module failure.
    CurrentModuleFault,
    /// Total-voltage detection module failure.
    SumVoltageDetectFault,
    /// Short-circuit protection failure.
    ShortCircuitProtectFault,
    /// Low voltage forbids charging.
    LowVoltForbiddenChargeFault,
}

/// The fixed error-code table: entry `i` gives the frame byte offset, the
/// bit position within that byte, and the condition the bit names. Decoding
/// walks the table in this order, so the order of reported conditions is
/// part of the contract. Entries 16 and 17 check level 2 before level 1,
/// as the device's documentation lays the bits out.
pub open spec fn flag_entry(i: int) -> (u8, u8, ErrorCode) {
    if i == 0 { (4u8, 0u8, ErrorCode::CellVoltHighLevel1) }
    else if i == 1 { (4u8, 1u8, ErrorCode::CellVoltHighLevel2) }
    else if i == 2 { (4u8, 2u8, ErrorCode::CellVoltLowLevel1) }
    else if i == 3 { (4u8, 3u8, ErrorCode::CellVoltLowLevel2) }
    else if i == 4 { (4u8, 4u8, ErrorCode::SumVoltHighLevel1) }
    else if i == 5 { (4u8, 5u8, ErrorCode::SumVoltHighLevel2) }
    else if i == 6 { (4u8, 6u8, ErrorCode::SumVoltLowLevel1) }
    else if i == 7 { (4u8, 7u8, ErrorCode::SumVoltLowLevel2) }
    else if i == 8 { (5u8, 0u8, ErrorCode::ChargeTempHighLevel1) }
    else if i == 9 { (5u8, 1u8, ErrorCode::ChargeTempHighLevel2) }
    else if i == 10 { (5u8, 2u8, ErrorCode::ChargeTempLowLevel1) }
    else if i == 11 { (5u8, 3u8, ErrorCode::ChargeTempLowLevel2) }
    else if i == 12 { (5u8, 4u8, ErrorCode::DischargeTempHighLevel1) }
    else if i == 13 { (5u8, 5u8, ErrorCode::DischargeTempHighLevel2) }
    else if i == 14 { (5u8, 6u8, ErrorCode::DischargeTempLowLevel1) }
    else if i == 15 { (5u8, 7u8, ErrorCode::DischargeTempLowLevel2) }
    else if i == 16 { (6u8, 1u8, ErrorCode::ChargeOvercurrentLevel2) }
    else if i == 17 { (6u8, 0u8, ErrorCode::ChargeOvercurrentLevel1) }
    else if i == 18 { (6u8, 2u8, ErrorCode::DischargeOvercurrentLevel1) }
    else if i == 19 { (6u8, 3u8, ErrorCode::DischargeOvercurrentLevel2) }
    else if i == 20 { (6u8, 4u8, ErrorCode::SocHighLevel1) }
    else if i == 21 { (6u8, 5u8, ErrorCode::SocHighLevel2) }
    else if i == 22 { (6u8, 6u8, ErrorCode::SocLowLevel1) }
    else if i == 23 { (6u8, 7u8, ErrorCode::SocLowLevel2) }
    else if i == 24 { (7u8, 0u8, ErrorCode::DiffVoltLevel1) }
    else if i == 25 { (7u8, 1u8, ErrorCode::DiffVoltLevel2) }
    else if i == 26 { (7u8, 2u8, ErrorCode::DiffTempLevel1) }
    else if i == 27 { (7u8, 3u8, ErrorCode::DiffTempLevel2) }
    else if i == 28 { (8u8, 0u8, ErrorCode::ChargeMosTempHighAlarm) }
    else if i == 29 { (8u8, 1u8, ErrorCode::DischargeMosTempHighAlarm) }
    else if i == 30 { (8u8, 2u8, ErrorCode::ChargeMosTempSensorErr) }
    else if i == 31 { (8u8, 3u8, ErrorCode::DischargeMosTempSensorErr) }
    else if i == 32 { (8u8, 4u8, ErrorCode::ChargeMosAdhesionErr) }
    else if i == 33 { (8u8, 5u8, ErrorCode::DischargeMosAdhesionErr) }
    else if i == 34 { (8u8, 6u8, ErrorCode::ChargeMosOpenCircuitErr) }
    else if i == 35 { (8u8, 7u8, ErrorCode::DischargeMosOpenCircuitErr) }
    else if i == 36 { (9u8, 0u8, ErrorCode::AfeCollectChipErr) }
    else if i == 37 { (9u8, 1u8, ErrorCode::VoltageCollectDropped) }
    else if i == 38 { (9u8, 2u8, ErrorCode::CellTempSensorErr) }
    else if i == 39 { (9u8, 3u8, ErrorCode::EepromErr) }
    else if i == 40 { (9u8, 4u8, ErrorCode::RtcErr) }
    else if i == 41 { (9u8, 5u8, ErrorCode::PrechangeFailure) }
    else if i == 42 { (9u8, 6u8, ErrorCode::CommunicationFailure) }
    else if i == 43 { (9u8, 7u8, ErrorCode::InternalCommunicationFailure) }
    else if i == 44 { (10u8, 0u8, ErrorCode::CurrentModuleFault) }
    else if i == 45 { (10u8, 1u8, ErrorCode::SumVoltageDetectFault) }
    else if i == 46 { (10u8, 2u8, ErrorCode::ShortCircuitProtectFault) }
    else { (10u8, 3u8, ErrorCode::LowVoltForbiddenChargeFault) }
}

/// The conditions named by the first `n` table entries whose bits are set
/// in the frame, in table order.
pub open spec fn error_codes_upto(s: Seq<u8>, n: int) -> Seq<ErrorCode>
    decreases n,
{
    if n <= 0 {
        Seq::empty()
    } else {
        let prev = error_codes_upto(s, n - 1);
        let entry = flag_entry(n - 1);
        if bit_set(s[entry.0 as int], entry.1) {
            prev.push(entry.2)
        } else {
            prev
        }
    }
}

/// Every condition whose bit is set in the frame, in table order.
pub open spec fn error_codes_of(s: Seq<u8>) -> Seq<ErrorCode> {
    error_codes_upto(s, 48)
}

/// The `i`-th entry of the error-code table.
fn error_table(i: usize) -> (r: (u8, u8, ErrorCode))
    requires
        i < 48,
    ensures
        r == flag_entry(i as int),
        4 <= r.0 <= 10,
        r.1 < 8,
{
    match i {
        0 => (4, 0, ErrorCode::CellVoltHighLevel1),
        1 => (4, 1, ErrorCode::CellVoltHighLevel2),
        2 => (4, 2, ErrorCode::CellVoltLowLevel1),
        3 => (4, 3, ErrorCode::CellVoltLowLevel2),
        4 => (4, 4, ErrorCode::SumVoltHighLevel1),
        5 => (4, 5, ErrorCode::SumVoltHighLevel2),
        6 => (4, 6, ErrorCode::SumVoltLowLevel1),
        7 => (4, 7, ErrorCode::SumVoltLowLevel2),
        8 => (5, 0, ErrorCode::ChargeTempHighLevel1),
        9 => (5, 1, ErrorCode::ChargeTempHighLevel2),
        10 => (5, 2, ErrorCode::ChargeTempLowLevel1),
        11 => (5, 3, ErrorCode::ChargeTempLowLevel2),
        12 => (5, 4, ErrorCode::DischargeTempHighLevel1),
        13 => (5, 5, ErrorCode::DischargeTempHighLevel2),
        14 => (5, 6, ErrorCode::DischargeTempLowLevel1),
        15 => (5, 7, ErrorCode::DischargeTempLowLevel2),
        16 => (6, 1, ErrorCode::ChargeOvercurrentLevel2),
        17 => (6, 0, ErrorCode::ChargeOvercurrentLevel1),
        18 => (6, 2, ErrorCode::DischargeOvercurrentLevel1),
        19 => (6, 3, ErrorCode::DischargeOvercurrentLevel2),
        20 => (6, 4, ErrorCode::SocHighLevel1),
        21 => (6, 5, ErrorCode::SocHighLevel2),
        22 => (6, 6, ErrorCode::SocLowLevel1),
        23 => (6, 7, ErrorCode::SocLowLevel2),
        24 => (7, 0, ErrorCode::DiffVoltLevel1),
        25 => (7, 1, ErrorCode::DiffVoltLevel2),
        26 => (7, 2, ErrorCode::DiffTempLevel1),
        27 => (7, 3, ErrorCode::DiffTempLevel2),
        28 => (8, 0, ErrorCode::ChargeMosTempHighAlarm),
        29 => (8, 1, ErrorCode::DischargeMosTempHighAlarm),
        30 => (8, 2, ErrorCode::ChargeMosTempSensorErr),
        31 => (8, 3, ErrorCode::DischargeMosTempSensorErr),
        32 => (8, 4, ErrorCode::ChargeMosAdhesionErr),
        33 => (8, 5, ErrorCode::DischargeMosAdhesionErr),
        34 => (8, 6, ErrorCode::ChargeMosOpenCircuitErr),
        35 => (8, 7, ErrorCode::DischargeMosOpenCircuitErr),
        36 => (9, 0, ErrorCode::AfeCollectChipErr),
        37 => (9, 1, ErrorCode::VoltageCollectDropped),
        38 => (9, 2, ErrorCode::CellTempSensorErr),
        39 => (9, 3, ErrorCode::EepromErr),
        40 => (9, 4, ErrorCode::RtcErr),
        41 => (9, 5, ErrorCode::PrechangeFailure),
        42 => (9, 6, ErrorCode::CommunicationFailure),
        43 => (9, 7, ErrorCode::InternalCommunicationFailure),
        44 => (10, 0, ErrorCode::CurrentModuleFault),
        45 => (10, 1, ErrorCode::SumVoltageDetectFault),
        46 => (10, 2, ErrorCode::ShortCircuitProtectFault),
        _ => (10, 3, ErrorCode::LowVoltForbiddenChargeFault),
    }
}

impl ErrorCode {
    /// Builds the request frame that asks for the active error codes.
    pub fn request(address: Address) -> (r: Vec<u8>)
        ensures
            r@ == request_frame(0x98, zero_payload()),
            frame_valid(r@),
    {
        plain_request(address, 0x98)
    }

    /// Number of bytes the transport must read back for this command.
    pub fn reply_size() -> (r: usize)
        ensures
            r == 13,
    {
        FRAME_LENGTH
    }

    /// Decodes an error-code reply into the list of active conditions, in
    /// table order. An empty list means no alarm or fault is active.
    pub fn decode(rx_buffer: &[u8]) -> (r: Result<Vec<Self>, Error>)
        ensures
            match r {
                Ok(v) => frame_error(rx_buffer@) is None && v@ == error_codes_of(rx_buffer@),
                Err(e) => frame_error(rx_buffer@) == Some(e),
            },
    {
        if let Err(e) = validate_frame(rx_buffer) {
            return Err(e);
        }
        let mut result: Vec<ErrorCode> = Vec::new();
        let mut i: usize = 0;
        while i < 48
            invariant
                i <= 48,
                rx_buffer@.len() >= 13,
                result@ == error_codes_upto(rx_buffer@, i as int),
            decreases 48 - i,
        {
            let (byte_offset, bit_position, code) = error_table(i);
            if read_bit(rx_buffer[byte_offset as usize], bit_position) {
                result.push(code);
            }
            i = i + 1;
        }
        Ok(result)
    }
}

/// What decoding an acknowledge-only reply yields: the reply carries no
/// data, so decoding succeeds exactly when the leading frame is accepted.
pub open spec fn ack_decode(s: Seq<u8>) -> Result<(), Error> {
    match frame_error(s) {
        Some(e) => Err(e),
        None => Ok(()),
    }
}

/// Validates an acknowledge-only reply.
fn decode_ack(rx_buffer: &[u8]) -> (r: Result<(), Error>)
    ensures
        r == ack_decode(rx_buffer@),
{
    match validate_frame(rx_buffer) {
        Ok(()) => Ok(()),
        Err(e) => Err(e),
    }
}

/// The payload of a MOSFET set command: byte 4 of the frame carries the
/// switch state.
pub open spec fn mosfet_payload(enable: bool) -> Seq<u8> {
    seq![(if enable { 1u8 } else { 0u8 }), 0u8, 0u8, 0u8, 0u8, 0u8, 0u8, 0u8]
}

/// Builds the payload array of a MOSFET set command.
fn mosfet_payload_bytes(enable: bool) -> (r: [u8; 8])
    ensures
        r@ == mosfet_payload(enable),
{
    let first: u8 = if enable {
        1
    } else {
        0
    };
    let payload: [u8; 8] = [first, 0, 0, 0, 0, 0, 0, 0];
    assert(payload@ =~= mosfet_payload(enable));
    payload
}

/// Command that switches the discharging MOSFET on or off.
pub struct SetDischargeMosfet;

impl SetDischargeMosfet {
    /// Builds the request frame that sets the discharging MOSFET state.
    pub fn request(address: Address, enable: bool) -> (r: Vec<u8>)
        ensures
            r@ == request_frame(0xd9, mosfet_payload(enable)),
            frame_valid(r@),
    {
        let payload = mosfet_payload_bytes(enable);
        host_request(address, 0xd9, &payload)
    }

    /// Number of bytes the transport must read back for this command.
    pub fn reply_size() -> (r: usize)
        ensures
            r == 13,
    {
        FRAME_LENGTH
    }

    /// Validates the acknowledge reply; it carries no data.
    pub fn decode(rx_buffer: &[u8]) -> (r: Result<(), Error>)
        ensures
            r == ack_decode(rx_buffer@),
    {
        decode_ack(rx_buffer)
    }
}

/// Command that switches the charging MOSFET on or off.
pub struct SetChargeMosfet;

impl SetChargeMosfet {
    /// Builds the request frame that sets the charging MOSFET state.
    pub fn request(address: Address, enable: bool) -> (r: Vec<u8>)
        ensures
            r@ == request_frame(0xda, mosfet_payload(enable)),
            frame_valid(r@),
    {
        let payload = mosfet_payload_bytes(enable);
        host_request(address, 0xda, &payload)
    }

    /// Number of bytes the transport must read back for this command.
    pub fn reply_size() -> (r: usize)
        ensures
            r == 13,
    {
        FRAME_LENGTH
    }

    /// Validates the acknowledge reply; it carries no data.
    pub fn decode(rx_buffer: &[u8]) -> (r: Result<(), Error>)
        ensures
            r == ack_decode(rx_buffer@),
    {
        decode_ack(rx_buffer)
    }
}

/// A requested state of charge, clamped to the device's accepted range of
/// 0 to 1000 tenths of a percent.
pub open spec fn clamp_soc_tenths(v: int) -> int {
    if v < 0 {
        0
    } else if v > 1000 {
        1000
    } else {
        v
    }
}

/// The payload of a set-SOC command: bytes 10 and 11 of the frame carry
/// the clamped value big-endian.
pub open spec fn set_soc_payload(v: int) -> Seq<u8> {
    seq![
        0u8,
        0u8,
        0u8,
        0u8,
        0u8,
        0u8,
        (clamp_soc_tenths(v) / 256) as u8,
        (clamp_soc_tenths(v) % 256) as u8,
    ]
}

/// Command that tells the BMS its current state of charge.
pub struct SetSoc;

impl SetSoc {
    /// Builds the request frame that sets the state of charge.
    /// `soc_tenths_percent` is the desired state of charge in tenths of a
    /// percent; values outside 0 to 1000 are clamped to that range.
    pub fn request(address: Address, soc_tenths_percent: i32) -> (r: Vec<u8>)
        ensures
            r@ == request_frame(0x21, set_soc_payload(soc_tenths_percent as int)),
            frame_valid(r@),
    {
        let clamped: u16 = if soc_tenths_percent < 0 {
            0
        } else if soc_tenths_percent > 1000 {
            1000
        } else {
            soc_tenths_percent as u16
        };
        let payload: [u8; 8] = [0, 0, 0, 0, 0, 0, (clamped / 256) as u8, (clamped % 256) as u8];
        assert(payload@ =~= set_soc_payload(soc_tenths_percent as int));
        host_request(address, 0x21, &payload)
    }

    /// Number of bytes the transport must read back for this command.
    pub fn reply_size() -> (r: usize)
        ensures
            r == 13,
    {
        FRAME_LENGTH
    }

    /// Validates the acknowledge reply; it carries no data.
    pub fn decode(rx_buffer: &[u8]) -> (r: Result<(), Error>)
        ensures
            r == ack_decode(rx_buffer@),
    {
        decode_ack(rx_buffer)
    }
}

/// Command that resets the BMS to factory settings.
pub struct BmsReset;

impl BmsReset {
    /// Builds the request frame that resets the BMS.
    pub fn request(address: Address) -> (r: Vec<u8>)
        ensures
            r@ == request_frame(0x00, zero_payload()),
            frame_valid(r@),
    {
        plain_request(address, 0x00)
    }

    /// Number of bytes the transport must read back for this command.
    pub fn reply_size() -> (r: usize)
        ensures
            r == 13,
    {
        FRAME_LENGTH
    }

    /// Validates the acknowledge reply; it carries no data.
    pub fn decode(rx_buffer: &[u8]) -> (r: Result<(), Error>)
        ensures
            r == ack_decode(rx_buffer@),
    {
        decode_ack(rx_buffer)
    }
}

} // verus!
