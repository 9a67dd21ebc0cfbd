use vstd::prelude::*;

verus! {

/// Bus address of the sensor, chosen by strapping its two address pins.
#[derive(Clone, Copy, Debug, PartialEq, Eq, Structural)]
pub enum I2cAddr {
    /// ADDR1 low, ADDR0 low
    Addr00,
    /// ADDR1 low, ADDR0 high
    Addr01,
    /// ADDR1 high, ADDR0 low
    Addr10,
    /// ADDR1 high, ADDR0 high
    Addr11,
}

/// The 7-bit bus address that each strapping selects.
pub open spec fn addr_value(a: I2cAddr) -> u8 {
    match a {
        I2cAddr::Addr00 => 0x44,
        I2cAddr::Addr01 => 0x45,
        I2cAddr::Addr10 => 0x46,
        I2cAddr::Addr11 => 0x47,
    }
}

impl I2cAddr {
    /// The 7-bit bus address.
    pub fn as_u8(&self) -> (r: u8)
        ensures
            r == addr_value(*self),
    {
        match self {
            I2cAddr::Addr00 => 0x44,
            I2cAddr::Addr01 => 0x45,
            I2cAddr::Addr10 => 0x46,
            I2cAddr::Addr11 => 0x47,
        }
    }
}

/// How often the sensor samples: once on request, or on its own timer.
#[derive(Clone, Copy, Debug, PartialEq, Eq, Structural)]
pub enum SampleRate {
    /// a single measurement on request
    OneShot,
    /// auto mode, one sample every two seconds
    Auto500mHz,
    /// auto mode, one sample per second
    Auto1Hz,
    /// auto mode, two samples per second
    Auto2Hz,
    /// auto mode, four samples per second
    Auto4Hz,
    /// auto mode, ten samples per second
    Auto10Hz,
}

/// Trade-off between measurement noise and power draw.
#[derive(Clone, Copy, Debug, PartialEq, Eq, Structural)]
pub enum LowPowerMode {
    /// lowest noise, highest power
    Lpm0,
    /// second lowest noise
    Lpm1,
    /// second lowest power
    Lpm2,
    /// lowest power, highest noise
    Lpm3,
}

impl LowPowerMode {
    /// The mode with the least measurement noise.
    pub fn lowest_noise() -> (r: LowPowerMode)
        ensures
            r == LowPowerMode::Lpm0,
    {
        LowPowerMode::Lpm0
    }

    /// The mode with the least power draw.
    pub fn lowest_power() -> (r: LowPowerMode)
        ensures
            r == LowPowerMode::Lpm3,
    {
        LowPowerMode::Lpm3
    }
}

/// Which auto-mode result to read back.
#[derive(Clone, Copy, Debug, PartialEq, Eq, Structural)]
pub enum AutoReadTarget {
    /// most recent temperature and relative humidity pair
    LastTempAndRelHumid,
    /// lowest temperature since auto mode started
    MinTemp,
    /// highest temperature since auto mode started
    MaxTemp,
    /// lowest relative humidity since auto mode started
    MinRelHumid,
    /// highest relative humidity since auto mode started
    MaxRelHumid,
}

/// Power level of the condensation heater.
#[derive(Clone, Copy, Debug, PartialEq, Eq, Structural)]
pub enum HeaterLevel {
    /// heater disabled
    Off,
    /// a quarter of full power
    Quarter,
    /// half of full power
    Half,
    /// full power
    Full,
}

/// The configuration word sent for a heater level; `None` for off.
pub open spec fn heater_setting(level: HeaterLevel) -> Option<u16> {
    match level {
        HeaterLevel::Off => None,
        HeaterLevel::Quarter => Some(0x009F),
        HeaterLevel::Half => Some(0x03FF),
        HeaterLevel::Full => Some(0x3FFF),
    }
}

impl HeaterLevel {
    /// The configuration word sent for this level; `None` when the heater is off.
    pub fn setting(&self) -> (r: Option<u16>)
        ensures
            r == heater_setting(*self),
    {
        match self {
            HeaterLevel::Off => None,
            HeaterLevel::Quarter => Some(0x009F),
            HeaterLevel::Half => Some(0x03FF),
            HeaterLevel::Full => Some(0x3FFF),
        }
    }
}

/// The fixed commands of the sensor, apart from start-sampling, whose opcode
/// depends on its rate and power mode (see `start_sampling_command`).
#[derive(Clone, Copy, Debug, PartialEq, Eq, Structural)]
pub enum Command {
    /// leave auto mode and go back to sleep
    AutoExit,
    /// read the last temperature and humidity of auto mode
    AutoReadTempAndRelHumid,
    /// read the minimum temperature of auto mode
    AutoReadMinTemp,
    /// read the maximum temperature of auto mode
    AutoReadMaxTemp,
    /// read the minimum relative humidity of auto mode
    AutoReadMinRelHumid,
    /// read the maximum relative humidity of auto mode
    AutoReadMaxRelHumid,
    /// switch the heater on
    HeaterEnable,
    /// switch the heater off
    HeaterDisable,
    /// set the heater power; followed by a configuration word
    HeaterConfig,
    /// read the status register
    StatusRead,
    /// clear the flags of the status register
    StatusClear,
    /// software reset
    SoftReset,
    /// serial number bits 47..32
    SerialID54,
    /// serial number bits 31..16
    SerialID32,
    /// serial number bits 15..0
    SerialID10,
    /// manufacturer ID
    ManufacturerID,
}

/// The 16-bit opcode of each fixed command.
pub open spec fn opcode(c: Command) -> u16 {
    match c {
        Command::AutoExit => 0x3093,
        Command::AutoReadTempAndRelHumid => 0xE000,
        Command::AutoReadMinTemp => 0xE002,
        Command::AutoReadMaxTemp => 0xE003,
        Command::AutoReadMinRelHumid => 0xE004,
        Command::AutoReadMaxRelHumid => 0xE005,
        Command::HeaterEnable => 0x306D,
        Command::HeaterDisable => 0x3066,
        Command::HeaterConfig => 0x306E,
        Command::StatusRead => 0xF32D,
        Command::StatusClear => 0x3041,
        Command::SoftReset => 0x30A2,
        Command::SerialID54 => 0x3683,
        Command::SerialID32 => 0x3684,
        Command::SerialID10 => 0x3685,
        Command::ManufacturerID => 0x3781,
    }
}

impl Command {
    /// The command's 16-bit opcode.
    pub fn as_u16(&self) -> (r: u16)
        ensures
            r == opcode(*self),
    {
        match self {
            Command::AutoExit => 0x3093,
            Command::AutoReadTempAndRelHumid => 0xE000,
            Command::AutoReadMinTemp => 0xE002,
            Command::AutoReadMaxTemp => 0xE003,
            Command::AutoReadMinRelHumid => 0xE004,
            Command::AutoReadMaxRelHumid => 0xE005,
            Command::HeaterEnable => 0x306D,
            Command::HeaterDisable => 0x3066,
            Command::HeaterConfig => 0x306E,
            Command::StatusRead => 0xF32D,
            Command::StatusClear => 0x3041,
            Command::SoftReset => 0x30A2,
            Command::SerialID54 => 0x3683,
            Command::SerialID32 => 0x3684,
            Command::SerialID10 => 0x3685,
            Command::ManufacturerID => 0x3781,
        }
    }

    /// The opcode as it goes on the wire, most significant byte first.
    pub fn to_be_bytes(&self) -> (r: [u8; 2])
        ensures
            r@ == be_bytes(opcode(*self)),
    {
        u16_to_be_bytes(self.as_u16())
    }
}

/// Opcode that starts sampling at `rate` in power mode `lpm`.
pub open spec fn sampling_opcode(rate: SampleRate, lpm: LowPowerMode) -> u16 {
    match (rate, lpm) {
        (SampleRate::OneShot, LowPowerMode::Lpm0) => 0x2400,
        (SampleRate::OneShot, LowPowerMode::Lpm1) => 0x240B,
        (SampleRate::OneShot, LowPowerMode::Lpm2) => 0x2416,
        (SampleRate::OneShot, LowPowerMode::Lpm3) => 0x24FF,
        (SampleRate::Auto500mHz, LowPowerMode::Lpm0) => 0x2032,
        (SampleRate::Auto500mHz, LowPowerMode::Lpm1) => 0x2024,
        (SampleRate::Auto500mHz, LowPowerMode::Lpm2) => 0x202F,
        (SampleRate::Auto500mHz, LowPowerMode::Lpm3) => 0x20FF,
        (SampleRate::Auto1Hz, LowPowerMode::Lpm0) => 0x2130,
        (SampleRate::Auto1Hz, LowPowerMode::Lpm1) => 0x2126,
        (SampleRate::Auto1Hz, LowPowerMode::Lpm2) => 0x212D,
        (SampleRate::Auto1Hz, LowPowerMode::Lpm3) => 0x21FF,
        (SampleRate::Auto2Hz, LowPowerMode::Lpm0) => 0x2236,
        (SampleRate::Auto2Hz, LowPowerMode::Lpm1) => 0x2220,
        (SampleRate::Auto2Hz, LowPowerMode::Lpm2) => 0x222B,
        (SampleRate::Auto2Hz, LowPowerMode::Lpm3) => 0x22FF,
        (SampleRate::Auto4Hz, LowPowerMode::Lpm0) => 0x2334,
        (SampleRate::Auto4Hz, LowPowerMode::Lpm1) => 0x2322,
        (SampleRate::Auto4Hz, LowPowerMode::Lpm2) => 0x2329,
        (SampleRate::Auto4Hz, LowPowerMode::Lpm3) => 0x23FF,
        (SampleRate::Auto10Hz, LowPowerMode::Lpm0) => 0x2737,
        (SampleRate::Auto10Hz, LowPowerMode::Lpm1) => 0x2721,
        (SampleRate::Auto10Hz, LowPowerMode::Lpm2) => 0x272A,
        (SampleRate::Auto10Hz, LowPowerMode::Lpm3) => 0x27FF,
    }
}

/// Opcode that starts sampling at `rate` in power mode `lpm`.
pub fn start_sampling_command(rate: SampleRate, lpm: LowPowerMode) -> (r: u16)
    ensures
        r == sampling_opcode(rate, lpm),
{
    let row: u16 = match rate {
        SampleRate::OneShot => 0x2400,
        SampleRate::Auto500mHz => 0x2000,
        SampleRate::Auto1Hz => 0x2100,
        SampleRate::Auto2Hz => 0x2200,
        SampleRate::Auto4Hz => 0x2300,
        SampleRate::Auto10Hz => 0x2700,
    };
    let col: u16 = match (rate, lpm) {
        (SampleRate::OneShot, LowPowerMode::Lpm0) => 0x00,
        (SampleRate::OneShot, LowPowerMode::Lpm1) => 0x0B,
        (SampleRate::OneShot, LowPowerMode::Lpm2) => 0x16,
        (SampleRate::Auto500mHz, LowPowerMode::Lpm0) => 0x32,
        (SampleRate::Auto500mHz, LowPowerMode::Lpm1) => 0x24,
        (SampleRate::Auto500mHz, LowPowerMode::Lpm2) => 0x2F,
        (SampleRate::Auto1Hz, LowPowerMode::Lpm0) => 0x30,
        (SampleRate::Auto1Hz, LowPowerMode::Lpm1) => 0x26,
        (SampleRate::Auto1Hz, LowPowerMode::Lpm2) => 0x2D,
        (SampleRate::Auto2Hz, LowPowerMode::Lpm0) => 0x36,
        (SampleRate::Auto2Hz, LowPowerMode::Lpm1) => 0x20,
        (SampleRate::Auto2Hz, LowPowerMode::Lpm2) => 0x2B,
        (SampleRate::Auto4Hz, LowPowerMode::Lpm0) => 0x34,
        (SampleRate::Auto4Hz, LowPowerMode::Lpm1) => 0x22,
        (SampleRate::Auto4Hz, LowPowerMode::Lpm2) => 0x29,
        (SampleRate::Auto10Hz, LowPowerMode::Lpm0) => 0x37,
        (SampleRate::Auto10Hz, LowPowerMode::Lpm1) => 0x21,
        (SampleRate::Auto10Hz, LowPowerMode::Lpm2) => 0x2A,
        (_, LowPowerMode::Lpm3) => 0xFF,
    };
    row + col
}

/// A 16-bit value as two bytes, most significant first.
pub open spec fn be_bytes(v: u16) -> Seq<u8> {
    seq![(v / 256) as u8, (v % 256) as u8]
}

/// The 16-bit value of two bytes, most significant first.
pub open spec fn word_value(hi: u8, lo: u8) -> u16 {
    (hi as int * 256 + lo as int) as u16
}

/// A 16-bit value as two bytes, most significant first.
pub fn u16_to_be_bytes(v: u16) -> (r: [u8; 2])
    ensures
        r@ == be_bytes(v),
        word_value(r[0], r[1]) == v,
{
    let r = [(v / 256) as u8, (v % 256) as u8];
    assert(r@ =~= be_bytes(v));
    r
}

/// The 16-bit value of two bytes, most significant first.
pub fn u16_from_be_bytes(hi: u8, lo: u8) -> (r: u16)
    ensures
        r == word_value(hi, lo),
        be_bytes(r) == seq![hi, lo],
{
    let r = (hi as u16) * 256 + (lo as u16);
    assert(be_bytes(r) =~= seq![hi, lo]);
    r
}

/// Status register field: at least one alert is active.
pub const STATUS_BIT_AT_LEAST_ONE_ALERT: u16 = 15;
/// Status register field: the heater is on.
pub const STATUS_BIT_HEATER_ENABLED: u16 = 13;
/// Status register field: relative humidity tracking alert.
pub const STATUS_BIT_RH_TRACKING_ALERT: u16 = 11;
/// Status register field: temperature tracking alert.
pub const STATUS_BIT_T_TRACKING_ALERT: u16 = 10;
/// Status register field: relative humidity high tracking alert.
pub const STATUS_BIT_RH_HIGH_TRACKING_ALERT: u16 = 9;
/// Status register field: relative humidity low tracking alert.
pub const STATUS_BIT_RH_LOW_TRACKING_ALERT: u16 = 8;
/// Status register field: temperature high tracking alert.
pub const STATUS_BIT_T_HIGH_TRACKING_ALERT: u16 = 7;
/// Status register field: temperature low tracking alert.
pub const STATUS_BIT_T_LOW_TRACKING_ALERT: u16 = 6;
/// Status register field: a reset happened since the flags were last cleared.
pub const STATUS_BIT_RESET_SINCE_CLEAR: u16 = 4;
/// Status register field: the device saw a bad checksum on a written word.
pub const STATUS_BIT_CHECKSUM_FAILURE: u16 = 0;

/// The manufacturer ID of Texas Instruments.
pub const MANUFACTURER_ID_TEXAS_INSTRUMENTS: u16 = 0x3000;

} // verus!
