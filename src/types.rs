use vstd::prelude::*;

use crate::protocol::{
    be_bytes, I2cAddr, MANUFACTURER_ID_TEXAS_INSTRUMENTS, STATUS_BIT_AT_LEAST_ONE_ALERT,
    STATUS_BIT_CHECKSUM_FAILURE, STATUS_BIT_HEATER_ENABLED, STATUS_BIT_RESET_SINCE_CLEAR,
    STATUS_BIT_RH_HIGH_TRACKING_ALERT, STATUS_BIT_RH_LOW_TRACKING_ALERT,
    STATUS_BIT_RH_TRACKING_ALERT, STATUS_BIT_T_HIGH_TRACKING_ALERT,
    STATUS_BIT_T_LOW_TRACKING_ALERT, STATUS_BIT_T_TRACKING_ALERT, u16_to_be_bytes,
};

verus! {

/// HDC302x(-Q1) device handle: the bus transport, the delay provider and the
/// sensor's bus address, which is fixed when the handle is made.
#[derive(Debug)]
pub struct Hdc302x<I2C, Delay> {
    /// the two-wire bus transport
    pub i2c: I2C,
    /// the millisecond delay provider
    pub delay: Delay,
    i2c_addr: I2cAddr,
}

impl<I2C, Delay> Hdc302x<I2C, Delay> {
    /// The bus transport held by the handle.
    pub closed spec fn spec_i2c(&self) -> I2C {
        self.i2c
    }

    /// The delay provider held by the handle.
    pub closed spec fn spec_delay(&self) -> Delay {
        self.delay
    }

    /// The address the handle was made with.
    pub closed spec fn spec_addr(&self) -> I2cAddr {
        self.i2c_addr
    }

    /// Create a driver handle for the sensor at `i2c_addr`.
    pub fn new(i2c: I2C, delay: Delay, i2c_addr: I2cAddr) -> (r: Self)
        ensures
            r.spec_i2c() == i2c,
            r.spec_delay() == delay,
            r.spec_addr() == i2c_addr,
    {
        Hdc302x { i2c, delay, i2c_addr }
    }

    /// The sensor's bus address.
    pub fn addr(&self) -> (r: I2cAddr)
        ensures
            r == self.spec_addr(),
    {
        self.i2c_addr
    }
}

/// All possible errors of the driver.
#[derive(Debug, Clone, Copy, PartialEq, Eq)]
pub enum Error<E> {
    /// the bus transport failed
    I2c(E),
    /// invalid input data provided by the caller
    InvalidInputData,
    /// a word read from the device did not match its checksum byte
    CrcMismatch,
}

/// Temperature and relative humidity codes, as the device sends them.
#[derive(Debug, Clone, Copy, PartialEq, Eq, Structural)]
pub struct RawTempAndRelHumid {
    /// unprocessed temperature
    pub temperature: u16,
    /// unprocessed relative humidity
    pub humidity: u16,
}

/// Raw (still 16-bit) result of a sample or extremum read, tagged with the read
/// that produced it.
#[derive(Debug, Clone, Copy, PartialEq, Eq, Structural)]
pub enum RawDatum {
    /// temperature and relative humidity from one-shot or auto mode
    TempAndRelHumid(RawTempAndRelHumid),
    /// minimum temperature since auto mode was enabled
    MinTemp(u16),
    /// maximum temperature since auto mode was enabled
    MaxTemp(u16),
    /// minimum relative humidity since auto mode was enabled
    MinRelHumid(u16),
    /// maximum relative humidity since auto mode was enabled
    MaxRelHumid(u16),
}

/// Whether bit `bit` of `raw` is set.
pub open spec fn bit_set(raw: u16, bit: u16) -> bool {
    (raw >> bit) & 1u16 == 1u16
}

/// Whether bit `bit` of `raw` is set.
fn test_bit(raw: u16, bit: u16) -> (r: bool)
    requires
        bit < 16,
    ensures
        r == bit_set(raw, bit),
{
    (raw >> bit) & 1u16 == 1u16
}

/// Status register of the device, decoded into its named flags; the raw word
/// is kept alongside.
#[derive(Debug, Clone, Copy, PartialEq, Eq, Structural)]
pub struct StatusBits {
    /// the raw status word
    pub raw: u16,
    /// at least one alert is active
    pub at_least_one_alert: bool,
    /// heater is enabled
    pub heater_enabled: bool,
    /// relative humidity tracking alert
    pub rh_tracking_alert: bool,
    /// temperature tracking alert
    pub t_tracking_alert: bool,
    /// relative humidity high tracking alert
    pub rh_high_tracking_alert: bool,
    /// relative humidity low tracking alert
    pub rh_low_tracking_alert: bool,
    /// temperature high tracking alert
    pub t_high_tracking_alert: bool,
    /// temperature low tracking alert
    pub t_low_tracking_alert: bool,
    /// reset (power-on or software) detected since last clear of status register
    pub reset_since_clear: bool,
    /// the device detected a bad checksum on a word written to it
    pub checksum_failure: bool,
}

impl StatusBits {
    /// Each flag is the bit of the raw word at its fixed position.
    pub open spec fn decodes(&self, raw: u16) -> bool {
        &&& self.raw == raw
        &&& self.at_least_one_alert == bit_set(raw, STATUS_BIT_AT_LEAST_ONE_ALERT)
        &&& self.heater_enabled == bit_set(raw, STATUS_BIT_HEATER_ENABLED)
        &&& self.rh_tracking_alert == bit_set(raw, STATUS_BIT_RH_TRACKING_ALERT)
        &&& self.t_tracking_alert == bit_set(raw, STATUS_BIT_T_TRACKING_ALERT)
        &&& self.rh_high_tracking_alert == bit_set(raw, STATUS_BIT_RH_HIGH_TRACKING_ALERT)
        &&& self.rh_low_tracking_alert == bit_set(raw, STATUS_BIT_RH_LOW_TRACKING_ALERT)
        &&& self.t_high_tracking_alert == bit_set(raw, STATUS_BIT_T_HIGH_TRACKING_ALERT)
        &&& self.t_low_tracking_alert == bit_set(raw, STATUS_BIT_T_LOW_TRACKING_ALERT)
        &&& self.reset_since_clear == bit_set(raw, STATUS_BIT_RESET_SINCE_CLEAR)
        &&& self.checksum_failure == bit_set(raw, STATUS_BIT_CHECKSUM_FAILURE)
    }

    /// Decode a raw status word.
    pub fn from_raw(raw: u16) -> (r: StatusBits)
        ensures
            r.decodes(raw),
            r == status_of(raw),
    {
        StatusBits {
            raw,
            at_least_one_alert: test_bit(raw, STATUS_BIT_AT_LEAST_ONE_ALERT),
            heater_enabled: test_bit(raw, STATUS_BIT_HEATER_ENABLED),
            rh_tracking_alert: test_bit(raw, STATUS_BIT_RH_TRACKING_ALERT),
            t_tracking_alert: test_bit(raw, STATUS_BIT_T_TRACKING_ALERT),
            rh_high_tracking_alert: test_bit(raw, STATUS_BIT_RH_HIGH_TRACKING_ALERT),
            rh_low_tracking_alert: test_bit(raw, STATUS_BIT_RH_LOW_TRACKING_ALERT),
            t_high_tracking_alert: test_bit(raw, STATUS_BIT_T_HIGH_TRACKING_ALERT),
            t_low_tracking_alert: test_bit(raw, STATUS_BIT_T_LOW_TRACKING_ALERT),
            reset_since_clear: test_bit(raw, STATUS_BIT_RESET_SINCE_CLEAR),
            checksum_failure: test_bit(raw, STATUS_BIT_CHECKSUM_FAILURE),
        }
    }

    /// Get the raw status bits.
    pub fn raw(&self) -> (r: u16)
        ensures
            r == self.raw,
    {
        self.raw
    }
}

/// The status flags a raw status word holds.
pub open spec fn status_of(raw: u16) -> StatusBits {
    StatusBits {
        raw,
        at_least_one_alert: bit_set(raw, STATUS_BIT_AT_LEAST_ONE_ALERT),
        heater_enabled: bit_set(raw, STATUS_BIT_HEATER_ENABLED),
        rh_tracking_alert: bit_set(raw, STATUS_BIT_RH_TRACKING_ALERT),
        t_tracking_alert: bit_set(raw, STATUS_BIT_T_TRACKING_ALERT),
        rh_high_tracking_alert: bit_set(raw, STATUS_BIT_RH_HIGH_TRACKING_ALERT),
        rh_low_tracking_alert: bit_set(raw, STATUS_BIT_RH_LOW_TRACKING_ALERT),
        t_high_tracking_alert: bit_set(raw, STATUS_BIT_T_HIGH_TRACKING_ALERT),
        t_low_tracking_alert: bit_set(raw, STATUS_BIT_T_LOW_TRACKING_ALERT),
        reset_since_clear: bit_set(raw, STATUS_BIT_RESET_SINCE_CLEAR),
        checksum_failure: bit_set(raw, STATUS_BIT_CHECKSUM_FAILURE),
    }
}

impl From<u16> for StatusBits {
    fn from(raw: u16) -> (r: StatusBits) {
        StatusBits::from_raw(raw)
    }
}

impl vstd::std_specs::convert::FromSpecImpl<u16> for StatusBits {
    open spec fn obeys_from_spec() -> bool {
        true
    }

    open spec fn from_spec(raw: u16) -> StatusBits {
        status_of(raw)
    }
}

/// Serial number of the device: 48 bits, most significant byte first.
#[derive(Debug, Clone, Copy)]
pub struct SerialNumber(pub [u8; 6]);

/// The six bytes of a serial number whose three 16-bit groups, from most to
/// least significant, are `hi`, `mid` and `lo`.
pub open spec fn serial_bytes(hi: u16, mid: u16, lo: u16) -> Seq<u8> {
    be_bytes(hi) + be_bytes(mid) + be_bytes(lo)
}

impl SerialNumber {
    /// Assemble a serial number from its three 16-bit groups, most significant first.
    pub fn from_words(hi: u16, mid: u16, lo: u16) -> (r: SerialNumber)
        ensures
            r.0@ == serial_bytes(hi, mid, lo),
    {
        let h = u16_to_be_bytes(hi);
        let m = u16_to_be_bytes(mid);
        let l = u16_to_be_bytes(lo);
        let bytes = [h[0], h[1], m[0], m[1], l[0], l[1]];
        assert(bytes@ =~= serial_bytes(hi, mid, lo));
        SerialNumber(bytes)
    }
}

/// Manufacturer ID of the device.
#[derive(Debug, Clone, Copy, PartialEq, Eq, Structural)]
pub enum ManufacturerId {
    /// Texas Instruments
    TexasInstruments,
    /// any other vendor, with its raw ID
    Other(u16),
}

/// The manufacturer that a raw ID names.
pub open spec fn manufacturer_of(raw: u16) -> ManufacturerId {
    if raw == MANUFACTURER_ID_TEXAS_INSTRUMENTS {
        ManufacturerId::TexasInstruments
    } else {
        ManufacturerId::Other(raw)
    }
}

/// The raw ID of a manufacturer.
pub open spec fn manufacturer_raw(id: ManufacturerId) -> u16 {
    match id {
        ManufacturerId::TexasInstruments => MANUFACTURER_ID_TEXAS_INSTRUMENTS,
        ManufacturerId::Other(raw) => raw,
    }
}

impl From<u16> for ManufacturerId {
    fn from(raw: u16) -> (r: ManufacturerId) {
        if raw == MANUFACTURER_ID_TEXAS_INSTRUMENTS {
            ManufacturerId::TexasInstruments
        } else {
            ManufacturerId::Other(raw)
        }
    }
}

impl vstd::std_specs::convert::FromSpecImpl<u16> for ManufacturerId {
    open spec fn obeys_from_spec() -> bool {
        true
    }

    open spec fn from_spec(raw: u16) -> ManufacturerId {
        manufacturer_of(raw)
    }
}

impl From<ManufacturerId> for u16 {
    fn from(id: ManufacturerId) -> (r: u16) {
        match id {
            ManufacturerId::TexasInstruments => MANUFACTURER_ID_TEXAS_INSTRUMENTS,
            ManufacturerId::Other(raw) => raw,
        }
    }
}

impl vstd::std_specs::convert::FromSpecImpl<ManufacturerId> for u16 {
    open spec fn obeys_from_spec() -> bool {
        true
    }

    open spec fn from_spec(id: ManufacturerId) -> u16 {
        manufacturer_raw(id)
    }
}

impl ManufacturerId {
    /// Recognise a raw manufacturer ID.
    pub fn from_raw(raw: u16) -> (r: ManufacturerId)
        ensures
            r == manufacturer_of(raw),
    {
        ManufacturerId::from(raw)
    }

    /// The raw 16-bit ID.
    pub fn as_u16(&self) -> (r: u16)
        ensures
            r == manufacturer_raw(*self),
    {
        u16::from(*self)
    }
}

/// Reading a raw ID and writing it back gives the same 16 bits, and the known
/// vendor's ID is recognised as that vendor.
pub proof fn manufacturer_id_round_trip(raw: u16)
    ensures
        manufacturer_raw(manufacturer_of(raw)) == raw,
        (manufacturer_of(raw) == ManufacturerId::TexasInstruments) <==> raw
            == MANUFACTURER_ID_TEXAS_INSTRUMENTS,
        raw != MANUFACTURER_ID_TEXAS_INSTRUMENTS ==> manufacturer_of(raw) == ManufacturerId::Other(
            raw,
        ),
{
}

} // verus!
