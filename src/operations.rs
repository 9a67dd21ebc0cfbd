use vstd::prelude::*;

use crate::protocol::{
    heater_setting, opcode, sampling_opcode, start_sampling_command, AutoReadTarget, Command,
    HeaterLevel, LowPowerMode, SampleRate,
};
use crate::sequence::plan_wf;
use crate::transaction::Request;
use crate::types::{
    manufacturer_of, serial_bytes, ManufacturerId, RawDatum, RawTempAndRelHumid, SerialNumber,
    StatusBits,
};

verus! {

/// A request for `words` reply words to the plain command `op`.
pub open spec fn ask(op: u16, words: usize) -> Request {
    Request { opcode: op, param: None, words }
}

/// Plan of a one-shot sample: start sampling once, read temperature and humidity.
pub open spec fn one_shot_requests(lpm: LowPowerMode) -> Seq<Request> {
    seq![ask(sampling_opcode(SampleRate::OneShot, lpm), 2)]
}

/// Plan of entering auto mode.
pub open spec fn auto_start_requests(rate: SampleRate, lpm: LowPowerMode) -> Seq<Request> {
    seq![ask(sampling_opcode(rate, lpm), 0)]
}

/// The command that reads each auto-mode target.
pub open spec fn auto_read_command(target: AutoReadTarget) -> Command {
    match target {
        AutoReadTarget::LastTempAndRelHumid => Command::AutoReadTempAndRelHumid,
        AutoReadTarget::MinTemp => Command::AutoReadMinTemp,
        AutoReadTarget::MaxTemp => Command::AutoReadMaxTemp,
        AutoReadTarget::MinRelHumid => Command::AutoReadMinRelHumid,
        AutoReadTarget::MaxRelHumid => Command::AutoReadMaxRelHumid,
    }
}

/// How many words each auto-mode target answers with.
pub open spec fn auto_read_words(target: AutoReadTarget) -> usize {
    match target {
        AutoReadTarget::LastTempAndRelHumid => 2,
        _ => 1,
    }
}

/// Plan of an auto-mode read.
pub open spec fn auto_read_requests(target: AutoReadTarget) -> Seq<Request> {
    seq![ask(opcode(auto_read_command(target)), auto_read_words(target))]
}

/// Plan of heater control: always disable first; for a level other than off,
/// then configure the level and enable.
pub open spec fn heater_requests(level: HeaterLevel) -> Seq<Request> {
    match heater_setting(level) {
        None => seq![ask(opcode(Command::HeaterDisable), 0)],
        Some(s) => seq![
            ask(opcode(Command::HeaterDisable), 0),
            Request { opcode: opcode(Command::HeaterConfig), param: Some(s), words: 0 },
            ask(opcode(Command::HeaterEnable), 0),
        ],
    }
}

/// Plan of reading the status register, and clearing its flags afterwards if asked.
pub open spec fn read_status_requests(clear: bool) -> Seq<Request> {
    if clear {
        seq![ask(opcode(Command::StatusRead), 1), ask(opcode(Command::StatusClear), 0)]
    } else {
        seq![ask(opcode(Command::StatusRead), 1)]
    }
}

/// Plan of reading the serial number: bits 47..32, then 31..16, then 15..0.
pub open spec fn serial_number_requests() -> Seq<Request> {
    seq![
        ask(opcode(Command::SerialID54), 1),
        ask(opcode(Command::SerialID32), 1),
        ask(opcode(Command::SerialID10), 1),
    ]
}

/// A one-request plan.
fn single(op: u16, words: usize) -> (r: Vec<Request>)
    requires
        words <= 2,
    ensures
        r@ == seq![ask(op, words)],
        plan_wf(r@),
{
    let mut v: Vec<Request> = Vec::new();
    v.push(Request::command(op, words));
    assert(v@ =~= seq![ask(op, words)]);
    v
}

/// Requests of a one-shot sample.
pub fn one_shot_plan(lpm: LowPowerMode) -> (r: Vec<Request>)
    ensures
        r@ == one_shot_requests(lpm),
        plan_wf(r@),
{
    single(start_sampling_command(SampleRate::OneShot, lpm), 2)
}

/// Requests that enter auto mode at `rate`.
pub fn auto_start_plan(rate: SampleRate, lpm: LowPowerMode) -> (r: Vec<Request>)
    ensures
        r@ == auto_start_requests(rate, lpm),
        plan_wf(r@),
{
    single(start_sampling_command(rate, lpm), 0)
}

/// Requests that leave auto mode.
pub fn auto_stop_plan() -> (r: Vec<Request>)
    ensures
        r@ == seq![ask(opcode(Command::AutoExit), 0)],
        plan_wf(r@),
{
    single(Command::AutoExit.as_u16(), 0)
}

/// Requests of an auto-mode read of `target`.
pub fn auto_read_plan(target: AutoReadTarget) -> (r: Vec<Request>)
    ensures
        r@ == auto_read_requests(target),
        plan_wf(r@),
{
    let (cmd, words) = match target {
        AutoReadTarget::LastTempAndRelHumid => (Command::AutoReadTempAndRelHumid, 2),
        AutoReadTarget::MinTemp => (Command::AutoReadMinTemp, 1),
        AutoReadTarget::MaxTemp => (Command::AutoReadMaxTemp, 1),
        AutoReadTarget::MinRelHumid => (Command::AutoReadMinRelHumid, 1),
        AutoReadTarget::MaxRelHumid => (Command::AutoReadMaxRelHumid, 1),
    };
    single(cmd.as_u16(), words)
}

/// Requests that set the heater to `level`.
pub fn heater_plan(level: HeaterLevel) -> (r: Vec<Request>)
    ensures
        r@ == heater_requests(level),
        plan_wf(r@),
{
    let mut v: Vec<Request> = Vec::new();
    v.push(Request::command(Command::HeaterDisable.as_u16(), 0));
    match level.setting() {
        Some(s) => {
            v.push(Request::with_param(Command::HeaterConfig.as_u16(), s));
            v.push(Request::command(Command::HeaterEnable.as_u16(), 0));
        },
        None => {},
    }
    assert(v@ =~= heater_requests(level));
    v
}

/// Requests that read the status register, then clear it if `clear`.
pub fn read_status_plan(clear: bool) -> (r: Vec<Request>)
    ensures
        r@ == read_status_requests(clear),
        plan_wf(r@),
{
    let mut v: Vec<Request> = Vec::new();
    v.push(Request::command(Command::StatusRead.as_u16(), 1));
    if clear {
        v.push(Request::command(Command::StatusClear.as_u16(), 0));
    }
    assert(v@ =~= read_status_requests(clear));
    v
}

/// Requests that read the three groups of the serial number.
pub fn serial_number_plan() -> (r: Vec<Request>)
    ensures
        r@ == serial_number_requests(),
        plan_wf(r@),
{
    let mut v: Vec<Request> = Vec::new();
    v.push(Request::command(Command::SerialID54.as_u16(), 1));
    v.push(Request::command(Command::SerialID32.as_u16(), 1));
    v.push(Request::command(Command::SerialID10.as_u16(), 1));
    assert(v@ =~= serial_number_requests());
    v
}

/// Requests that read the manufacturer ID.
pub fn manufacturer_id_plan() -> (r: Vec<Request>)
    ensures
        r@ == seq![ask(opcode(Command::ManufacturerID), 1)],
        plan_wf(r@),
{
    single(Command::ManufacturerID.as_u16(), 1)
}

/// Requests of a software reset.
pub fn software_reset_plan() -> (r: Vec<Request>)
    ensures
        r@ == seq![ask(opcode(Command::SoftReset), 0)],
        plan_wf(r@),
{
    single(Command::SoftReset.as_u16(), 0)
}

/// The sample pair of a one-shot read: temperature first, then humidity.
pub fn one_shot_datum(words: &Vec<u16>) -> (r: RawDatum)
    requires
        words@.len() == 2,
    ensures
        r == RawDatum::TempAndRelHumid(
            RawTempAndRelHumid { temperature: words@[0], humidity: words@[1] },
        ),
{
    RawDatum::TempAndRelHumid(RawTempAndRelHumid { temperature: words[0], humidity: words[1] })
}

/// The datum an auto-mode read of `target` yields from its words.
pub open spec fn auto_datum(target: AutoReadTarget, words: Seq<u16>) -> RawDatum {
    match target {
        AutoReadTarget::LastTempAndRelHumid => RawDatum::TempAndRelHumid(
            RawTempAndRelHumid { temperature: words[0], humidity: words[1] },
        ),
        AutoReadTarget::MinTemp => RawDatum::MinTemp(words[0]),
        AutoReadTarget::MaxTemp => RawDatum::MaxTemp(words[0]),
        AutoReadTarget::MinRelHumid => RawDatum::MinRelHumid(words[0]),
        AutoReadTarget::MaxRelHumid => RawDatum::MaxRelHumid(words[0]),
    }
}

/// The datum an auto-mode read of `target` yields, tagged with the target.
pub fn auto_read_datum(target: AutoReadTarget, words: &Vec<u16>) -> (r: RawDatum)
    requires
        words@.len() == auto_read_words(target),
    ensures
        r == auto_datum(target, words@),
{
    match target {
        AutoReadTarget::LastTempAndRelHumid => RawDatum::TempAndRelHumid(
            RawTempAndRelHumid { temperature: words[0], humidity: words[1] },
        ),
        AutoReadTarget::MinTemp => RawDatum::MinTemp(words[0]),
        AutoReadTarget::MaxTemp => RawDatum::MaxTemp(words[0]),
        AutoReadTarget::MinRelHumid => RawDatum::MinRelHumid(words[0]),
        AutoReadTarget::MaxRelHumid => RawDatum::MaxRelHumid(words[0]),
    }
}

/// The status flags from the word of a status read.
pub fn status_from_words(words: &Vec<u16>) -> (r: StatusBits)
    requires
        words@.len() == 1,
    ensures
        r.decodes(words@[0]),
{
    StatusBits::from_raw(words[0])
}

/// The serial number from its three words, most significant group first.
pub fn serial_number_from_words(words: &Vec<u16>) -> (r: SerialNumber)
    requires
        words@.len() == 3,
    ensures
        r.0@ == serial_bytes(words@[0], words@[1], words@[2]),
{
    SerialNumber::from_words(words[0], words[1], words[2])
}

/// The manufacturer from the word of a manufacturer-ID read.
pub fn manufacturer_id_from_words(words: &Vec<u16>) -> (r: ManufacturerId)
    requires
        words@.len() == 1,
    ensures
        r == manufacturer_of(words@[0]),
{
    ManufacturerId::from_raw(words[0])
}

/// Heater control is fail-safe: the heater is disabled first, and enabled
/// only by the last request, so a sequence cut short at any point leaves it
/// disabled. The off level sends the disable alone.
pub proof fn heater_enable_comes_last(level: HeaterLevel)
    ensures
        heater_requests(level)[0] == ask(opcode(Command::HeaterDisable), 0),
        forall|j: int|
            0 <= j < heater_requests(level).len() - 1 ==> (#[trigger] heater_requests(level)[j]).opcode
                != opcode(Command::HeaterEnable),
        level == HeaterLevel::Off <==> heater_requests(level).len() == 1,
        level != HeaterLevel::Off ==> heater_requests(level).len() == 3 && heater_requests(
            level,
        )[1].opcode == opcode(Command::HeaterConfig) && heater_requests(level)[2] == ask(
            opcode(Command::HeaterEnable),
            0,
        ),
{
}

} // verus!
