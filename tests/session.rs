use hdc302x::checksum;
use hdc302x::operations::{heater_plan, read_status_plan, serial_number_from_words, serial_number_plan};
use hdc302x::session::Session;
use hdc302x::{BusOp, Error, HeaterLevel, Next, Outcome};

fn word_reply(w: u16) -> Vec<u8> {
    let b = [(w >> 8) as u8, w as u8];
    vec![b[0], b[1], checksum(b)]
}

#[test]
fn session_reads_serial_number_in_order() {
    let (mut s, op) = Session::start(serial_number_plan());
    assert_eq!(op, BusOp::WriteRead(vec![0x36, 0x83], 3));
    let next = s.resume::<u8>(Outcome::Received(Ok(word_reply(0xAABB))));
    assert_eq!(next, Next::Perform(BusOp::WriteRead(vec![0x36, 0x84], 3)));
    let next = s.resume::<u8>(Outcome::Received(Ok(word_reply(0xCCDD))));
    assert_eq!(next, Next::Perform(BusOp::WriteRead(vec![0x36, 0x85], 3)));
    let next = s.resume::<u8>(Outcome::Received(Ok(word_reply(0xEEFF))));
    assert_eq!(next, Next::Finish(Ok(vec![0xAABB, 0xCCDD, 0xEEFF])));
    assert!(s.is_finished());
    let sn = serial_number_from_words(&vec![0xAABB, 0xCCDD, 0xEEFF]);
    assert_eq!(sn.0, [0xAA, 0xBB, 0xCC, 0xDD, 0xEE, 0xFF]);
}

#[test]
fn session_serial_number_aborts_on_bad_checksum() {
    let (mut s, _) = Session::start(serial_number_plan());
    let next = s.resume::<u8>(Outcome::Received(Ok(word_reply(0xAABB))));
    assert!(matches!(next, Next::Perform(_)));
    let mut bad = word_reply(0xCCDD);
    bad[2] = bad[2].wrapping_add(1);
    let next = s.resume::<u8>(Outcome::Received(Ok(bad)));
    assert_eq!(next, Next::Finish(Err(Error::CrcMismatch)));
    assert!(s.is_finished());
    assert!(!s.accepts::<u8>(&Outcome::Received(Ok(word_reply(0xEEFF)))));
}

#[test]
fn session_heater_quarter_order() {
    let (mut s, op) = Session::start(heater_plan(HeaterLevel::Quarter));
    assert_eq!(op, BusOp::Write(vec![0x30, 0x66]));
    let next = s.resume::<u8>(Outcome::Written(Ok(())));
    assert_eq!(next, Next::Perform(BusOp::Write(vec![0x30, 0x6E, 0x00, 0x9F])));
    let next = s.resume::<u8>(Outcome::Written(Ok(())));
    assert_eq!(next, Next::Perform(BusOp::Write(vec![0x30, 0x6D])));
    let next = s.resume::<u8>(Outcome::Written(Ok(())));
    assert_eq!(next, Next::Finish(Ok(vec![])));
}

#[test]
fn session_heater_off_disables_only() {
    let (mut s, op) = Session::start(heater_plan(HeaterLevel::Off));
    assert_eq!(op, BusOp::Write(vec![0x30, 0x66]));
    let next = s.resume::<u8>(Outcome::Written(Ok(())));
    assert_eq!(next, Next::Finish(Ok(vec![])));
}

#[test]
fn session_heater_config_failure_stops_before_enable() {
    let (mut s, _) = Session::start(heater_plan(HeaterLevel::Full));
    s.resume::<u8>(Outcome::Written(Ok(())));
    let next = s.resume::<u8>(Outcome::Written(Err(9)));
    assert_eq!(next, Next::Finish(Err(Error::I2c(9))));
    assert!(s.is_finished());
}

#[test]
fn session_status_clear_failure_is_reported() {
    let (mut s, op) = Session::start(read_status_plan(true));
    assert_eq!(op, BusOp::WriteRead(vec![0xF3, 0x2D], 3));
    let next = s.resume::<u8>(Outcome::Received(Ok(word_reply(0x2000))));
    assert_eq!(next, Next::Perform(BusOp::Write(vec![0x30, 0x41])));
    let next = s.resume::<u8>(Outcome::Written(Err(4)));
    assert_eq!(next, Next::Finish(Err(Error::I2c(4))));
}

#[test]
fn session_retries_reads_after_failed_write_read() {
    let (mut s, _) = Session::start(read_status_plan(false));
    assert_eq!(s.resume::<u8>(Outcome::Received(Err(1))), Next::Perform(BusOp::Read(3)));
    assert_eq!(s.resume::<u8>(Outcome::Received(Err(1))), Next::Perform(BusOp::DelayMs(1)));
    assert_eq!(s.resume::<u8>(Outcome::Slept), Next::Perform(BusOp::Read(3)));
    let next = s.resume::<u8>(Outcome::Received(Ok(word_reply(0x0010))));
    assert_eq!(next, Next::Finish(Ok(vec![0x0010])));
}
