use hdc302x::operations::{
    auto_read_datum, auto_read_plan, auto_start_plan, auto_stop_plan, heater_plan,
    manufacturer_id_from_words, manufacturer_id_plan, one_shot_datum, one_shot_plan,
    read_status_plan, serial_number_from_words, serial_number_plan, software_reset_plan,
    status_from_words,
};
use hdc302x::{
    start_sampling_command, AutoReadTarget, Command, Error, HeaterLevel, Hdc302x, I2cAddr,
    LowPowerMode, ManufacturerId, RawDatum, RawTempAndRelHumid, Request, SampleRate, Sequence,
    SerialNumber, StatusBits,
};

#[test]
fn status_heater_bit_only() {
    let s = StatusBits::from_raw(0x2000);
    assert!(s.heater_enabled);
    assert!(!s.at_least_one_alert);
    assert!(!s.rh_tracking_alert);
    assert!(!s.t_tracking_alert);
    assert!(!s.rh_high_tracking_alert);
    assert!(!s.rh_low_tracking_alert);
    assert!(!s.t_high_tracking_alert);
    assert!(!s.t_low_tracking_alert);
    assert!(!s.reset_since_clear);
    assert!(!s.checksum_failure);
    assert_eq!(s.raw(), 0x2000);
}

#[test]
fn status_all_flags() {
    let s = StatusBits::from_raw(0xFFFF);
    assert!(s.at_least_one_alert && s.heater_enabled && s.rh_tracking_alert);
    assert!(s.t_tracking_alert && s.rh_high_tracking_alert && s.rh_low_tracking_alert);
    assert!(s.t_high_tracking_alert && s.t_low_tracking_alert);
    assert!(s.reset_since_clear && s.checksum_failure);
    let z = StatusBits::from_raw(0x0000);
    assert_eq!(z.raw(), 0);
    assert!(!z.heater_enabled && !z.checksum_failure && !z.reset_since_clear);
    let r = StatusBits::from_raw(0x8011);
    assert!(r.at_least_one_alert && r.reset_since_clear && r.checksum_failure);
    assert!(!r.heater_enabled);
}

#[test]
fn serial_number_assembly() {
    let sn = serial_number_from_words(&vec![0xAABB, 0xCCDD, 0xEEFF]);
    assert_eq!(sn.0, [0xAA, 0xBB, 0xCC, 0xDD, 0xEE, 0xFF]);
    let sn2 = SerialNumber::from_words(0x0102, 0x0304, 0x0506);
    assert_eq!(sn2.0, [1, 2, 3, 4, 5, 6]);
}

#[test]
fn serial_number_reads_high_mid_low() {
    let plan = serial_number_plan();
    assert_eq!(
        plan,
        vec![
            Request::command(0x3683, 1),
            Request::command(0x3684, 1),
            Request::command(0x3685, 1)
        ]
    );
}

#[test]
fn heater_quarter_disable_configure_enable() {
    let plan = heater_plan(HeaterLevel::Quarter);
    assert_eq!(
        plan,
        vec![
            Request::command(0x3066, 0),
            Request::with_param(0x306E, 0x009F),
            Request::command(0x306D, 0)
        ]
    );
}

#[test]
fn heater_off_disables_only() {
    assert_eq!(heater_plan(HeaterLevel::Off), vec![Request::command(0x3066, 0)]);
    assert_eq!(heater_plan(HeaterLevel::Half)[1], Request::with_param(0x306E, 0x03FF));
    assert_eq!(heater_plan(HeaterLevel::Full)[1], Request::with_param(0x306E, 0x3FFF));
}

#[test]
fn heater_failure_after_disable_stops_sequence() {
    let mut seq = Sequence::new(heater_plan(HeaterLevel::Quarter));
    assert_eq!(seq.current(), Some(Request::command(0x3066, 0)));
    assert_eq!(seq.complete::<u8>(Ok(vec![])), None);
    assert_eq!(seq.current(), Some(Request::with_param(0x306E, 0x009F)));
    assert_eq!(seq.complete::<u8>(Err(Error::I2c(5))), Some(Err(Error::I2c(5))));
    assert_eq!(seq.current(), None);
}

#[test]
fn sequence_collects_words_in_order() {
    let mut seq = Sequence::new(serial_number_plan());
    assert_eq!(seq.complete::<u8>(Ok(vec![0xAABB])), None);
    assert_eq!(seq.complete::<u8>(Ok(vec![0xCCDD])), None);
    assert_eq!(seq.complete::<u8>(Ok(vec![0xEEFF])), Some(Ok(vec![0xAABB, 0xCCDD, 0xEEFF])));
    assert_eq!(seq.current(), None);
}

#[test]
fn sequence_checksum_failure_aborts() {
    let mut seq = Sequence::new(serial_number_plan());
    assert_eq!(seq.complete::<u8>(Ok(vec![0xAABB])), None);
    assert_eq!(seq.complete::<u8>(Err(Error::CrcMismatch)), Some(Err(Error::CrcMismatch)));
    assert_eq!(seq.current(), None);
}

#[test]
fn manufacturer_id_decoding() {
    assert_eq!(ManufacturerId::from(0x3000u16), ManufacturerId::TexasInstruments);
    assert_eq!(ManufacturerId::from(0x1234u16), ManufacturerId::Other(0x1234));
    assert_eq!(ManufacturerId::from(0x0000u16), ManufacturerId::Other(0x0000));
    assert_eq!(ManufacturerId::from(0xFFFFu16), ManufacturerId::Other(0xFFFF));
    assert_eq!(manufacturer_id_from_words(&vec![0x3000]), ManufacturerId::TexasInstruments);
    let raw: u16 = ManufacturerId::TexasInstruments.into();
    assert_eq!(raw, 0x3000);
    assert_eq!(ManufacturerId::Other(0xBEEF).as_u16(), 0xBEEF);
}

#[test]
fn manufacturer_id_plan_reads_one_word() {
    assert_eq!(manufacturer_id_plan(), vec![Request::command(0x3781, 1)]);
}

#[test]
fn sampling_opcodes() {
    assert_eq!(start_sampling_command(SampleRate::OneShot, LowPowerMode::lowest_noise()), 0x2400);
    assert_eq!(start_sampling_command(SampleRate::OneShot, LowPowerMode::lowest_power()), 0x24FF);
    assert_eq!(start_sampling_command(SampleRate::Auto500mHz, LowPowerMode::Lpm0), 0x2032);
    assert_eq!(start_sampling_command(SampleRate::Auto1Hz, LowPowerMode::Lpm1), 0x2126);
    assert_eq!(start_sampling_command(SampleRate::Auto2Hz, LowPowerMode::Lpm2), 0x222B);
    assert_eq!(start_sampling_command(SampleRate::Auto4Hz, LowPowerMode::Lpm0), 0x2334);
    assert_eq!(start_sampling_command(SampleRate::Auto10Hz, LowPowerMode::Lpm1), 0x2721);
    assert_eq!(start_sampling_command(SampleRate::Auto10Hz, LowPowerMode::Lpm3), 0x27FF);
}

#[test]
fn command_bytes_are_big_endian() {
    assert_eq!(Command::StatusRead.to_be_bytes(), [0xF3, 0x2D]);
    assert_eq!(Command::AutoExit.as_u16(), 0x3093);
    assert_eq!(Command::SoftReset.to_be_bytes(), [0x30, 0xA2]);
}

#[test]
fn one_shot_and_auto_plans() {
    assert_eq!(one_shot_plan(LowPowerMode::Lpm2), vec![Request::command(0x2416, 2)]);
    assert_eq!(
        auto_start_plan(SampleRate::Auto1Hz, LowPowerMode::Lpm0),
        vec![Request::command(0x2130, 0)]
    );
    assert_eq!(auto_stop_plan(), vec![Request::command(0x3093, 0)]);
    assert_eq!(software_reset_plan(), vec![Request::command(0x30A2, 0)]);
    assert_eq!(
        auto_read_plan(AutoReadTarget::LastTempAndRelHumid),
        vec![Request::command(0xE000, 2)]
    );
    assert_eq!(auto_read_plan(AutoReadTarget::MinTemp), vec![Request::command(0xE002, 1)]);
    assert_eq!(auto_read_plan(AutoReadTarget::MaxRelHumid), vec![Request::command(0xE005, 1)]);
}

#[test]
fn status_plan_with_and_without_clear() {
    assert_eq!(read_status_plan(false), vec![Request::command(0xF32D, 1)]);
    assert_eq!(
        read_status_plan(true),
        vec![Request::command(0xF32D, 1), Request::command(0x3041, 0)]
    );
    assert!(status_from_words(&vec![0x2000]).heater_enabled);
}

#[test]
fn datum_tagging() {
    assert_eq!(
        one_shot_datum(&vec![0x6666, 0x8000]),
        RawDatum::TempAndRelHumid(RawTempAndRelHumid { temperature: 0x6666, humidity: 0x8000 })
    );
    assert_eq!(auto_read_datum(AutoReadTarget::MinTemp, &vec![7]), RawDatum::MinTemp(7));
    assert_eq!(auto_read_datum(AutoReadTarget::MaxTemp, &vec![8]), RawDatum::MaxTemp(8));
    assert_eq!(auto_read_datum(AutoReadTarget::MinRelHumid, &vec![9]), RawDatum::MinRelHumid(9));
    assert_eq!(auto_read_datum(AutoReadTarget::MaxRelHumid, &vec![10]), RawDatum::MaxRelHumid(10));
}

#[test]
fn handle_keeps_address() {
    let dev = Hdc302x::new((), (), I2cAddr::Addr10);
    assert_eq!(dev.addr(), I2cAddr::Addr10);
    assert_eq!(dev.addr().as_u8(), 0x46);
    assert_eq!(I2cAddr::Addr00.as_u8(), 0x44);
    assert_eq!(I2cAddr::Addr11.as_u8(), 0x47);
}
