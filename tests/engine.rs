use hdc302x::checksum;
use hdc302x::transaction::decode_reply;
use hdc302x::{BusOp, Error, Next, Outcome, Phase, Request, Transaction};

fn reply(words: &[u16]) -> Vec<u8> {
    let mut v = Vec::new();
    for w in words {
        let b = [(w >> 8) as u8, *w as u8];
        v.push(b[0]);
        v.push(b[1]);
        v.push(checksum(b));
    }
    v
}

#[test]
fn checksum_of_zero_word_is_zero() {
    assert_eq!(checksum([0x00, 0x00]), 0x00);
}

#[test]
fn checksum_reference_values() {
    assert_eq!(checksum([0xBE, 0xEF]), 0x13);
    assert_eq!(checksum([0x66, 0x66]), 0x12);
    assert_eq!(checksum([0xFF, 0xFF]), 0x2D);
    assert_eq!(checksum([0x12, 0x34]), 0xB6);
}

#[test]
fn checksum_is_deterministic() {
    for hi in [0u8, 0x01, 0x7F, 0x80, 0xBE, 0xFF] {
        for lo in [0u8, 0x01, 0x55, 0xEF, 0xFF] {
            assert_eq!(checksum([hi, lo]), checksum([hi, lo]));
        }
    }
}

#[test]
fn no_reply_writes_and_finishes() {
    let mut t = Transaction::new(Request::command(0x30A2, 0));
    assert_eq!(t.start(), BusOp::Write(vec![0x30, 0xA2]));
    assert_eq!(t.phase(), Phase::Writing);
    let next = t.resume::<u8>(Outcome::Written(Ok(())));
    assert_eq!(next, Next::Finish(Ok(vec![])));
    assert_eq!(t.phase(), Phase::Done);
}

#[test]
fn no_reply_write_failure_surfaces_unchanged() {
    let mut t = Transaction::new(Request::command(0x3093, 0));
    assert_eq!(t.start(), BusOp::Write(vec![0x30, 0x93]));
    let next = t.resume::<u32>(Outcome::Written(Err(77)));
    assert_eq!(next, Next::Finish(Err(Error::I2c(77))));
}

#[test]
fn parameter_word_follows_opcode() {
    let mut t = Transaction::new(Request::with_param(0x306E, 0x009F));
    assert_eq!(t.start(), BusOp::Write(vec![0x30, 0x6E, 0x00, 0x9F]));
}

#[test]
fn one_word_reply_reads_three_bytes() {
    let mut t = Transaction::new(Request::command(0x3781, 1));
    assert_eq!(t.start(), BusOp::WriteRead(vec![0x37, 0x81], 3));
    let next = t.resume::<u8>(Outcome::Received(Ok(reply(&[0x3000]))));
    assert_eq!(next, Next::Finish(Ok(vec![0x3000])));
}

#[test]
fn two_word_reply_reads_six_bytes() {
    let mut t = Transaction::new(Request::command(0x2400, 2));
    assert_eq!(t.start(), BusOp::WriteRead(vec![0x24, 0x00], 6));
    let buf = reply(&[0x6666, 0x8000]);
    assert_eq!(buf, vec![0x66, 0x66, 0x12, 0x80, 0x00, 0x23]);
    let next = t.resume::<u8>(Outcome::Received(Ok(buf)));
    assert_eq!(next, Next::Finish(Ok(vec![0x6666, 0x8000])));
}

#[test]
fn corrupted_checksum_byte_is_a_mismatch() {
    for n in 1..=2usize {
        for k in 0..n {
            let good = reply(&[0xBEEF, 0x1234][..n]);
            let mut bad = good.clone();
            bad[3 * k + 2] ^= 0x01;
            let mut t = Transaction::new(Request::command(0xE000, n));
            assert_eq!(t.start(), BusOp::WriteRead(vec![0xE0, 0x00], 3 * n));
            let next = t.resume::<u8>(Outcome::Received(Ok(bad)));
            assert_eq!(next, Next::Finish(Err(Error::CrcMismatch)));
        }
    }
}

#[test]
fn corrupted_data_byte_is_a_mismatch() {
    let mut bad = reply(&[0xBEEF, 0x1234]);
    bad[4] ^= 0x40;
    assert_eq!(decode_reply::<u8>(&bad, 2), Err(Error::CrcMismatch));
}

#[test]
fn failed_write_read_retries_plain_reads() {
    let mut t = Transaction::new(Request::command(0xE000, 2));
    assert_eq!(t.start(), BusOp::WriteRead(vec![0xE0, 0x00], 6));
    assert_eq!(t.resume::<u8>(Outcome::Received(Err(1))), Next::Perform(BusOp::Read(6)));
    assert_eq!(t.phase(), Phase::Reading);
    assert_eq!(t.resume::<u8>(Outcome::Received(Err(2))), Next::Perform(BusOp::DelayMs(1)));
    assert_eq!(t.phase(), Phase::Sleeping);
    assert_eq!(t.resume::<u8>(Outcome::Slept), Next::Perform(BusOp::Read(6)));
    assert_eq!(t.resume::<u8>(Outcome::Received(Err(3))), Next::Perform(BusOp::DelayMs(1)));
    assert_eq!(t.resume::<u8>(Outcome::Slept), Next::Perform(BusOp::Read(6)));
    let next = t.resume::<u8>(Outcome::Received(Ok(reply(&[0xAABB, 0xCCDD]))));
    assert_eq!(next, Next::Finish(Ok(vec![0xAABB, 0xCCDD])));
}

#[test]
fn accepts_only_fitting_outcomes() {
    let mut t = Transaction::new(Request::command(0xF32D, 1));
    t.start();
    assert!(t.accepts::<u8>(&Outcome::Received(Ok(vec![0, 0, 0]))));
    assert!(t.accepts::<u8>(&Outcome::Received(Err(1))));
    assert!(!t.accepts::<u8>(&Outcome::Received(Ok(vec![0, 0, 0, 0, 0, 0]))));
    assert!(!t.accepts::<u8>(&Outcome::Written(Ok(()))));
    assert!(!t.accepts::<u8>(&Outcome::Slept));
}

#[test]
fn request_validity() {
    assert!(Request::command(0x3093, 2).is_valid());
    assert!(!Request { opcode: 0x3093, param: None, words: 3 }.is_valid());
    assert!(!Request { opcode: 0x306E, param: Some(1), words: 1 }.is_valid());
}
