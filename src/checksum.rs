use vstd::prelude::*;

verus! {

/// Value of the CRC-8/NRSC-5 register (polynomial 0x31, no reflection, no
/// final xor) after feeding `bytes`, starting from the register value `initial`.
pub uninterp spec fn nrsc5_crc8(initial: u8, bytes: Seq<u8>) -> u8;

/// Register value the sensor's word checksum starts from.
pub const CHECKSUM_INIT: u8 = 0x00;

/// The checksum byte that must follow the data word `word` on the wire.
pub open spec fn word_checksum(word: Seq<u8>) -> u8 {
    nrsc5_crc8(CHECKSUM_INIT, word)
}

/// Relies on `crc::Crc::<u8>::new(&crc::CRC_8_NRSC_5)` and its
/// `digest_with_initial`, `update` and `finalize`: the CRC-8/NRSC-5 register
/// seeded with `initial`, run over `bytes`; the result depends on these alone.
#[verifier::external_body]
fn crc8_nrsc5(initial: u8, bytes: &[u8; 2]) -> (r: u8)
    ensures
        r == nrsc5_crc8(initial, bytes@),
{
    let crc = crc::Crc::<u8>::new(&crc::CRC_8_NRSC_5);
    let mut digest = crc.digest_with_initial(initial);
    digest.update(bytes);
    digest.finalize()
}

/// Checksum of a two-byte data word, as the sensor appends it on the wire.
pub fn checksum(word: [u8; 2]) -> (r: u8)
    ensures
        r == word_checksum(word@),
{
    crc8_nrsc5(CHECKSUM_INIT, &word)
}

/// Whether `crc` is the correct checksum byte for `word`.
pub fn checksum_matches(word: [u8; 2], crc: u8) -> (r: bool)
    ensures
        r == (crc == word_checksum(word@)),
{
    checksum(word) == crc
}

/// The checksum is a function of the word alone: equal words always get
/// equal checksums.
pub proof fn checksum_deterministic(a: [u8; 2], b: [u8; 2])
    requires
        a == b,
    ensures
        word_checksum(a@) == word_checksum(b@),
{
}

} // verus!
