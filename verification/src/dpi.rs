//! The 4-byte block in which the mouse stores the resolution of one profile.
//!
//! A resolution is stored as its index `dpi / 50 - 1`. The low byte of the index
//! stands twice, the high byte stands multiplied by `0x44`, and the last byte makes
//! the sum of the four equal to `0x55` modulo 256.

use vstd::prelude::*;

use crate::error::Error;

verus! {

/// DPI step, confirmed by traffic and stated by the manufacturer.
pub const DPI_STEP: u32 = 50;

/// The lowest resolution that a profile may be set to.
pub const MIN_DPI: u32 = 100;

/// The highest resolution that a profile may be set to.
pub const MAX_DPI: u32 = 30000;

/// The index under which a resolution is stored.
pub open spec fn dpi_index(dpi: int) -> int {
    dpi / DPI_STEP as int - 1
}

/// The high byte of an index.
pub open spec fn index_hi(idx: int) -> int {
    (idx / 256) % 256
}

/// A positive multiple of the step.
pub open spec fn is_step(dpi: int) -> bool {
    dpi >= DPI_STEP && dpi % DPI_STEP as int == 0
}

/// A resolution that has a block: `index_hi * 0x44` fits a byte.
pub open spec fn is_encodable(dpi: int) -> bool {
    is_step(dpi) && index_hi(dpi_index(dpi)) <= 3
}

/// The checksum of bytes that sum up to `sum`: what is missing to `0x55`, modulo 256.
pub open spec fn checksum(sum: int) -> u8 {
    ((0x55 - sum) % 256) as u8
}

/// The block that stores the index `idx`.
pub open spec fn index_block(idx: int) -> Seq<u8> {
    let lo = (idx % 256) as u8;
    let hi = (index_hi(idx) * 0x44) as u8;
    seq![lo, lo, hi, checksum(lo + lo + hi)]
}

/// The resolution that a block stores.
pub open spec fn block_dpi(block: Seq<u8>) -> int {
    ((block[2] as int / 0x44) * 256 + block[0] + 1) * DPI_STEP
}

/// A block as the mouse writes it.
pub open spec fn is_block(block: Seq<u8>) -> bool {
    &&& block.len() == 4
    &&& block[1] == block[0]
    &&& block[2] % 0x44 == 0
    &&& block[3] == checksum(block[0] + block[1] + block[2])
}

/// Encodes a DPI value into a 4-byte block for a single profile.
pub fn encode_dpi_block(dpi: u32) -> (block: Result<[u8; 4], Error>)
    ensures
        block is Ok <==> is_encodable(dpi as int),
        block matches Ok(b) ==> b@ == index_block(dpi_index(dpi as int)),
        !is_step(dpi as int) ==> block == Err::<[u8; 4], Error>(Error::NotAStep { dpi }),
        is_step(dpi as int) && !is_encodable(dpi as int) ==> block == Err::<[u8; 4], Error>(
            Error::TooLarge { idx: dpi_index(dpi as int) as u32 },
        ),
{
    if dpi < DPI_STEP || dpi % DPI_STEP != 0 {
        return Err(Error::NotAStep { dpi });
    }
    let idx: u32 = dpi / DPI_STEP - 1;
    assert((idx >> 8) & 0xff == (idx / 256) % 256) by (bit_vector);
    assert(idx & 0xff == idx % 256) by (bit_vector);
    let hi: u32 = (idx >> 8) & 0xff;
    if hi > 3 {
        return Err(Error::TooLarge { idx });
    }
    let idx_lo: u8 = (idx & 0xff) as u8;
    let idx_hi: u8 = hi as u8;
    let byte2: u8 = idx_hi.wrapping_mul(0x44);
    let checksum: u8 = 0x55u8.wrapping_sub(idx_lo).wrapping_sub(idx_lo).wrapping_sub(byte2);
    let block: [u8; 4] = [idx_lo, idx_lo, byte2, checksum];
    assert(block@ =~= index_block(dpi_index(dpi as int)));
    Ok(block)
}

/// Decodes a 4-byte block back into a DPI value.
///
/// On corrupted data the result is approximate: bytes 1 and 3 are not looked at,
/// and byte 2 is rounded down to a multiple of `0x44`.
pub fn decode_dpi_block(block: &[u8]) -> (dpi: u32)
    requires
        block@.len() >= 3,
    ensures
        dpi == block_dpi(block@),
{
    let idx_lo: u32 = block[0] as u32;
    let idx_hi: u32 = (block[2] as u32) / 0x44;
    assert((idx_hi << 8) | idx_lo == idx_hi * 256 + idx_lo) by (bit_vector)
        requires
            idx_hi <= 3,
            idx_lo <= 255,
    ;
    let idx: u32 = (idx_hi << 8) | idx_lo;
    (idx + 1) * DPI_STEP
}

/// Decoding undoes encoding, for every resolution whose index fits 16 bits.
pub proof fn law_decode_undoes_encode(dpi: u32)
    requires
        is_encodable(dpi as int),
        dpi_index(dpi as int) < 0x1_0000,
    ensures
        block_dpi(index_block(dpi_index(dpi as int))) == dpi,
{
}

/// Encoding undoes decoding, for every block as the mouse writes it.
pub proof fn law_encode_undoes_decode(block: Seq<u8>)
    requires
        is_block(block),
    ensures
        is_encodable(block_dpi(block)),
        index_block(dpi_index(block_dpi(block))) == block,
{
    let (lo, hi) = (block[0] as int, block[2] as int / 0x44);
    assert(hi * 0x44 == block[2]);
    assert(0 <= hi <= 3);
    assert(dpi_index(block_dpi(block)) == hi * 256 + lo);
    assert(index_block(dpi_index(block_dpi(block))) =~= block);
}

/// Every encoded block has the form that the mouse writes: the low byte stands twice, and
/// the four bytes sum up to `0x55` modulo 256.
pub proof fn law_encoded_block_is_well_formed(dpi: u32)
    requires
        is_encodable(dpi as int),
    ensures
        is_block(index_block(dpi_index(dpi as int))),
        ({
            let block = index_block(dpi_index(dpi as int));
            (block[0] + block[1] + block[2] + block[3]) % 256 == 0x55
        }),
{
}

/// Whatever the bytes, decoding gives a positive multiple of the step, at most 51200.
pub proof fn law_decoded_resolution_is_a_step(block: Seq<u8>)
    requires
        block.len() >= 3,
    ensures
        is_step(block_dpi(block)),
        block_dpi(block) <= 51200,
{
}

/// The bytes of a block, from the resolution alone: with `idx = dpi / 50 - 1`, the low byte of
/// `idx` twice, its high byte times 68, and what is missing to 85, modulo 256.
pub proof fn law_block_bytes_follow_from_the_resolution(dpi: u32)
    requires
        dpi >= 50,
        dpi % 50 == 0,
        (dpi / 50 - 1) / 256 % 256 <= 3,
    ensures
        is_encodable(dpi as int),
        ({
            let block = index_block(dpi_index(dpi as int));
            let idx = dpi as int / 50 - 1;
            &&& block.len() == 4
            &&& block[0] == idx % 256
            &&& block[1] == idx % 256
            &&& block[2] == idx / 256 % 256 * 68
            &&& block[3] == (85 - idx % 256 - idx % 256 - idx / 256 % 256 * 68) % 256
        }),
{
}

/// What has no block: a resolution below 50 or between two multiples of 50, and one whose
/// index has a high byte above 3. Nothing else.
pub proof fn law_only_these_resolutions_have_a_block(dpi: u32)
    ensures
        is_step(dpi as int) <==> dpi >= 50 && dpi % 50 == 0,
        is_encodable(dpi as int) <==> dpi >= 50 && dpi % 50 == 0 && (dpi / 50 - 1) / 256 % 256 <= 3,
        dpi <= 51200 ==> (is_encodable(dpi as int) <==> dpi >= 50 && dpi % 50 == 0),
        dpi >= 50 ==> dpi_index(dpi as int) == dpi / 50 - 1,
{
}

/// The resolution of any block, well-formed or not, from its bytes alone.
pub proof fn law_resolution_follows_from_the_bytes(block: Seq<u8>)
    requires
        block.len() >= 3,
    ensures
        block_dpi(block) == (block[2] as int / 68 * 256 + block[0] as int + 1) * 50,
{
}

/// One step more is one index more: the low byte counts up, and where it starts over the
/// high part goes up by 68.
pub proof fn law_one_step_more_is_one_index_more(dpi: u32)
    requires
        dpi >= 50,
        dpi % 50 == 0,
        dpi < 51200,
    ensures
        ({
            let block = index_block(dpi_index(dpi as int));
            let next = index_block(dpi_index(dpi + 50));
            if block[0] < 255 {
                next[0] == block[0] + 1 && next[2] == block[2]
            } else {
                next[0] == 0 && next[2] == block[2] + 68
            }
        }),
{
}

/// Any sum and its checksum make 85, modulo 256.
pub proof fn law_checksum_makes_up_the_sum(sum: int)
    ensures
        (sum + checksum(sum) as int) % 256 == 85,
{
}

/// The blocks that the mouse writes are those whose low byte stands twice, whose high part is
/// 0, 68, 136 or 204, and whose bytes sum up to 85, modulo 256.
pub proof fn law_well_formed_blocks(block: Seq<u8>)
    ensures
        is_block(block) <==> {
            &&& block.len() == 4
            &&& block[0] == block[1]
            &&& block[2] == 0 || block[2] == 68 || block[2] == 136 || block[2] == 204
            &&& (block[0] + block[1] + block[2] + block[3]) % 256 == 85
        },
{
}

} // verus!
