//! The eight DPI profiles, stored in pairs at four addresses.
//!
//! A profile is changed by reading the whole pair that it belongs to, replacing its
//! own block, and writing the pair back in full: the neighbour is never lost.

use vstd::prelude::*;

use crate::dpi::{
    block_dpi, decode_dpi_block, dpi_index, encode_dpi_block, index_block, is_encodable, is_step,
    MAX_DPI, MIN_DPI,
};
use crate::eeprom::{
    read_request, read_request_view, write_request, write_request_view, EepromAddress,
    EepromRequest,
};
use crate::error::Error;
use crate::text::{
    decimal, is_decimal_of, law_decimal_reads_back, law_different_numbers_have_different_texts,
    lemma_tells_two, lines_view, push_decimal, tells_two,
};

verus! {

/// The addresses of the four pairs of profiles, in the order DPI1/2, DPI3/4, DPI5/6,
/// DPI7/8.
pub const DPI_PAIR_ADDRESSES: [EepromAddress; 4] = [
    EepromAddress::DpiPair1,
    EepromAddress::DpiPair3,
    EepromAddress::DpiPair5,
    EepromAddress::DpiPair7,
];

/// How many bytes a pair of profiles takes.
pub const PAIR_LEN: usize = 8;

/// The profiles are numbered from 1 to 8.
pub open spec fn is_slot(slot: int) -> bool {
    1 <= slot <= 8
}

/// The address of the pair that a profile belongs to.
pub open spec fn slot_address(slot: int) -> EepromAddress {
    DPI_PAIR_ADDRESSES@[(slot - 1) / 2]
}

/// Where the block of a profile starts within its pair.
pub open spec fn slot_offset(slot: int) -> int {
    (slot - 1) % 2 * 4
}

/// A resolution that a profile may be set to.
pub open spec fn is_profile_dpi(dpi: int) -> bool {
    is_step(dpi) && MIN_DPI <= dpi <= MAX_DPI
}

/// The block for a resolution that a profile may be set to, or what is wrong with the
/// resolution.
pub open spec fn profile_block_outcome(dpi: u32) -> Result<Seq<u8>, Error> {
    if !is_step(dpi as int) {
        Err(Error::NotAStep { dpi })
    } else if !is_encodable(dpi as int) {
        Err(Error::TooLarge { idx: dpi_index(dpi as int) as u32 })
    } else if !is_profile_dpi(dpi as int) {
        Err(Error::OutOfRange { dpi })
    } else {
        Ok(index_block(dpi_index(dpi as int)))
    }
}

/// `data` with `block` in place of what stood at `offset`.
pub open spec fn with_block(data: Seq<u8>, offset: int, block: Seq<u8>) -> Seq<u8> {
    data.take(offset) + block + data.skip(offset + block.len())
}

/// What is written back to set the resolution of a profile whose pair reads `data`.
pub open spec fn set_dpi_outcome(slot: u8, value: u32, data: Seq<u8>) -> Result<Seq<u8>, Error> {
    if !is_slot(slot as int) {
        Err(Error::BadSlot { slot })
    } else if data.len() < PAIR_LEN {
        Err(Error::ShortPair { address: slot_address(slot as int), len: data.len() as usize })
    } else {
        match profile_block_outcome(value) {
            Err(error) => Err(error),
            Ok(block) => Ok(with_block(data, slot_offset(slot as int), block)),
        }
    }
}

/// The line that shows the resolution of a profile.
pub open spec fn profile_line(slot: int, dpi: int) -> Seq<char> {
    "DPI"@ + decimal(slot as nat) + ": "@ + decimal(dpi as nat) + " dpi"@
}

/// The line that stands for a pair that came in too short.
pub open spec fn short_pair_line(pair: int, len: nat) -> Seq<char> {
    "Profiles "@ + decimal((pair * 2 + 1) as nat) + "/"@ + decimal((pair * 2 + 2) as nat)
        + ": received fewer than 8 bytes of data ("@ + decimal(len) + "), skipping"@
}

/// What is shown of the pair with the index `pair`, which reads `data`.
pub open spec fn pair_lines(pair: int, data: Seq<u8>) -> Seq<Seq<char>> {
    if data.len() < PAIR_LEN {
        seq![short_pair_line(pair, data.len())]
    } else {
        seq![
            profile_line(pair * 2 + 1, block_dpi(data.subrange(0, 4))),
            profile_line(pair * 2 + 2, block_dpi(data.subrange(4, 8))),
        ]
    }
}

/// What is shown once a profile is set.
pub open spec fn set_dpi_line(slot: u8, value: u32) -> Seq<char> {
    "DPI"@ + decimal(slot as nat) + " set to "@ + decimal(value as nat) + " dpi."@
}

/// The request that reads the pair with the index `pair`.
pub fn get_dpi_request(pair: usize) -> (request: EepromRequest)
    requires
        pair < 4,
    ensures
        request@ == read_request_view(DPI_PAIR_ADDRESSES@[pair as int], PAIR_LEN as nat),
{
    read_request(DPI_PAIR_ADDRESSES[pair], PAIR_LEN)
}

fn dpi_line(slot: usize, dpi: u32) -> (line: String)
    ensures
        line@ == profile_line(slot as int, dpi as int),
{
    let mut line = "DPI".to_owned();
    push_decimal(&mut line, slot as u64);
    line.append(": ");
    push_decimal(&mut line, dpi as u64);
    line.append(" dpi");
    line
}

/// Shows the two profiles of the pair with the index `pair`, which reads `data`.
pub fn get_dpi_lines(pair: usize, data: &Vec<u8>) -> (lines: Vec<String>)
    requires
        pair < 4,
    ensures
        lines_view(lines@) == pair_lines(pair as int, data@),
{
    let mut lines: Vec<String> = Vec::new();
    if data.len() < PAIR_LEN {
        let mut line = "Profiles ".to_owned();
        push_decimal(&mut line, (pair * 2 + 1) as u64);
        line.append("/");
        push_decimal(&mut line, (pair * 2 + 2) as u64);
        line.append(": received fewer than 8 bytes of data (");
        push_decimal(&mut line, data.len() as u64);
        line.append("), skipping");
        lines.push(line);
        assert(lines_view(lines@) =~= pair_lines(pair as int, data@));
        return lines;
    }
    let dpi_a: u32 = decode_dpi_block(&data[0..4]);
    let dpi_b: u32 = decode_dpi_block(&data[4..8]);
    lines.push(dpi_line(pair * 2 + 1, dpi_a));
    lines.push(dpi_line(pair * 2 + 2, dpi_b));
    assert(lines_view(lines@) =~= pair_lines(pair as int, data@));
    lines
}

/// The request that reads the pair of a profile, before the profile is set.
pub fn set_dpi_request(slot: u8) -> (request: Result<EepromRequest, Error>)
    ensures
        if is_slot(slot as int) {
            request is Ok && request->Ok_0@ == read_request_view(
                slot_address(slot as int),
                PAIR_LEN as nat,
            )
        } else {
            request == Err::<EepromRequest, Error>(Error::BadSlot { slot })
        },
{
    if !(1 <= slot && slot <= 8) {
        return Err(Error::BadSlot { slot });
    }
    let pair_index: u8 = (slot - 1) / 2;
    Ok(read_request(DPI_PAIR_ADDRESSES[pair_index as usize], PAIR_LEN))
}

/// Encodes a resolution that a profile may be set to: a multiple of 50 in the range
/// 100-30000.
pub fn encode_profile_dpi(value: u32) -> (block: Result<[u8; 4], Error>)
    ensures
        match profile_block_outcome(value) {
            Ok(bytes) => block is Ok && block->Ok_0@ == bytes,
            Err(error) => block == Err::<[u8; 4], Error>(error),
        },
        block is Ok <==> is_profile_dpi(value as int),
{
    let block = encode_dpi_block(value)?;
    if value < MIN_DPI || value > MAX_DPI {
        return Err(Error::OutOfRange { dpi: value });
    }
    Ok(block)
}

/// The request that sets the resolution of a profile whose pair reads `data`: the pair
/// with the block of that profile replaced.
pub fn set_dpi_update(slot: u8, value: u32, data: Vec<u8>) -> (request: Result<
    EepromRequest,
    Error,
>)
    ensures
        match set_dpi_outcome(slot, value, data@) {
            Ok(bytes) => request is Ok && request->Ok_0@ == write_request_view(
                slot_address(slot as int),
                bytes,
            ),
            Err(error) => request == Err::<EepromRequest, Error>(error),
        },
{
    if !(1 <= slot && slot <= 8) {
        return Err(Error::BadSlot { slot });
    }
    let pair_index: u8 = (slot - 1) / 2;
    let is_second_in_pair: bool = (slot - 1) % 2 == 1;
    let address = DPI_PAIR_ADDRESSES[pair_index as usize];
    if data.len() < PAIR_LEN {
        return Err(Error::ShortPair { address, len: data.len() });
    }
    let block = encode_profile_dpi(value)?;
    let offset: usize = if is_second_in_pair {
        4
    } else {
        0
    };
    let mut patched = data;
    let mut i: usize = 0;
    while i < 4
        invariant
            i <= 4,
            offset <= 4,
            offset + 4 <= patched@.len(),
            patched@.len() == data@.len(),
            forall|k: int| 0 <= k < i ==> patched@[offset + k] == block@[k],
            forall|k: int|
                0 <= k < data@.len() && !(offset <= k < offset + i) ==> patched@[k] == data@[k],
        decreases 4 - i,
    {
        patched[offset + i] = block[i];
        i = i + 1;
    }
    assert(patched@ =~= with_block(data@, offset as int, block@));
    Ok(write_request(address, patched))
}

/// What to show once a profile is set.
pub fn set_dpi_message(slot: u8, value: u32) -> (line: String)
    ensures
        line@ == set_dpi_line(slot, value),
{
    let mut line = "DPI".to_owned();
    push_decimal(&mut line, slot as u64);
    line.append(" set to ");
    push_decimal(&mut line, value as u64);
    line.append(" dpi.");
    line
}

/// There are eight profiles. The pair of the profile `slot` starts at 12 plus 8 for each pair
/// before it; the odd one of a pair comes first, the even one four bytes later.
pub proof fn law_places_of_the_profiles(slot: int)
    ensures
        is_slot(slot) <==> 1 <= slot <= 8,
        1 <= slot <= 8 ==> slot_address(slot).spec_code() == 12 + 8 * ((slot - 1) / 2),
        1 <= slot <= 8 ==> slot_offset(slot) == if slot % 2 == 1 {
            0int
        } else {
            4int
        },
        DPI_PAIR_ADDRESSES@[0] == EepromAddress::DpiPair1,
        DPI_PAIR_ADDRESSES@[1] == EepromAddress::DpiPair3,
        DPI_PAIR_ADDRESSES@[2] == EepromAddress::DpiPair5,
        DPI_PAIR_ADDRESSES@[3] == EepromAddress::DpiPair7,
{
    if 1 <= slot <= 8 {
        assert(slot == 1 || slot == 2 || slot == 3 || slot == 4 || slot == 5 || slot == 6 || slot
            == 7 || slot == 8);
    }
}

/// A profile may be set to the multiples of 50 from 100 to 30000, and to nothing else.
pub proof fn law_resolutions_on_offer(dpi: int)
    ensures
        is_profile_dpi(dpi) <==> dpi % 50 == 0 && 100 <= dpi <= 30000,
{
}

/// What is written to set a profile, byte by byte: the four bytes of the profile follow from
/// the resolution, all others are those that were read.
pub proof fn law_set_writes_these_bytes(slot: u8, value: u32, data: Seq<u8>)
    requires
        1 <= slot <= 8,
        data.len() >= 8,
        value % 50 == 0,
        100 <= value <= 30000,
    ensures
        set_dpi_outcome(slot, value, data) is Ok,
        ({
            let written = set_dpi_outcome(slot, value, data)->Ok_0;
            let at: int = if slot % 2 == 1 {
                0
            } else {
                4
            };
            let idx = value as int / 50 - 1;
            &&& written.len() == data.len()
            &&& written[at] == idx % 256
            &&& written[at + 1] == idx % 256
            &&& written[at + 2] == idx / 256 * 68
            &&& (written[at] + written[at + 1] + written[at + 2] + written[at + 3]) % 256 == 85
            &&& forall|i: int|
                0 <= i < data.len() && !(at <= i < at + 4) ==> #[trigger] written[i] == data[i]
        }),
{
    law_places_of_the_profiles(slot as int);
}

/// When setting a profile is refused, and with which error: the number of the profile comes
/// first, then the length of what was read, then the resolution.
pub proof fn law_set_is_refused_for_these_reasons(slot: u8, value: u32, data: Seq<u8>)
    requires
        data.len() <= usize::MAX,
    ensures
        set_dpi_outcome(slot, value, data) is Ok <==> 1 <= slot <= 8 && data.len() >= 8 && value
            % 50 == 0 && 100 <= value <= 30000,
        !(1 <= slot <= 8) ==> set_dpi_outcome(slot, value, data) == Err::<Seq<u8>, Error>(
            Error::BadSlot { slot },
        ),
        1 <= slot <= 8 && data.len() < 8 ==> (set_dpi_outcome(slot, value, data) matches Err(
            Error::ShortPair { address, len },
        ) && address.spec_code() == 12 + 8 * ((slot - 1) / 2) && len == data.len()),
        1 <= slot <= 8 && data.len() >= 8 ==> {
            let refused = set_dpi_outcome(slot, value, data);
            if value < 50 || value % 50 != 0 {
                refused == Err::<Seq<u8>, Error>(Error::NotAStep { dpi: value })
            } else if (value / 50 - 1) / 256 % 256 > 3 {
                refused matches Err(Error::TooLarge { idx }) && idx == value / 50 - 1
            } else if value < 100 || value > 30000 {
                refused == Err::<Seq<u8>, Error>(Error::OutOfRange { dpi: value })
            } else {
                refused is Ok
            }
        },
{
    law_places_of_the_profiles(slot as int);
}

/// The line of a profile tells its number and its resolution.
pub proof fn law_line_tells_the_resolution(slot: nat, dpi: nat)
    ensures
        tells_two(
            profile_line(slot as int, dpi as int),
            "DPI"@,
            slot as int,
            ": "@,
            dpi as int,
            " dpi"@,
        ),
{
    lemma_tells_two("DPI"@, slot, ": "@, dpi, " dpi"@);
}

/// Lines of one profile with different resolutions differ.
pub proof fn law_lines_of_different_resolutions_differ(slot: nat, dpi: nat, other: nat)
    requires
        dpi != other,
    ensures
        profile_line(slot as int, dpi as int) != profile_line(slot as int, other as int),
{
    let before = "DPI"@ + decimal(slot) + ": "@;
    let (a, b) = (decimal(dpi), decimal(other));
    let after = " dpi"@;
    law_different_numbers_have_different_texts(dpi, other);
    if before + a + after == before + b + after {
        assert((before + a + after).len() == (before + b + after).len());
        assert(a.len() == b.len());
        assert(a =~= (before + a + after).subrange(
            before.len() as int,
            (before.len() + a.len()) as int,
        ));
        assert(b =~= (before + b + after).subrange(
            before.len() as int,
            (before.len() + b.len()) as int,
        ));
    }
}

/// The line that confirms a profile tells its number and its resolution.
pub proof fn law_confirmation_tells_the_resolution(slot: u8, value: u32)
    ensures
        tells_two(
            set_dpi_line(slot, value),
            "DPI"@,
            slot as int,
            " set to "@,
            value as int,
            " dpi."@,
        ),
{
    lemma_tells_two("DPI"@, slot as nat, " set to "@, value as nat, " dpi."@);
}

/// What is shown of a pair: two profiles with the resolutions that follow from the bytes, or
/// one line that tells which two are skipped and how many bytes came in.
pub proof fn law_pair_is_shown_by_its_bytes(pair: int, data: Seq<u8>)
    requires
        pair >= 0,
    ensures
        data.len() >= 8 ==> {
            let lines = pair_lines(pair, data);
            &&& lines.len() == 2
            &&& tells_two(
                lines[0],
                "DPI"@,
                2 * pair + 1,
                ": "@,
                (data[2] as int / 68 * 256 + data[0] as int + 1) * 50,
                " dpi"@,
            )
            &&& tells_two(
                lines[1],
                "DPI"@,
                2 * pair + 2,
                ": "@,
                (data[6] as int / 68 * 256 + data[4] as int + 1) * 50,
                " dpi"@,
            )
        },
        data.len() < 8 ==> {
            let lines = pair_lines(pair, data);
            &&& lines.len() == 1
            &&& exists|s: Seq<char>| #[trigger]
                is_decimal_of(s, 2 * pair + 1) && tells_two(
                    lines[0],
                    "Profiles "@ + s + "/"@,
                    2 * pair + 2,
                    ": received fewer than 8 bytes of data ("@,
                    data.len() as int,
                    "), skipping"@,
                )
        },
{
    let (first, second) = ((pair * 2 + 1) as nat, (pair * 2 + 2) as nat);
    if data.len() >= 8 {
        let (a, b) = (data.subrange(0, 4), data.subrange(4, 8));
        law_line_tells_the_resolution(first, block_dpi(a) as nat);
        law_line_tells_the_resolution(second, block_dpi(b) as nat);
    } else {
        law_decimal_reads_back(first);
        lemma_tells_two(
            "Profiles "@ + decimal(first) + "/"@,
            second,
            ": received fewer than 8 bytes of data ("@,
            data.len(),
            "), skipping"@,
        );
        assert(first as int == 2 * pair + 1 && second as int == 2 * pair + 2);
        assert(is_decimal_of(decimal(first), 2 * pair + 1));
        assert(tells_two(
            pair_lines(pair, data)[0],
            "Profiles "@ + decimal(first) + "/"@,
            2 * pair + 2,
            ": received fewer than 8 bytes of data ("@,
            data.len() as int,
            "), skipping"@,
        ));
    }
}

/// Replacing a part of a row of bytes replaces that part and nothing else.
pub proof fn law_replacing_a_part(data: Seq<u8>, offset: int, block: Seq<u8>)
    requires
        0 <= offset,
        offset + block.len() <= data.len(),
    ensures
        with_block(data, offset, block).len() == data.len(),
        forall|i: int|
            0 <= i < data.len() ==> with_block(data, offset, block)[i] == if offset <= i < offset
                + block.len() {
                block[i - offset]
            } else {
                data[i]
            },
{
}

} // verus!
