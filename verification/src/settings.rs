//! Settings that the mouse keeps as a value and its checksum: the active profile, the
//! polling rate and the sensor mode.
//!
//! Several of them share an address. One is changed by reading the whole block,
//! replacing its own two bytes, and writing the block back in full, so that the others
//! are never lost.

use vstd::prelude::*;

use crate::dpi::checksum;
use crate::eeprom::{
    read_request, read_request_view, write_request, write_request_view, EepromAddress,
    EepromRequest,
};
use crate::error::Error;
use crate::profile::is_slot;
use crate::text::{decimal, lemma_tells, push_decimal, tells};

verus! {

/// How many bytes the block at the address `ReportRate` takes.
pub const REPORT_RATE_LEN: usize = 10;

/// How many bytes the block at the address `SensorEnable` takes.
pub const SENSOR_LEN: usize = 6;

/// Where the polling interval stands in its block.
pub const INTERVAL_OFFSET: usize = 0;

/// Where the index of the active profile stands in its block.
pub const CURRENT_DPI_OFFSET: usize = 4;

/// Where the mode flag stands in the block of the sensor.
pub const MODE_OFFSET: usize = 4;

/// How the sensor samples.
#[derive(Debug, Clone, Copy, PartialEq, Eq, Structural)]
pub enum SensorMode {
    /// Lower power, lower sampling frequency.
    Base,
    /// Higher scan rate and precision, more power use.
    Competitive,
}

/// `data` with `value` and its checksum at `offset`.
pub open spec fn with_pair(data: Seq<u8>, offset: int, value: u8) -> Seq<u8> {
    data.update(offset, value).update(offset + 1, checksum(value as int))
}

/// What is written back to activate a profile when the block reads `data`.
pub open spec fn select_dpi_outcome(slot: u8, data: Seq<u8>) -> Result<Seq<u8>, Error> {
    if !is_slot(slot as int) {
        Err(Error::BadSlot { slot })
    } else if data.len() < CURRENT_DPI_OFFSET + 2 {
        Err(Error::ShortSelection { len: data.len() as usize })
    } else {
        Ok(with_pair(data, CURRENT_DPI_OFFSET as int, (slot - 1) as u8))
    }
}

/// What is shown once a profile is activated.
pub open spec fn select_dpi_line(slot: u8) -> Seq<char> {
    "Active profile switched to DPI"@ + decimal(slot as nat) + "."@
}

/// The polling rates that the mouse offers.
pub open spec fn is_rate(hz: int) -> bool {
    hz == 125 || hz == 250 || hz == 500 || hz == 1000
}

/// The polling interval in milliseconds, for a rate that the mouse offers.
pub open spec fn rate_interval(hz: int) -> int {
    1000int / hz
}

/// What is written back to set the polling rate when the block reads `data`.
pub open spec fn set_rate_outcome(hz: u32, data: Seq<u8>) -> Result<Seq<u8>, Error> {
    if !is_rate(hz as int) {
        Err(Error::BadRate { hz })
    } else if data.len() < INTERVAL_OFFSET + 2 {
        Err(
            Error::ShortBlock {
                address: EepromAddress::ReportRate,
                needed: (INTERVAL_OFFSET + 2) as usize,
                len: data.len() as usize,
            },
        )
    } else {
        Ok(with_pair(data, INTERVAL_OFFSET as int, rate_interval(hz as int) as u8))
    }
}

/// The polling rate that the block `data` holds.
pub open spec fn get_rate_outcome(data: Seq<u8>) -> Result<u32, Error> {
    if data.len() < INTERVAL_OFFSET + 2 {
        Err(
            Error::ShortRead {
                address: EepromAddress::ReportRate,
                needed: (INTERVAL_OFFSET + 2) as usize,
                len: data.len() as usize,
            },
        )
    } else {
        rate_outcome(data[INTERVAL_OFFSET as int])
    }
}

/// The rate that an interval stands for.
pub open spec fn rate_outcome(interval: u8) -> Result<u32, Error> {
    if interval == 1 || interval == 2 || interval == 4 || interval == 8 {
        Ok((1000int / interval as int) as u32)
    } else {
        Err(Error::UnknownInterval { interval })
    }
}

/// What is shown of the polling rate.
pub open spec fn rate_line(hz: u32) -> Seq<char> {
    "Polling rate: "@ + decimal(hz as nat) + " Hz"@
}

/// What is shown once the polling rate is set.
pub open spec fn set_rate_line(hz: u32) -> Seq<char> {
    "Polling rate set to "@ + decimal(hz as nat) + " Hz."@
}

/// The flag that stands for a mode.
pub open spec fn mode_flag_of(mode: SensorMode) -> u8 {
    match mode {
        SensorMode::Base => 0,
        SensorMode::Competitive => 1,
    }
}

/// The name of a mode.
pub open spec fn mode_text(mode: SensorMode) -> Seq<char> {
    match mode {
        SensorMode::Base => "base"@,
        SensorMode::Competitive => "competitive"@,
    }
}

/// What is written back to set the sensor mode when the block reads `data`.
pub open spec fn set_mode_outcome(mode: SensorMode, data: Seq<u8>) -> Result<Seq<u8>, Error> {
    if data.len() < MODE_OFFSET + 2 {
        Err(
            Error::ShortBlock {
                address: EepromAddress::SensorEnable,
                needed: (MODE_OFFSET + 2) as usize,
                len: data.len() as usize,
            },
        )
    } else {
        Ok(with_pair(data, MODE_OFFSET as int, mode_flag_of(mode)))
    }
}

/// The sensor mode that the block `data` holds.
pub open spec fn get_mode_outcome(data: Seq<u8>) -> Result<SensorMode, Error> {
    if data.len() < MODE_OFFSET + 2 {
        Err(
            Error::ShortRead {
                address: EepromAddress::SensorEnable,
                needed: (MODE_OFFSET + 2) as usize,
                len: data.len() as usize,
            },
        )
    } else if data[MODE_OFFSET as int] == 0 {
        Ok(SensorMode::Base)
    } else if data[MODE_OFFSET as int] == 1 {
        Ok(SensorMode::Competitive)
    } else {
        Err(Error::UnknownMode { flag: data[MODE_OFFSET as int] })
    }
}

/// What is shown of the sensor mode.
pub open spec fn mode_line(mode: SensorMode) -> Seq<char> {
    "Sensor mode: "@ + mode_text(mode)
}

/// What is shown once the sensor mode is set.
pub open spec fn set_mode_line(mode: SensorMode) -> Seq<char> {
    "Sensor mode set to "@ + mode_text(mode) + "."@
}

fn set_pair(data: &mut Vec<u8>, offset: usize, value: u8)
    requires
        offset + 2 <= old(data).len(),
    ensures
        final(data)@ == with_pair(old(data)@, offset as int, value),
{
    data[offset] = value;
    data[offset + 1] = 0x55u8.wrapping_sub(value);
}

/// The request that reads the block at the address `ReportRate`.
pub fn report_rate_request() -> (request: EepromRequest)
    ensures
        request@ == read_request_view(EepromAddress::ReportRate, REPORT_RATE_LEN as nat),
{
    read_request(EepromAddress::ReportRate, REPORT_RATE_LEN)
}

/// The request that reads the block of the sensor.
pub fn sensor_request() -> (request: EepromRequest)
    ensures
        request@ == read_request_view(EepromAddress::SensorEnable, SENSOR_LEN as nat),
{
    read_request(EepromAddress::SensorEnable, SENSOR_LEN)
}

/// The request that reads the block of the active profile, before another profile is
/// activated.
pub fn select_dpi_request(slot: u8) -> (request: Result<EepromRequest, Error>)
    ensures
        if is_slot(slot as int) {
            request is Ok && request->Ok_0@ == read_request_view(
                EepromAddress::ReportRate,
                REPORT_RATE_LEN as nat,
            )
        } else {
            request == Err::<EepromRequest, Error>(Error::BadSlot { slot })
        },
{
    if !(1 <= slot && slot <= 8) {
        return Err(Error::BadSlot { slot });
    }
    Ok(report_rate_request())
}

/// The request that activates a profile when the block reads `data`.
pub fn select_dpi_update(slot: u8, data: Vec<u8>) -> (request: Result<EepromRequest, Error>)
    ensures
        match select_dpi_outcome(slot, data@) {
            Ok(bytes) => request is Ok && request->Ok_0@ == write_request_view(
                EepromAddress::ReportRate,
                bytes,
            ),
            Err(error) => request == Err::<EepromRequest, Error>(error),
        },
{
    if !(1 <= slot && slot <= 8) {
        return Err(Error::BadSlot { slot });
    }
    if data.len() < CURRENT_DPI_OFFSET + 2 {
        return Err(Error::ShortSelection { len: data.len() });
    }
    let mut patched = data;
    set_pair(&mut patched, CURRENT_DPI_OFFSET, slot - 1);
    Ok(write_request(EepromAddress::ReportRate, patched))
}

/// What to show once a profile is activated.
pub fn select_dpi_message(slot: u8) -> (line: String)
    ensures
        line@ == select_dpi_line(slot),
{
    let mut line = "Active profile switched to DPI".to_owned();
    push_decimal(&mut line, slot as u64);
    line.append(".");
    line
}

/// The polling interval in milliseconds that stands for a rate.
pub fn encode_polling_rate(hz: u32) -> (interval: Result<u8, Error>)
    ensures
        if is_rate(hz as int) {
            interval is Ok && interval->Ok_0 == rate_interval(hz as int)
        } else {
            interval == Err::<u8, Error>(Error::BadRate { hz })
        },
{
    if hz != 125 && hz != 250 && hz != 500 && hz != 1000 {
        return Err(Error::BadRate { hz });
    }
    Ok((1000 / hz) as u8)
}

/// The rate that a polling interval in milliseconds stands for.
pub fn decode_polling_rate(interval: u8) -> (hz: Result<u32, Error>)
    ensures
        hz == rate_outcome(interval),
{
    if interval != 1 && interval != 2 && interval != 4 && interval != 8 {
        return Err(Error::UnknownInterval { interval });
    }
    Ok(1000 / interval as u32)
}

/// The request that reads the block of the polling rate, before the rate is set.
pub fn set_rate_request(hz: u32) -> (request: Result<EepromRequest, Error>)
    ensures
        if is_rate(hz as int) {
            request is Ok && request->Ok_0@ == read_request_view(
                EepromAddress::ReportRate,
                REPORT_RATE_LEN as nat,
            )
        } else {
            request == Err::<EepromRequest, Error>(Error::BadRate { hz })
        },
{
    let _ = encode_polling_rate(hz)?;
    Ok(report_rate_request())
}

/// The request that sets the polling rate when the block reads `data`.
pub fn set_rate_update(hz: u32, data: Vec<u8>) -> (request: Result<EepromRequest, Error>)
    ensures
        match set_rate_outcome(hz, data@) {
            Ok(bytes) => request is Ok && request->Ok_0@ == write_request_view(
                EepromAddress::ReportRate,
                bytes,
            ),
            Err(error) => request == Err::<EepromRequest, Error>(error),
        },
{
    let interval = encode_polling_rate(hz)?;
    if data.len() < INTERVAL_OFFSET + 2 {
        return Err(
            Error::ShortBlock {
                address: EepromAddress::ReportRate,
                needed: INTERVAL_OFFSET + 2,
                len: data.len(),
            },
        );
    }
    let mut patched = data;
    set_pair(&mut patched, INTERVAL_OFFSET, interval);
    Ok(write_request(EepromAddress::ReportRate, patched))
}

/// The polling rate that the block `data` holds.
pub fn get_rate(data: &Vec<u8>) -> (hz: Result<u32, Error>)
    ensures
        hz == get_rate_outcome(data@),
{
    if data.len() < INTERVAL_OFFSET + 2 {
        return Err(
            Error::ShortRead {
                address: EepromAddress::ReportRate,
                needed: INTERVAL_OFFSET + 2,
                len: data.len(),
            },
        );
    }
    decode_polling_rate(data[INTERVAL_OFFSET])
}

/// What to show of the polling rate.
pub fn rate_message(hz: u32) -> (line: String)
    ensures
        line@ == rate_line(hz),
{
    let mut line = "Polling rate: ".to_owned();
    push_decimal(&mut line, hz as u64);
    line.append(" Hz");
    line
}

/// What to show once the polling rate is set.
pub fn set_rate_message(hz: u32) -> (line: String)
    ensures
        line@ == set_rate_line(hz),
{
    let mut line = "Polling rate set to ".to_owned();
    push_decimal(&mut line, hz as u64);
    line.append(" Hz.");
    line
}

fn mode_name(mode: SensorMode) -> (name: &'static str)
    ensures
        name@ == mode_text(mode),
{
    match mode {
        SensorMode::Base => "base",
        SensorMode::Competitive => "competitive",
    }
}

/// The request that sets the sensor mode when the block reads `data`.
pub fn set_mode_update(mode: SensorMode, data: Vec<u8>) -> (request: Result<EepromRequest, Error>)
    ensures
        match set_mode_outcome(mode, data@) {
            Ok(bytes) => request is Ok && request->Ok_0@ == write_request_view(
                EepromAddress::SensorEnable,
                bytes,
            ),
            Err(error) => request == Err::<EepromRequest, Error>(error),
        },
{
    if data.len() < MODE_OFFSET + 2 {
        return Err(
            Error::ShortBlock {
                address: EepromAddress::SensorEnable,
                needed: MODE_OFFSET + 2,
                len: data.len(),
            },
        );
    }
    let flag: u8 = match mode {
        SensorMode::Base => 0,
        SensorMode::Competitive => 1,
    };
    let mut patched = data;
    set_pair(&mut patched, MODE_OFFSET, flag);
    Ok(write_request(EepromAddress::SensorEnable, patched))
}

/// The sensor mode that the block `data` holds.
pub fn get_mode(data: &Vec<u8>) -> (mode: Result<SensorMode, Error>)
    ensures
        mode == get_mode_outcome(data@),
{
    if data.len() < MODE_OFFSET + 2 {
        return Err(
            Error::ShortRead {
                address: EepromAddress::SensorEnable,
                needed: MODE_OFFSET + 2,
                len: data.len(),
            },
        );
    }
    match data[MODE_OFFSET] {
        0 => Ok(SensorMode::Base),
        1 => Ok(SensorMode::Competitive),
        flag => Err(Error::UnknownMode { flag }),
    }
}

/// What to show of the sensor mode.
pub fn mode_message(mode: SensorMode) -> (line: String)
    ensures
        line@ == mode_line(mode),
{
    let mut line = "Sensor mode: ".to_owned();
    line.append(mode_name(mode));
    line
}

/// What to show once the sensor mode is set.
pub fn set_mode_message(mode: SensorMode) -> (line: String)
    ensures
        line@ == set_mode_line(mode),
{
    let mut line = "Sensor mode set to ".to_owned();
    line.append(mode_name(mode));
    line.append(".");
    line
}

/// The rates and their intervals.
proof fn lemma_rates()
    ensures
        rate_interval(125) == 8 && 1000int / 8 == 125,
        rate_interval(250) == 4 && 1000int / 4 == 250,
        rate_interval(500) == 2 && 1000int / 2 == 500,
        rate_interval(1000) == 1 && 1000int / 1 == 1000,
{
}

/// The interval of a rate stands for that rate again.
pub proof fn law_interval_stands_for_its_rate(hz: u32)
    requires
        is_rate(hz as int),
    ensures
        rate_outcome(rate_interval(hz as int) as u8) == Ok::<u32, Error>(hz),
{
    lemma_rates();
}

/// The rate that an interval stands for has that interval again.
pub proof fn law_rate_has_its_interval(interval: u8)
    requires
        rate_outcome(interval) is Ok,
    ensures
        is_rate(rate_outcome(interval)->Ok_0 as int),
        rate_interval(rate_outcome(interval)->Ok_0 as int) == interval,
{
    lemma_rates();
}

/// What is written to activate a profile, byte by byte: its number counted from zero in byte
/// 4, the checksum of that in byte 5, and all others as they were read. It is refused for a
/// number that no profile has, and for a block of fewer than six bytes.
pub proof fn law_select_writes_these_bytes(slot: u8, data: Seq<u8>)
    requires
        data.len() <= usize::MAX,
    ensures
        !(1 <= slot <= 8) ==> select_dpi_outcome(slot, data) == Err::<Seq<u8>, Error>(
            Error::BadSlot { slot },
        ),
        1 <= slot <= 8 && data.len() < 6 ==> (select_dpi_outcome(slot, data) matches Err(
            Error::ShortSelection { len },
        ) && len == data.len()),
        1 <= slot <= 8 && data.len() >= 6 ==> {
            &&& select_dpi_outcome(slot, data) is Ok
            &&& select_dpi_outcome(slot, data)->Ok_0.len() == data.len()
            &&& select_dpi_outcome(slot, data)->Ok_0[4] == slot - 1
            &&& select_dpi_outcome(slot, data)->Ok_0[5] == 85 - (slot - 1)
            &&& forall|i: int|
                0 <= i < data.len() && i != 4 && i != 5
                    ==> #[trigger] select_dpi_outcome(slot, data)->Ok_0[i] == data[i]
        },
{
}

/// What is written to set the polling rate, byte by byte: an interval that goes into a second
/// `hz` times in byte 0, its checksum in byte 1, and all others as they were read.
pub proof fn law_rate_writes_these_bytes(hz: u32, data: Seq<u8>)
    requires
        data.len() <= usize::MAX,
    ensures
        is_rate(hz as int) <==> hz == 125 || hz == 250 || hz == 500 || hz == 1000,
        !(hz == 125 || hz == 250 || hz == 500 || hz == 1000) ==> set_rate_outcome(hz, data) == Err::<
            Seq<u8>,
            Error,
        >(Error::BadRate { hz }),
        (hz == 125 || hz == 250 || hz == 500 || hz == 1000) && data.len() < 2 ==> (
        set_rate_outcome(hz, data) matches Err(Error::ShortBlock { address, needed, len })
            && address == EepromAddress::ReportRate && needed == 2 && len == data.len()),
        (hz == 125 || hz == 250 || hz == 500 || hz == 1000) && data.len() >= 2 ==> {
            &&& set_rate_outcome(hz, data) is Ok
            &&& set_rate_outcome(hz, data)->Ok_0.len() == data.len()
            &&& set_rate_outcome(hz, data)->Ok_0[0] * hz == 1000
            &&& set_rate_outcome(hz, data)->Ok_0[1] == 85 - set_rate_outcome(hz, data)->Ok_0[0]
            &&& forall|i: int|
                2 <= i < data.len() ==> #[trigger] set_rate_outcome(hz, data)->Ok_0[i] == data[i]
        },
{
    lemma_rates();
}

/// The rate that is read goes with the interval in byte 0 to make a second; an interval other
/// than 1, 2, 4 or 8 is refused, and so is a block of fewer than two bytes.
pub proof fn law_rate_is_read_from_the_first_byte(data: Seq<u8>)
    requires
        data.len() <= usize::MAX,
    ensures
        data.len() >= 2 && (data[0] == 1 || data[0] == 2 || data[0] == 4 || data[0] == 8) ==> (
        get_rate_outcome(data) matches Ok(hz) && hz * data[0] == 1000),
        data.len() >= 2 && !(data[0] == 1 || data[0] == 2 || data[0] == 4 || data[0] == 8)
            ==> get_rate_outcome(data) == Err::<u32, Error>(
            Error::UnknownInterval { interval: data[0] },
        ),
        data.len() < 2 ==> (get_rate_outcome(data) matches Err(
            Error::ShortRead { address, needed, len },
        ) && address == EepromAddress::ReportRate && needed == 2 && len == data.len()),
{
    lemma_rates();
}

/// What is written to set the sensor mode, byte by byte: 0 for base and 1 for competitive in
/// byte 4, the checksum of that in byte 5, and all others as they were read.
pub proof fn law_mode_writes_these_bytes(mode: SensorMode, data: Seq<u8>)
    requires
        data.len() <= usize::MAX,
    ensures
        data.len() < 6 ==> (set_mode_outcome(mode, data) matches Err(
            Error::ShortBlock { address, needed, len },
        ) && address == EepromAddress::SensorEnable && needed == 6 && len == data.len()),
        data.len() >= 6 ==> {
            let written = set_mode_outcome(mode, data)->Ok_0;
            &&& set_mode_outcome(mode, data) is Ok
            &&& written.len() == data.len()
            &&& mode == SensorMode::Base ==> written[4] == 0 && written[5] == 85
            &&& mode == SensorMode::Competitive ==> written[4] == 1 && written[5] == 84
            &&& forall|i: int|
                0 <= i < data.len() && i != 4 && i != 5
                    ==> #[trigger] set_mode_outcome(mode, data)->Ok_0[i] == data[i]
        },
{
}

/// The mode is read from byte 4: 0 is base, 1 is competitive, anything else is refused, and so
/// is a block of fewer than six bytes.
pub proof fn law_mode_is_read_from_the_fifth_byte(data: Seq<u8>)
    requires
        data.len() <= usize::MAX,
    ensures
        data.len() >= 6 && data[4] == 0 ==> get_mode_outcome(data) == Ok::<SensorMode, Error>(
            SensorMode::Base,
        ),
        data.len() >= 6 && data[4] == 1 ==> get_mode_outcome(data) == Ok::<SensorMode, Error>(
            SensorMode::Competitive,
        ),
        data.len() >= 6 && data[4] > 1 ==> get_mode_outcome(data) == Err::<SensorMode, Error>(
            Error::UnknownMode { flag: data[4] },
        ),
        data.len() < 6 ==> (get_mode_outcome(data) matches Err(
            Error::ShortRead { address, needed, len },
        ) && address == EepromAddress::SensorEnable && needed == 6 && len == data.len()),
{
}

/// The lines about a setting tell its value.
pub proof fn law_lines_tell_the_setting(slot: u8, hz: u32, mode: SensorMode)
    ensures
        tells(select_dpi_line(slot), "Active profile switched to DPI"@, slot as int, "."@),
        tells(rate_line(hz), "Polling rate: "@, hz as int, " Hz"@),
        tells(set_rate_line(hz), "Polling rate set to "@, hz as int, " Hz."@),
        mode == SensorMode::Base ==> mode_line(mode) == "Sensor mode: "@ + "base"@
            && set_mode_line(mode) == "Sensor mode set to "@ + "base"@ + "."@,
        mode == SensorMode::Competitive ==> mode_line(mode) == "Sensor mode: "@ + "competitive"@
            && set_mode_line(mode) == "Sensor mode set to "@ + "competitive"@ + "."@,
{
    lemma_tells("Active profile switched to DPI"@, slot as nat, "."@);
    lemma_tells("Polling rate: "@, hz as nat, " Hz"@);
    lemma_tells("Polling rate set to "@, hz as nat, " Hz."@);
}

} // verus!
