//! Changes of a setting: read the block that the setting belongs to, replace the bytes
//! of the setting, write the block back.

use vstd::prelude::*;

use crate::eeprom::{
    read_request_view, write_request_view, EepromAddress, EepromRequest, RequestView,
};
use crate::error::Error;
use crate::profile::{
    is_slot, set_dpi_line, set_dpi_message, set_dpi_outcome, set_dpi_request, set_dpi_update,
    slot_address, slot_offset, DPI_PAIR_ADDRESSES, PAIR_LEN,
};
use crate::settings::{
    is_rate, select_dpi_line, select_dpi_message, select_dpi_outcome, select_dpi_request,
    select_dpi_update, sensor_request, set_mode_line, set_mode_message, set_mode_outcome,
    set_mode_update, set_rate_line, set_rate_message, set_rate_outcome, set_rate_request,
    set_rate_update, SensorMode, CURRENT_DPI_OFFSET, INTERVAL_OFFSET, MODE_OFFSET,
    REPORT_RATE_LEN, SENSOR_LEN,
};

verus! {

/// A change of one setting.
#[derive(Debug, Clone, Copy, PartialEq, Eq, Structural)]
pub enum Change {
    /// The resolution of one profile.
    Dpi { slot: u8, value: u32 },
    /// Which profile is active.
    ActiveProfile { slot: u8 },
    /// The polling rate.
    Rate { hz: u32 },
    /// The sensor mode.
    Mode { mode: SensorMode },
}

impl Change {
    /// What is wrong with the change whatever the memory of the mouse holds, if
    /// anything is.
    pub open spec fn refusal(self) -> Option<Error> {
        match self {
            Change::Dpi { slot, .. } | Change::ActiveProfile { slot } => if is_slot(slot as int) {
                None
            } else {
                Some(Error::BadSlot { slot })
            },
            Change::Rate { hz } => if is_rate(hz as int) {
                None
            } else {
                Some(Error::BadRate { hz })
            },
            Change::Mode { .. } => None,
        }
    }

    /// The address of the block that the setting belongs to.
    pub open spec fn block_address(self) -> EepromAddress {
        match self {
            Change::Dpi { slot, .. } => slot_address(slot as int),
            Change::Mode { .. } => EepromAddress::SensorEnable,
            _ => EepromAddress::ReportRate,
        }
    }

    /// How many bytes the block takes.
    pub open spec fn block_len(self) -> nat {
        match self {
            Change::Dpi { .. } => PAIR_LEN as nat,
            Change::Mode { .. } => SENSOR_LEN as nat,
            _ => REPORT_RATE_LEN as nat,
        }
    }

    /// Where the setting starts in its block.
    pub open spec fn offset(self) -> int {
        match self {
            Change::Dpi { slot, .. } => slot_offset(slot as int),
            Change::ActiveProfile { .. } => CURRENT_DPI_OFFSET as int,
            Change::Rate { .. } => INTERVAL_OFFSET as int,
            Change::Mode { .. } => MODE_OFFSET as int,
        }
    }

    /// How many bytes the setting takes.
    pub open spec fn width(self) -> int {
        match self {
            Change::Dpi { .. } => 4,
            _ => 2,
        }
    }

    /// The bytes that are written back when the block reads `data`.
    pub open spec fn outcome(self, data: Seq<u8>) -> Result<Seq<u8>, Error> {
        match self {
            Change::Dpi { slot, value } => set_dpi_outcome(slot, value, data),
            Change::ActiveProfile { slot } => select_dpi_outcome(slot, data),
            Change::Rate { hz } => set_rate_outcome(hz, data),
            Change::Mode { mode } => set_mode_outcome(mode, data),
        }
    }

    /// What is shown once the change is made.
    pub open spec fn line(self) -> Seq<char> {
        match self {
            Change::Dpi { slot, value } => set_dpi_line(slot, value),
            Change::ActiveProfile { slot } => select_dpi_line(slot),
            Change::Rate { hz } => set_rate_line(hz),
            Change::Mode { mode } => set_mode_line(mode),
        }
    }

    /// The request that reads the whole block.
    pub open spec fn read_view(self) -> RequestView {
        read_request_view(self.block_address(), self.block_len())
    }

    /// The address of the block that the setting belongs to.
    pub fn address(self) -> (address: EepromAddress)
        requires
            self.refusal() is None,
        ensures
            address == self.block_address(),
    {
        match self {
            Change::Dpi { slot, .. } => DPI_PAIR_ADDRESSES[((slot - 1) / 2) as usize],
            Change::Mode { .. } => EepromAddress::SensorEnable,
            _ => EepromAddress::ReportRate,
        }
    }

    /// The request that reads the whole block.
    pub fn request(self) -> (request: Result<EepromRequest, Error>)
        ensures
            match self.refusal() {
                None => request is Ok && request->Ok_0@ == self.read_view(),
                Some(error) => request == Err::<EepromRequest, Error>(error),
            },
    {
        match self {
            Change::Dpi { slot, .. } => set_dpi_request(slot),
            Change::ActiveProfile { slot } => select_dpi_request(slot),
            Change::Rate { hz } => set_rate_request(hz),
            Change::Mode { .. } => Ok(sensor_request()),
        }
    }

    /// The request that writes the block back when it reads `data`.
    pub fn update(self, data: Vec<u8>) -> (request: Result<EepromRequest, Error>)
        ensures
            match self.outcome(data@) {
                Ok(bytes) => request is Ok && request->Ok_0@ == write_request_view(
                    self.block_address(),
                    bytes,
                ),
                Err(error) => request == Err::<EepromRequest, Error>(error),
            },
    {
        match self {
            Change::Dpi { slot, value } => set_dpi_update(slot, value, data),
            Change::ActiveProfile { slot } => select_dpi_update(slot, data),
            Change::Rate { hz } => set_rate_update(hz, data),
            Change::Mode { mode } => set_mode_update(mode, data),
        }
    }

    /// What to show once the change is made.
    pub fn message(self) -> (line: String)
        ensures
            line@ == self.line(),
    {
        match self {
            Change::Dpi { slot, value } => set_dpi_message(slot, value),
            Change::ActiveProfile { slot } => select_dpi_message(slot),
            Change::Rate { hz } => set_rate_message(hz),
            Change::Mode { mode } => set_mode_message(mode),
        }
    }
}

} // verus!
