//! What can go wrong, and what is said of it.

use vstd::prelude::*;

use crate::eeprom::EepromAddress;
use crate::text::{
    decimal, hex4, is_decimal_of, is_hex4_of, law_decimal_reads_back, law_hex4_reads_back,
    lemma_tells, push_decimal, push_hex4, tells,
};

verus! {

/// Why a command was not carried out.
#[derive(Debug)]
pub enum Error {
    /// A resolution that is zero or no multiple of the step.
    NotAStep { dpi: u32 },
    /// A resolution whose index has no room in a block.
    TooLarge { idx: u32 },
    /// A resolution that the mouse does not offer.
    OutOfRange { dpi: u32 },
    /// A number that no profile has.
    BadSlot { slot: u8 },
    /// A polling rate that the mouse does not offer.
    BadRate { hz: u32 },
    /// A polling interval that stands for no known rate.
    UnknownInterval { interval: u8 },
    /// A flag that stands for no known sensor mode.
    UnknownMode { flag: u8 },
    /// A pair of profiles came in too short to be written back.
    ShortPair { address: EepromAddress, len: usize },
    /// The block that holds the active profile came in too short to be written back.
    ShortSelection { len: usize },
    /// A block of settings came in too short to be written back.
    ShortBlock { address: EepromAddress, needed: usize, len: usize },
    /// A block of settings came in without the setting that was asked for.
    ShortRead { address: EepromAddress, needed: usize, len: usize },
    /// A read that was lost.
    ReadFailed { address: EepromAddress, reason: String },
    /// A read that the mouse refused.
    ReadRefused { address: EepromAddress, status: u8 },
    /// A write that was lost.
    WriteFailed { address: EepromAddress, reason: String },
    /// A write that the mouse refused.
    WriteRefused { address: EepromAddress, status: u8 },
    /// No connected device looks like an ATK/VXE mouse.
    NoDevice,
    /// None of the known interfaces answered.
    NoInterface { vid: u16, pid: u16 },
    /// The interface that was asked for could not be opened.
    OpenFailed { vid: u16, pid: u16, usage_page: u16, usage: u16, reason: String },
}

impl Error {
    /// The text of the error.
    pub open spec fn text(self) -> Seq<char> {
        match self {
            Error::NotAStep { dpi } => {
                "DPI must be a multiple of 50 and at least 50, got "@ + decimal(dpi as nat)
            },
            Error::TooLarge { idx } => {
                "DPI is too large to encode (idx="@ + decimal(idx as nat) + ")"@
            },
            Error::OutOfRange { dpi } => {
                "DPI must be in the range 100-30000, got "@ + decimal(dpi as nat)
            },
            Error::BadSlot { slot } => {
                "Profile number must be between 1 and 8, got "@ + decimal(slot as nat)
            },
            Error::BadRate { hz } => {
                "Polling rate must be one of 125, 250, 500, 1000, got "@ + decimal(hz as nat)
            },
            Error::UnknownInterval { interval } => {
                "Unknown polling interval: "@ + decimal(interval as nat) + " ms"@
            },
            Error::UnknownMode { flag } => { "Unknown sensor mode: "@ + decimal(flag as nat) },
            Error::ShortPair { address, len } => {
                "Expected 8 bytes of data when reading "@ + address.text()
                    + " before writing, got "@ + decimal(len as nat)
                    + ". Aborting to avoid losing the neighboring profile."@
            },
            Error::ShortSelection { len } => {
                "Expected at least 6 bytes of data when reading the ReportRate/CurrentDpi block before writing, got "@
                    + decimal(len as nat) + ". Aborting to avoid losing other settings."@
            },
            Error::ShortBlock { address, needed, len } => {
                "Expected at least "@ + decimal(needed as nat) + " bytes of data when reading "@
                    + address.text() + " before writing, got "@ + decimal(len as nat)
                    + ". Aborting to avoid losing other settings."@
            },
            Error::ShortRead { address, needed, len } => {
                "Expected at least "@ + decimal(needed as nat) + " bytes of data when reading "@
                    + address.text() + ", got "@ + decimal(len as nat)
            },
            Error::ReadFailed { address, reason } => {
                "error reading EEPROM "@ + address.text() + ": "@ + reason@
            },
            Error::ReadRefused { address, status } => {
                "device returned an error while reading EEPROM "@ + address.text() + ": status="@
                    + decimal(status as nat)
            },
            Error::WriteFailed { address, reason } => {
                "error writing EEPROM "@ + address.text() + ": "@ + reason@
            },
            Error::WriteRefused { address, status } => {
                "device returned an error while writing EEPROM "@ + address.text() + ": status="@
                    + decimal(status as nat)
            },
            Error::NoDevice => {
                "Could not automatically detect the device. Run `atk-dpi list`, find your mouse and pass --vid/--pid explicitly."@
            },
            Error::NoInterface { vid, pid } => {
                "Could not find a working HID interface among the known candidates for device "@
                    + hex4(vid) + ":"@ + hex4(pid)
                    + ". Run `atk-dpi list`, find the vendor-specific interface (usage_page is usually 0xffXX), and pass it explicitly via --usage-page/--usage."@
            },
            Error::OpenFailed { vid, pid, usage_page, usage, reason } => {
                "failed to open device "@ + hex4(vid) + ":"@ + hex4(pid) + " (usage_page=0x"@
                    + hex4(usage_page) + ", usage=0x"@ + hex4(usage) + "): "@ + reason@
                    + "\nTry `atk-dpi list` to see the actual usage_page/usage values for all interfaces of this device."@
            },
        }
    }

    /// The message to show.
    pub fn message(&self) -> (message: String)
        ensures
            message@ == self.text(),
    {
        let mut out = String::new();
        assert(forall|s: Seq<char>| #![auto] Seq::<char>::empty() + s =~= s);
        match self {
            Error::NotAStep { dpi } => {
                out.append("DPI must be a multiple of 50 and at least 50, got ");
                push_decimal(&mut out, *dpi as u64);
            },
            Error::TooLarge { idx } => {
                out.append("DPI is too large to encode (idx=");
                push_decimal(&mut out, *idx as u64);
                out.append(")");
            },
            Error::OutOfRange { dpi } => {
                out.append("DPI must be in the range 100-30000, got ");
                push_decimal(&mut out, *dpi as u64);
            },
            Error::BadSlot { slot } => {
                out.append("Profile number must be between 1 and 8, got ");
                push_decimal(&mut out, *slot as u64);
            },
            Error::BadRate { hz } => {
                out.append("Polling rate must be one of 125, 250, 500, 1000, got ");
                push_decimal(&mut out, *hz as u64);
            },
            Error::UnknownInterval { interval } => {
                out.append("Unknown polling interval: ");
                push_decimal(&mut out, *interval as u64);
                out.append(" ms");
            },
            Error::UnknownMode { flag } => {
                out.append("Unknown sensor mode: ");
                push_decimal(&mut out, *flag as u64);
            },
            Error::ShortPair { address, len } => {
                out.append("Expected 8 bytes of data when reading ");
                out.append(address.name());
                out.append(" before writing, got ");
                push_decimal(&mut out, *len as u64);
                out.append(". Aborting to avoid losing the neighboring profile.");
            },
            Error::ShortSelection { len } => {
                out.append(
                    "Expected at least 6 bytes of data when reading the ReportRate/CurrentDpi block before writing, got ",
                );
                push_decimal(&mut out, *len as u64);
                out.append(". Aborting to avoid losing other settings.");
            },
            Error::ShortBlock { address, needed, len } => {
                out.append("Expected at least ");
                push_decimal(&mut out, *needed as u64);
                out.append(" bytes of data when reading ");
                out.append(address.name());
                out.append(" before writing, got ");
                push_decimal(&mut out, *len as u64);
                out.append(". Aborting to avoid losing other settings.");
            },
            Error::ShortRead { address, needed, len } => {
                out.append("Expected at least ");
                push_decimal(&mut out, *needed as u64);
                out.append(" bytes of data when reading ");
                out.append(address.name());
                out.append(", got ");
                push_decimal(&mut out, *len as u64);
            },
            Error::ReadFailed { address, reason } => {
                out.append("error reading EEPROM ");
                out.append(address.name());
                out.append(": ");
                out.append(reason.as_str());
            },
            Error::ReadRefused { address, status } => {
                out.append("device returned an error while reading EEPROM ");
                out.append(address.name());
                out.append(": status=");
                push_decimal(&mut out, *status as u64);
            },
            Error::WriteFailed { address, reason } => {
                out.append("error writing EEPROM ");
                out.append(address.name());
                out.append(": ");
                out.append(reason.as_str());
            },
            Error::WriteRefused { address, status } => {
                out.append("device returned an error while writing EEPROM ");
                out.append(address.name());
                out.append(": status=");
                push_decimal(&mut out, *status as u64);
            },
            Error::NoDevice => {
                out.append(
                    "Could not automatically detect the device. Run `atk-dpi list`, find your mouse and pass --vid/--pid explicitly.",
                );
            },
            Error::NoInterface { vid, pid } => {
                out.append(
                    "Could not find a working HID interface among the known candidates for device ",
                );
                push_hex4(&mut out, *vid);
                out.append(":");
                push_hex4(&mut out, *pid);
                out.append(
                    ". Run `atk-dpi list`, find the vendor-specific interface (usage_page is usually 0xffXX), and pass it explicitly via --usage-page/--usage.",
                );
            },
            Error::OpenFailed { vid, pid, usage_page, usage, reason } => {
                out.append("failed to open device ");
                push_hex4(&mut out, *vid);
                out.append(":");
                push_hex4(&mut out, *pid);
                out.append(" (usage_page=0x");
                push_hex4(&mut out, *usage_page);
                out.append(", usage=0x");
                push_hex4(&mut out, *usage);
                out.append("): ");
                out.append(reason.as_str());
                out.append(
                    "\nTry `atk-dpi list` to see the actual usage_page/usage values for all interfaces of this device.",
                );
            },
        }
        out
    }
}

/// The message of an error about a value tells that value, in decimal.
pub proof fn law_message_tells_the_value(error: Error)
    ensures
        error matches Error::NotAStep { dpi } ==> tells(
            error.text(),
            "DPI must be a multiple of 50 and at least 50, got "@,
            dpi as int,
            Seq::empty(),
        ),
        error matches Error::TooLarge { idx } ==> tells(
            error.text(),
            "DPI is too large to encode (idx="@,
            idx as int,
            ")"@,
        ),
        error matches Error::OutOfRange { dpi } ==> tells(
            error.text(),
            "DPI must be in the range 100-30000, got "@,
            dpi as int,
            Seq::empty(),
        ),
        error matches Error::BadSlot { slot } ==> tells(
            error.text(),
            "Profile number must be between 1 and 8, got "@,
            slot as int,
            Seq::empty(),
        ),
        error matches Error::BadRate { hz } ==> tells(
            error.text(),
            "Polling rate must be one of 125, 250, 500, 1000, got "@,
            hz as int,
            Seq::empty(),
        ),
        error matches Error::UnknownInterval { interval } ==> tells(
            error.text(),
            "Unknown polling interval: "@,
            interval as int,
            " ms"@,
        ),
        error matches Error::UnknownMode { flag } ==> tells(
            error.text(),
            "Unknown sensor mode: "@,
            flag as int,
            Seq::empty(),
        ),
{
    match error {
        Error::NotAStep { dpi } => {
            lemma_tells(
                "DPI must be a multiple of 50 and at least 50, got "@,
                dpi as nat,
                Seq::empty(),
            );
        },
        Error::TooLarge { idx } => {
            lemma_tells("DPI is too large to encode (idx="@, idx as nat, ")"@);
        },
        Error::OutOfRange { dpi } => {
            lemma_tells("DPI must be in the range 100-30000, got "@, dpi as nat, Seq::empty());
        },
        Error::BadSlot { slot } => {
            lemma_tells("Profile number must be between 1 and 8, got "@, slot as nat, Seq::empty());
        },
        Error::BadRate { hz } => {
            lemma_tells(
                "Polling rate must be one of 125, 250, 500, 1000, got "@,
                hz as nat,
                Seq::empty(),
            );
        },
        Error::UnknownInterval { interval } => {
            lemma_tells("Unknown polling interval: "@, interval as nat, " ms"@);
        },
        Error::UnknownMode { flag } => {
            lemma_tells("Unknown sensor mode: "@, flag as nat, Seq::empty());
        },
        _ => {},
    }
}

/// The message of an error about an exchange names the address, and tells the status, the
/// reason or how many bytes came in.
pub proof fn law_message_tells_what_came_in(error: Error)
    ensures
        error matches Error::ShortPair { address, len } ==> tells(
            error.text(),
            "Expected 8 bytes of data when reading "@ + address.text() + " before writing, got "@,
            len as int,
            ". Aborting to avoid losing the neighboring profile."@,
        ),
        error matches Error::ShortSelection { len } ==> tells(
            error.text(),
            "Expected at least 6 bytes of data when reading the ReportRate/CurrentDpi block before writing, got "@,
            len as int,
            ". Aborting to avoid losing other settings."@,
        ),
        error matches Error::ShortBlock { address, needed, len } ==> exists|s: Seq<char>|
            #[trigger] is_decimal_of(s, needed as int) && tells(
                error.text(),
                "Expected at least "@ + s + " bytes of data when reading "@ + address.text()
                    + " before writing, got "@,
                len as int,
                ". Aborting to avoid losing other settings."@,
            ),
        error matches Error::ShortRead { address, needed, len } ==> exists|s: Seq<char>|
            #[trigger] is_decimal_of(s, needed as int) && tells(
                error.text(),
                "Expected at least "@ + s + " bytes of data when reading "@ + address.text()
                    + ", got "@,
                len as int,
                Seq::empty(),
            ),
        error matches Error::ReadRefused { address, status } ==> tells(
            error.text(),
            "device returned an error while reading EEPROM "@ + address.text() + ": status="@,
            status as int,
            Seq::empty(),
        ),
        error matches Error::WriteRefused { address, status } ==> tells(
            error.text(),
            "device returned an error while writing EEPROM "@ + address.text() + ": status="@,
            status as int,
            Seq::empty(),
        ),
        error matches Error::ReadFailed { address, reason } ==> error.text()
            == "error reading EEPROM "@ + address.text() + ": "@ + reason@,
        error matches Error::WriteFailed { address, reason } ==> error.text()
            == "error writing EEPROM "@ + address.text() + ": "@ + reason@,
{
    match error {
        Error::ShortPair { address, len } => {
            lemma_tells(
                "Expected 8 bytes of data when reading "@ + address.text()
                    + " before writing, got "@,
                len as nat,
                ". Aborting to avoid losing the neighboring profile."@,
            );
        },
        Error::ShortSelection { len } => {
            lemma_tells(
                "Expected at least 6 bytes of data when reading the ReportRate/CurrentDpi block before writing, got "@,
                len as nat,
                ". Aborting to avoid losing other settings."@,
            );
        },
        Error::ShortBlock { address, needed, len } => {
            law_decimal_reads_back(needed as nat);
            lemma_tells(
                "Expected at least "@ + decimal(needed as nat) + " bytes of data when reading "@
                    + address.text() + " before writing, got "@,
                len as nat,
                ". Aborting to avoid losing other settings."@,
            );
        },
        Error::ShortRead { address, needed, len } => {
            law_decimal_reads_back(needed as nat);
            lemma_tells(
                "Expected at least "@ + decimal(needed as nat) + " bytes of data when reading "@
                    + address.text() + ", got "@,
                len as nat,
                Seq::empty(),
            );
        },
        Error::ReadRefused { address, status } => {
            lemma_tells(
                "device returned an error while reading EEPROM "@ + address.text() + ": status="@,
                status as nat,
                Seq::empty(),
            );
        },
        Error::WriteRefused { address, status } => {
            lemma_tells(
                "device returned an error while writing EEPROM "@ + address.text() + ": status="@,
                status as nat,
                Seq::empty(),
            );
        },
        _ => {},
    }
}

/// The message of an error about a device names its identifiers, in four hexadecimal digits
/// each.
pub proof fn law_message_names_the_device(error: Error)
    ensures
        error matches Error::NoInterface { vid, pid } ==> exists|v: Seq<char>, p: Seq<char>|
            #[trigger] is_hex4_of(v, vid as int) && #[trigger] is_hex4_of(p, pid as int)
                && error.text()
                == "Could not find a working HID interface among the known candidates for device "@
                + v + ":"@ + p
                + ". Run `atk-dpi list`, find the vendor-specific interface (usage_page is usually 0xffXX), and pass it explicitly via --usage-page/--usage."@,
        error matches Error::OpenFailed { vid, pid, usage_page, usage, reason } ==> exists|
            v: Seq<char>,
            p: Seq<char>,
            g: Seq<char>,
            u: Seq<char>,
        |
            #[trigger] is_hex4_of(v, vid as int) && #[trigger] is_hex4_of(p, pid as int)
                && #[trigger] is_hex4_of(g, usage_page as int) && #[trigger] is_hex4_of(
                u,
                usage as int,
            ) && error.text() == "failed to open device "@ + v + ":"@ + p + " (usage_page=0x"@ + g
                + ", usage=0x"@ + u + "): "@ + reason@
                + "\nTry `atk-dpi list` to see the actual usage_page/usage values for all interfaces of this device."@,
{
    match error {
        Error::NoInterface { vid, pid } => {
            law_hex4_reads_back(vid);
            law_hex4_reads_back(pid);
        },
        Error::OpenFailed { vid, pid, usage_page, usage, reason } => {
            law_hex4_reads_back(vid);
            law_hex4_reads_back(pid);
            law_hex4_reads_back(usage_page);
            law_hex4_reads_back(usage);
        },
        _ => {},
    }
}

} // verus!
