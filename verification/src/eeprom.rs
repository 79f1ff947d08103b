//! Reading and writing the settings memory of the mouse, one request at a time.
//!
//! A request names an address and always states how many bytes it is about: the
//! mouse answers one without a length with an error status and no data.

use vstd::prelude::*;

use crate::error::Error;

verus! {

/// Where a group of settings starts in the memory of the mouse.
#[derive(Debug, Clone, Copy, PartialEq, Eq, Structural)]
pub enum EepromAddress {
    /// Polling interval, highest profile, active profile and more, as pairs of a
    /// value and its checksum.
    ReportRate,
    /// The profiles DPI1 and DPI2.
    DpiPair1,
    /// The profiles DPI3 and DPI4.
    DpiPair3,
    /// The profiles DPI5 and DPI6.
    DpiPair5,
    /// The profiles DPI7 and DPI8.
    DpiPair7,
    /// Sensor settings, as pairs of a value and its checksum.
    SensorEnable,
}

impl EepromAddress {
    /// The number of the address.
    pub open spec fn spec_code(self) -> u16 {
        match self {
            EepromAddress::ReportRate => 0x00,
            EepromAddress::DpiPair1 => 0x0c,
            EepromAddress::DpiPair3 => 0x14,
            EepromAddress::DpiPair5 => 0x1c,
            EepromAddress::DpiPair7 => 0x24,
            EepromAddress::SensorEnable => 0xb5,
        }
    }

    /// The number of the address.
    #[verifier::when_used_as_spec(spec_code)]
    pub fn code(self) -> (code: u16)
        ensures
            code == self.spec_code(),
    {
        match self {
            EepromAddress::ReportRate => 0x00,
            EepromAddress::DpiPair1 => 0x0c,
            EepromAddress::DpiPair3 => 0x14,
            EepromAddress::DpiPair5 => 0x1c,
            EepromAddress::DpiPair7 => 0x24,
            EepromAddress::SensorEnable => 0xb5,
        }
    }

    /// The name of the address in messages.
    pub open spec fn text(self) -> Seq<char> {
        match self {
            EepromAddress::ReportRate => "ReportRate"@,
            EepromAddress::DpiPair1 => "DpiPair1"@,
            EepromAddress::DpiPair3 => "DpiPair3"@,
            EepromAddress::DpiPair5 => "DpiPair5"@,
            EepromAddress::DpiPair7 => "DpiPair7"@,
            EepromAddress::SensorEnable => "SensorEnable"@,
        }
    }

    /// The name of the address in messages.
    pub fn name(self) -> (name: &'static str)
        ensures
            name@ == self.text(),
    {
        match self {
            EepromAddress::ReportRate => "ReportRate",
            EepromAddress::DpiPair1 => "DpiPair1",
            EepromAddress::DpiPair3 => "DpiPair3",
            EepromAddress::DpiPair5 => "DpiPair5",
            EepromAddress::DpiPair7 => "DpiPair7",
            EepromAddress::SensorEnable => "SensorEnable",
        }
    }
}

/// What a request asks the mouse to do.
#[derive(Debug, Clone, Copy, PartialEq, Eq, Structural)]
pub enum CommandId {
    /// Store the data of the request.
    SetEeprom,
    /// Hand back as many bytes as the request states.
    GetEeprom,
}

/// A request to the mouse.
#[derive(Debug)]
pub struct EepromRequest {
    pub command: CommandId,
    pub address: EepromAddress,
    pub data_len: usize,
    pub data: Vec<u8>,
}

/// A request, with its data as a sequence.
#[verifier::ext_equal]
pub struct RequestView {
    pub command: CommandId,
    pub address: EepromAddress,
    pub data_len: nat,
    pub data: Seq<u8>,
}

impl View for EepromRequest {
    type V = RequestView;

    open spec fn view(&self) -> RequestView {
        RequestView {
            command: self.command,
            address: self.address,
            data_len: self.data_len as nat,
            data: self.data@,
        }
    }
}

/// What the mouse replied to a request.
#[derive(Debug)]
pub struct EepromReply {
    /// Zero if the mouse did what it was asked to.
    pub status: u8,
    /// How many bytes of `data` are valid.
    pub data_len: usize,
    pub data: Vec<u8>,
}

/// What became of a request.
#[derive(Debug)]
pub enum Exchange {
    /// The mouse replied.
    Reply(EepromReply),
    /// The request or its reply was lost; the text says why.
    Failed(String),
}

impl Exchange {
    /// A reply without an error holds the bytes that it calls valid.
    pub open spec fn is_whole(self) -> bool {
        self matches Exchange::Reply(reply) ==> reply.status == 0 ==> reply.data_len
            <= reply.data@.len()
    }
}

/// The request to read `len` bytes.
pub open spec fn read_request_view(address: EepromAddress, len: nat) -> RequestView {
    RequestView { command: CommandId::GetEeprom, address, data_len: len, data: Seq::empty() }
}

/// The request to store `data`.
pub open spec fn write_request_view(address: EepromAddress, data: Seq<u8>) -> RequestView {
    RequestView { command: CommandId::SetEeprom, address, data_len: data.len(), data }
}

/// What a read brings in.
pub open spec fn read_outcome(address: EepromAddress, exchange: Exchange) -> Result<
    Seq<u8>,
    Error,
> {
    match exchange {
        Exchange::Failed(reason) => Err(Error::ReadFailed { address, reason }),
        Exchange::Reply(reply) => if reply.status != 0 {
            Err(Error::ReadRefused { address, status: reply.status })
        } else {
            Ok(reply.data@.take(reply.data_len as int))
        },
    }
}

/// What a write comes to.
pub open spec fn write_outcome(address: EepromAddress, exchange: Exchange) -> Result<(), Error> {
    match exchange {
        Exchange::Failed(reason) => Err(Error::WriteFailed { address, reason }),
        Exchange::Reply(reply) => if reply.status != 0 {
            Err(Error::WriteRefused { address, status: reply.status })
        } else {
            Ok(())
        },
    }
}

/// Asks for `expected_len` bytes from `address` on.
pub fn read_request(address: EepromAddress, expected_len: usize) -> (request: EepromRequest)
    ensures
        request@ == read_request_view(address, expected_len as nat),
{
    EepromRequest {
        command: CommandId::GetEeprom,
        address,
        data_len: expected_len,
        data: Vec::new(),
    }
}

/// Asks to store `data` from `address` on.
pub fn write_request(address: EepromAddress, data: Vec<u8>) -> (request: EepromRequest)
    ensures
        request@ == write_request_view(address, data@),
{
    EepromRequest { command: CommandId::SetEeprom, address, data_len: data.len(), data }
}

/// Takes the bytes out of the answer to a read of `address`.
pub fn read_eeprom(address: EepromAddress, exchange: Exchange) -> (data: Result<Vec<u8>, Error>)
    requires
        exchange.is_whole(),
    ensures
        match read_outcome(address, exchange) {
            Ok(bytes) => data is Ok && data->Ok_0@ == bytes,
            Err(error) => data == Err::<Vec<u8>, Error>(error),
        },
{
    match exchange {
        Exchange::Failed(reason) => Err(Error::ReadFailed { address, reason }),
        Exchange::Reply(reply) => {
            if reply.status != 0 {
                return Err(Error::ReadRefused { address, status: reply.status });
            }
            let mut data = reply.data;
            data.truncate(reply.data_len);
            Ok(data)
        },
    }
}

/// Looks at the answer to a write of `address`.
pub fn write_eeprom(address: EepromAddress, exchange: Exchange) -> (done: Result<(), Error>)
    ensures
        done == write_outcome(address, exchange),
{
    match exchange {
        Exchange::Failed(reason) => Err(Error::WriteFailed { address, reason }),
        Exchange::Reply(reply) => {
            if reply.status != 0 {
                return Err(Error::WriteRefused { address, status: reply.status });
            }
            Ok(())
        },
    }
}

/// The addresses and their names.
pub proof fn law_addresses_and_names(address: EepromAddress)
    ensures
        address == EepromAddress::ReportRate ==> address.spec_code() == 0 && address.text()
            == "ReportRate"@,
        address == EepromAddress::DpiPair1 ==> address.spec_code() == 12 && address.text()
            == "DpiPair1"@,
        address == EepromAddress::DpiPair3 ==> address.spec_code() == 20 && address.text()
            == "DpiPair3"@,
        address == EepromAddress::DpiPair5 ==> address.spec_code() == 28 && address.text()
            == "DpiPair5"@,
        address == EepromAddress::DpiPair7 ==> address.spec_code() == 36 && address.text()
            == "DpiPair7"@,
        address == EepromAddress::SensorEnable ==> address.spec_code() == 181 && address.text()
            == "SensorEnable"@,
{
}

/// A request is what its fields say: a request to read carries no data and states how much
/// it wants, a request to write carries its data and states how much that is.
pub proof fn law_requests_say_what_they_ask(
    request: EepromRequest,
    address: EepromAddress,
    len: nat,
    data: Seq<u8>,
)
    ensures
        request@.command == request.command,
        request@.address == request.address,
        request@.data_len == request.data_len,
        request@.data == request.data@,
        ({
            let read = read_request_view(address, len);
            &&& read.command == CommandId::GetEeprom
            &&& read.address == address
            &&& read.data_len == len
            &&& read.data.len() == 0
        }),
        ({
            let write = write_request_view(address, data);
            &&& write.command == CommandId::SetEeprom
            &&& write.address == address
            &&& write.data_len == data.len()
            &&& write.data == data
        }),
{
}

/// A read brings in data if and only if the reply has status 0: the valid bytes of the reply,
/// one by one. Otherwise the error names the address, and the status or the reason.
pub proof fn law_read_brings_in_the_valid_bytes(address: EepromAddress, exchange: Exchange)
    requires
        exchange matches Exchange::Reply(reply) ==> reply.status == 0 ==> reply.data_len
            <= reply.data@.len(),
    ensures
        exchange.is_whole(),
        read_outcome(address, exchange) is Ok <==> (exchange matches Exchange::Reply(reply)
            && reply.status == 0),
        exchange matches Exchange::Reply(reply) ==> if reply.status == 0 {
            let data = read_outcome(address, exchange)->Ok_0;
            &&& data.len() == reply.data_len
            &&& forall|i: int| 0 <= i < reply.data_len ==> data[i] == reply.data@[i]
        } else {
            read_outcome(address, exchange) == Err::<Seq<u8>, Error>(
                Error::ReadRefused { address, status: reply.status },
            )
        },
        exchange matches Exchange::Failed(reason) ==> read_outcome(address, exchange) == Err::<
            Seq<u8>,
            Error,
        >(Error::ReadFailed { address, reason }),
{
}

/// A write is done if and only if the reply has status 0. Otherwise the error names the
/// address, and the status or the reason.
pub proof fn law_write_is_done_on_status_zero(address: EepromAddress, exchange: Exchange)
    ensures
        write_outcome(address, exchange) is Ok <==> (exchange matches Exchange::Reply(reply)
            && reply.status == 0),
        exchange matches Exchange::Reply(reply) ==> reply.status != 0 ==> write_outcome(
            address,
            exchange,
        ) == Err::<(), Error>(Error::WriteRefused { address, status: reply.status }),
        exchange matches Exchange::Failed(reason) ==> write_outcome(address, exchange) == Err::<
            (),
            Error,
        >(Error::WriteFailed { address, reason }),
{
}

} // verus!
