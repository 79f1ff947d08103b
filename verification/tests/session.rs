use atk_dpi::change::Change;
use atk_dpi::eeprom::{
    read_eeprom, write_eeprom, CommandId, EepromAddress, EepromReply, EepromRequest, Exchange,
};
use atk_dpi::error::Error;
use atk_dpi::session::{resume, start, Command, Next};
use atk_dpi::settings::{decode_polling_rate, encode_polling_rate, SensorMode};

/// A mouse that serves every request.
struct Mouse {
    memory: Vec<u8>,
    writes: usize,
}

impl Mouse {
    fn new() -> Mouse {
        let mut memory: Vec<u8> = (0..0x100).map(|i| (i * 7 + 3) as u8).collect();
        for slot in 1..=8u32 {
            let block = atk_dpi::dpi::encode_dpi_block(slot * 400).unwrap();
            let at = 0x0c + 4 * (slot as usize - 1);
            memory[at..at + 4].copy_from_slice(&block);
        }
        Mouse { memory, writes: 0 }
    }

    fn serve(&mut self, request: &EepromRequest) -> Exchange {
        let at = request.address.code() as usize;
        assert!(request.data_len > 0);
        let data = match request.command {
            CommandId::GetEeprom => self.memory[at..at + request.data_len].to_vec(),
            CommandId::SetEeprom => {
                assert_eq!(request.data_len, request.data.len());
                self.memory[at..at + request.data_len].copy_from_slice(&request.data);
                self.writes += 1;
                vec![]
            }
        };
        Exchange::Reply(EepromReply { status: 0, data_len: data.len(), data })
    }
}

/// Carries out a command; the answer to the request with the given number is replaced.
fn carry_out_with(
    mouse: &mut Mouse,
    command: Command,
    replaced: usize,
    answer: impl Fn() -> Exchange,
) -> (Vec<String>, Result<(), Error>) {
    let mut lines = Vec::new();
    let mut step = start(command);
    let mut count = 0;
    loop {
        lines.extend(step.lines);
        match step.next {
            Next::Done => return (lines, Ok(())),
            Next::Failed(error) => return (lines, Err(error)),
            Next::Send { session, request } => {
                let exchange = if count == replaced { answer() } else { mouse.serve(&request) };
                count += 1;
                assert!(count <= 4);
                step = resume(session, exchange);
            }
        }
    }
}

fn carry_out(mouse: &mut Mouse, command: Command) -> (Vec<String>, Result<(), Error>) {
    carry_out_with(mouse, command, usize::MAX, || Exchange::Failed(String::new()))
}

fn reply(status: u8, data: Vec<u8>) -> Exchange {
    Exchange::Reply(EepromReply { status, data_len: data.len(), data })
}

fn changed_bytes(before: &[u8], after: &[u8]) -> Vec<usize> {
    assert_eq!(before.len(), after.len());
    (0..before.len()).filter(|&i| before[i] != after[i]).collect()
}

#[test]
fn addresses_of_the_settings() {
    assert_eq!(EepromAddress::ReportRate.code(), 0x00);
    assert_eq!(EepromAddress::DpiPair1.code(), 0x0c);
    assert_eq!(EepromAddress::DpiPair3.code(), 0x14);
    assert_eq!(EepromAddress::DpiPair5.code(), 0x1c);
    assert_eq!(EepromAddress::DpiPair7.code(), 0x24);
    assert_eq!(EepromAddress::SensorEnable.code(), 0xb5);
    assert_eq!(EepromAddress::SensorEnable.name(), "SensorEnable");
}

#[test]
fn get_shows_all_profiles() {
    let mut mouse = Mouse::new();
    let (lines, end) = carry_out(&mut mouse, Command::GetDpi);
    assert!(end.is_ok());
    assert_eq!(mouse.writes, 0);
    let expected: Vec<String> = (1..=8).map(|n| format!("DPI{n}: {} dpi", n * 400)).collect();
    assert_eq!(lines, expected);
}

#[test]
fn get_skips_a_short_pair() {
    let mut mouse = Mouse::new();
    let (lines, end) = carry_out_with(&mut mouse, Command::GetDpi, 1, || reply(0, vec![1; 7]));
    assert!(end.is_ok());
    assert_eq!(lines.len(), 7);
    assert_eq!(lines[1], "DPI2: 800 dpi");
    assert_eq!(lines[2], "Profiles 3/4: received fewer than 8 bytes of data (7), skipping");
    assert_eq!(lines[3], "DPI5: 2000 dpi");
}

#[test]
fn get_keeps_what_it_showed_before_an_error() {
    let mut mouse = Mouse::new();
    let (lines, end) = carry_out_with(&mut mouse, Command::GetDpi, 1, || reply(1, vec![]));
    assert_eq!(lines, vec!["DPI1: 400 dpi".to_string(), "DPI2: 800 dpi".to_string()]);
    assert_eq!(
        end.unwrap_err().message(),
        "device returned an error while reading EEPROM DpiPair3: status=1"
    );
}

#[test]
fn set_changes_one_profile_alone() {
    for slot in 1..=8u8 {
        let mut mouse = Mouse::new();
        let before = mouse.memory.clone();
        let change = Change::Dpi { slot, value: 13000 };
        let (lines, end) = carry_out(&mut mouse, Command::Apply(change));
        assert!(end.is_ok());
        assert_eq!(lines, vec![format!("DPI{slot} set to 13000 dpi.")]);
        assert_eq!(mouse.writes, 1);
        let at = 0x0c + 4 * (slot as usize - 1);
        assert_eq!(mouse.memory[at..at + 4].to_vec(), vec![0x03, 0x03, 0x44, 0x0b]);
        assert!(changed_bytes(&before, &mouse.memory).iter().all(|&i| at <= i && i < at + 4));
        let (shown, _) = carry_out(&mut mouse, Command::GetDpi);
        for n in 1..=8u8 {
            let dpi = if n == slot { 13000 } else { n as u32 * 400 };
            assert_eq!(shown[n as usize - 1], format!("DPI{n}: {dpi} dpi"));
        }
    }
}

#[test]
fn set_writes_back_all_that_came_in() {
    let data: Vec<u8> = (10..20).collect();
    let change = Change::Dpi { slot: 2, value: 100 };
    let request = change.update(data).unwrap();
    assert_eq!(request.command, CommandId::SetEeprom);
    assert_eq!(request.address, EepromAddress::DpiPair1);
    assert_eq!(request.data_len, 10);
    assert_eq!(request.data, vec![10, 11, 12, 13, 0x01, 0x01, 0x00, 0x53, 18, 19]);
}

#[test]
fn set_refuses_slots_that_do_not_exist() {
    for slot in [0, 9, 255] {
        let mut mouse = Mouse::new();
        let change = Change::Dpi { slot, value: 1200 };
        let (lines, end) = carry_out(&mut mouse, Command::Apply(change));
        assert!(lines.is_empty());
        let error = end.unwrap_err();
        assert!(matches!(error, Error::BadSlot { .. }));
        assert_eq!(
            error.message(),
            format!("Profile number must be between 1 and 8, got {slot}")
        );
        assert!(matches!(change.update(vec![0; 8]), Err(Error::BadSlot { .. })));
    }
}

#[test]
fn set_refuses_resolutions_that_are_not_on_offer() {
    for (value, message) in [
        (1234, "DPI must be a multiple of 50 and at least 50, got 1234"),
        (0, "DPI must be a multiple of 50 and at least 50, got 0"),
        (50, "DPI must be in the range 100-30000, got 50"),
        (30050, "DPI must be in the range 100-30000, got 30050"),
        (3276850, "DPI must be in the range 100-30000, got 3276850"),
        (51250, "DPI is too large to encode (idx=1024)"),
    ] {
        let mut mouse = Mouse::new();
        let before = mouse.memory.clone();
        let (lines, end) = carry_out(&mut mouse, Command::Apply(Change::Dpi { slot: 5, value }));
        assert!(lines.is_empty());
        assert_eq!(end.unwrap_err().message(), message);
        assert_eq!(mouse.memory, before);
        assert_eq!(mouse.writes, 0);
    }
    for value in [100, 30000] {
        let mut mouse = Mouse::new();
        let (_, end) = carry_out(&mut mouse, Command::Apply(Change::Dpi { slot: 5, value }));
        assert!(end.is_ok());
    }
}

#[test]
fn set_refuses_a_short_pair_before_it_looks_at_the_value() {
    let mut mouse = Mouse::new();
    let command = Command::Apply(Change::Dpi { slot: 4, value: 1234 });
    let (_, end) = carry_out_with(&mut mouse, command, 0, || reply(0, vec![0; 7]));
    let error = end.unwrap_err();
    assert!(matches!(error, Error::ShortPair { address: EepromAddress::DpiPair3, len: 7 }));
    assert_eq!(
        error.message(),
        "Expected 8 bytes of data when reading DpiPair3 before writing, got 7. \
         Aborting to avoid losing the neighboring profile."
    );
    assert_eq!(mouse.writes, 0);
}

#[test]
fn lost_and_refused_requests_end_the_conversation() {
    let command = Command::Apply(Change::Dpi { slot: 7, value: 1200 });
    for (number, status, message) in [
        (0, None, "error reading EEPROM DpiPair7: timeout"),
        (0, Some(3), "device returned an error while reading EEPROM DpiPair7: status=3"),
        (1, None, "error writing EEPROM DpiPair7: timeout"),
        (1, Some(255), "device returned an error while writing EEPROM DpiPair7: status=255"),
    ] {
        let mut mouse = Mouse::new();
        let before = mouse.memory.clone();
        let (lines, end) = carry_out_with(&mut mouse, command, number, || match status {
            None => Exchange::Failed("timeout".to_string()),
            Some(status) => reply(status, vec![0; 8]),
        });
        assert!(lines.is_empty());
        assert_eq!(end.unwrap_err().message(), message);
        assert_eq!(mouse.memory, before);
    }
}

#[test]
fn a_write_whose_answer_is_lost_keeps_the_other_profiles() {
    for slot in 1..=8u8 {
        let mut mouse = Mouse::new();
        let before = mouse.memory.clone();
        let mut step = start(Command::Apply(Change::Dpi { slot, value: 20000 }));
        while let Next::Send { session, request } = step.next {
            let served = mouse.serve(&request);
            step = resume(
                session,
                match request.command {
                    CommandId::GetEeprom => served,
                    CommandId::SetEeprom => Exchange::Failed("timeout".to_string()),
                },
            );
        }
        assert!(matches!(step.next, Next::Failed(Error::WriteFailed { .. })));
        let at = 0x0c + 4 * (slot as usize - 1);
        assert_eq!(mouse.memory[at..at + 4].to_vec(), vec![0x8f, 0x8f, 0x44, 0xf3]);
        assert!(changed_bytes(&before, &mouse.memory).iter().all(|&i| at <= i && i < at + 4));
    }
}

#[test]
fn a_read_that_brings_in_more_keeps_the_other_profiles() {
    let mut mouse = Mouse::new();
    let before = mouse.memory.clone();
    let longer = before[0x14..0x14 + 10].to_vec();
    let command = Command::Apply(Change::Dpi { slot: 4, value: 20000 });
    let (_, end) = carry_out_with(&mut mouse, command, 0, || reply(0, longer.clone()));
    assert!(end.is_ok());
    assert_eq!(mouse.memory[0x18..0x1c].to_vec(), vec![0x8f, 0x8f, 0x44, 0xf3]);
    assert!(changed_bytes(&before, &mouse.memory).iter().all(|&i| 0x18 <= i && i < 0x1c));
}

#[test]
fn select_changes_the_active_profile_alone() {
    for slot in 1..=8u8 {
        let mut mouse = Mouse::new();
        let before = mouse.memory.clone();
        let change = Change::ActiveProfile { slot };
        let (lines, end) = carry_out(&mut mouse, Command::Apply(change));
        assert!(end.is_ok());
        assert_eq!(lines, vec![format!("Active profile switched to DPI{slot}.")]);
        assert_eq!(mouse.memory[4], slot - 1);
        assert_eq!(mouse.memory[5], 0x55 - (slot - 1));
        assert!(changed_bytes(&before, &mouse.memory).iter().all(|&i| i == 4 || i == 5));
    }
}

#[test]
fn select_refuses_what_set_refuses() {
    let mut mouse = Mouse::new();
    let (_, end) = carry_out(&mut mouse, Command::Apply(Change::ActiveProfile { slot: 0 }));
    assert!(matches!(end, Err(Error::BadSlot { slot: 0 })));
    let command = Command::Apply(Change::ActiveProfile { slot: 1 });
    let (_, end) = carry_out_with(&mut mouse, command, 0, || reply(0, vec![0; 5]));
    let error = end.unwrap_err();
    assert!(matches!(error, Error::ShortSelection { len: 5 }));
    assert_eq!(
        error.message(),
        "Expected at least 6 bytes of data when reading the ReportRate/CurrentDpi block before \
         writing, got 5. Aborting to avoid losing other settings."
    );
    let (_, end) = carry_out_with(&mut mouse, command, 0, || reply(0, vec![0; 6]));
    assert!(end.is_ok());
    let refused = Change::ActiveProfile { slot: 9 }.update(vec![0; 10]);
    assert!(matches!(refused, Err(Error::BadSlot { slot: 9 })));
}

#[test]
fn polling_rates_and_their_intervals() {
    for (hz, interval) in [(1000, 1), (500, 2), (250, 4), (125, 8)] {
        assert_eq!(encode_polling_rate(hz).unwrap(), interval);
        assert_eq!(decode_polling_rate(interval).unwrap(), hz);
    }
    for hz in [0, 1, 100, 2000] {
        let error = encode_polling_rate(hz).unwrap_err();
        assert!(matches!(error, Error::BadRate { .. }));
        assert_eq!(
            error.message(),
            format!("Polling rate must be one of 125, 250, 500, 1000, got {hz}")
        );
    }
    for interval in [0, 3, 5, 16, 255] {
        let error = decode_polling_rate(interval).unwrap_err();
        assert!(matches!(error, Error::UnknownInterval { .. }));
        assert_eq!(error.message(), format!("Unknown polling interval: {interval} ms"));
    }
}

#[test]
fn rate_changes_the_interval_alone() {
    for hz in [125, 250, 500, 1000] {
        let mut mouse = Mouse::new();
        let before = mouse.memory.clone();
        let (lines, end) = carry_out(&mut mouse, Command::Apply(Change::Rate { hz }));
        assert!(end.is_ok());
        assert_eq!(lines, vec![format!("Polling rate set to {hz} Hz.")]);
        assert_eq!(mouse.memory[0] as u32, 1000 / hz);
        assert_eq!(mouse.memory[1] as u32, 0x55 - 1000 / hz);
        assert!(changed_bytes(&before, &mouse.memory).iter().all(|&i| i < 2));
        let (lines, _) = carry_out(&mut mouse, Command::GetRate);
        assert_eq!(lines, vec![format!("Polling rate: {hz} Hz")]);
    }
}

#[test]
fn rate_refuses_what_it_cannot_write_or_show() {
    let mut mouse = Mouse::new();
    let (_, end) = carry_out(&mut mouse, Command::Apply(Change::Rate { hz: 300 }));
    assert!(matches!(end, Err(Error::BadRate { hz: 300 })));
    assert!(matches!(Change::Rate { hz: 7 }.update(vec![0; 10]), Err(Error::BadRate { hz: 7 })));
    let command = Command::Apply(Change::Rate { hz: 500 });
    let (_, end) = carry_out_with(&mut mouse, command, 0, || reply(0, vec![1]));
    let error = end.unwrap_err();
    assert!(matches!(error, Error::ShortBlock { needed: 2, len: 1, .. }));
    assert_eq!(
        error.message(),
        "Expected at least 2 bytes of data when reading ReportRate before writing, got 1. \
         Aborting to avoid losing other settings."
    );
    let (_, end) = carry_out_with(&mut mouse, Command::GetRate, 0, || reply(0, vec![]));
    assert_eq!(
        end.unwrap_err().message(),
        "Expected at least 2 bytes of data when reading ReportRate, got 0"
    );
    let (_, end) = carry_out_with(&mut mouse, Command::GetRate, 0, || reply(0, vec![3, 0x52]));
    assert!(matches!(end, Err(Error::UnknownInterval { interval: 3 })));
    assert_eq!(mouse.writes, 0);
}

#[test]
fn sensor_mode_changes_its_flag_alone() {
    for (mode, flag, name) in
        [(SensorMode::Base, 0u8, "base"), (SensorMode::Competitive, 1u8, "competitive")]
    {
        let mut mouse = Mouse::new();
        let before = mouse.memory.clone();
        let (lines, end) = carry_out(&mut mouse, Command::Apply(Change::Mode { mode }));
        assert!(end.is_ok());
        assert_eq!(lines, vec![format!("Sensor mode set to {name}.")]);
        assert_eq!(mouse.memory[0xb9], flag);
        assert_eq!(mouse.memory[0xba], 0x55 - flag);
        assert!(changed_bytes(&before, &mouse.memory).iter().all(|&i| i == 0xb9 || i == 0xba));
        let (lines, _) = carry_out(&mut mouse, Command::GetMode);
        assert_eq!(lines, vec![format!("Sensor mode: {name}")]);
    }
}

#[test]
fn sensor_mode_refuses_what_it_cannot_write_or_show() {
    let mut mouse = Mouse::new();
    let command = Command::Apply(Change::Mode { mode: SensorMode::Base });
    let (_, end) = carry_out_with(&mut mouse, command, 0, || reply(0, vec![0; 5]));
    assert!(matches!(
        end,
        Err(Error::ShortBlock { address: EepromAddress::SensorEnable, needed: 6, len: 5 })
    ));
    let (_, end) = carry_out_with(&mut mouse, Command::GetMode, 0, || reply(0, vec![0; 5]));
    assert!(matches!(
        end,
        Err(Error::ShortRead { address: EepromAddress::SensorEnable, needed: 6, len: 5 })
    ));
    let answer = || reply(0, vec![0, 0x55, 6, 0x4f, 2, 0x53]);
    let (_, end) = carry_out_with(&mut mouse, Command::GetMode, 0, answer);
    let error = end.unwrap_err();
    assert!(matches!(error, Error::UnknownMode { flag: 2 }));
    assert_eq!(error.message(), "Unknown sensor mode: 2");
}

#[test]
fn replies_are_cut_to_their_valid_length() {
    let exchange =
        Exchange::Reply(EepromReply { status: 0, data_len: 3, data: vec![1, 2, 3, 4, 5] });
    assert_eq!(read_eeprom(EepromAddress::ReportRate, exchange).unwrap(), vec![1, 2, 3]);
    assert!(write_eeprom(EepromAddress::ReportRate, reply(0, vec![])).is_ok());
    assert!(matches!(
        write_eeprom(EepromAddress::ReportRate, reply(1, vec![])),
        Err(Error::WriteRefused { address: EepromAddress::ReportRate, status: 1 })
    ));
}
