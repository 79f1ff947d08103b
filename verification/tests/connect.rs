use atk_dpi::connect::{autodetect_interface, connect, opened, probed, ConnectStep};
use atk_dpi::discovery::DeviceInfo;
use atk_dpi::eeprom::{CommandId, EepromAddress, EepromReply, Exchange};
use atk_dpi::error::Error;

fn answer(status: u8, data: Vec<u8>) -> Exchange {
    Exchange::Reply(EepromReply { status, data_len: data.len(), data })
}

/// Tries the candidates, each of which fares as said, and gives back those that were opened
/// and where it ended.
fn search(attempts: Vec<Option<Exchange>>) -> (Vec<(u16, u16)>, ConnectStep) {
    let mut tried = Vec::new();
    let mut step = autodetect_interface(0x373b, 0x1085);
    for attempt in attempts {
        let opening = match step {
            ConnectStep::Open(opening) => opening,
            end => return (tried, end),
        };
        assert_eq!((opening.vid, opening.pid), (0x373b, 0x1085));
        tried.push((opening.usage_page, opening.usage));
        step = match attempt {
            None => opened(opening, Err("not found".to_string())),
            Some(exchange) => match opened(opening, Ok(())) {
                ConnectStep::Probe { probing, request } => {
                    assert_eq!(request.command, CommandId::GetEeprom);
                    assert_eq!(request.address, EepromAddress::ReportRate);
                    assert_eq!(request.data_len, 10);
                    probed(probing, exchange)
                }
                other => other,
            },
        };
    }
    (tried, step)
}

const CANDIDATES: [(u16, u16); 5] =
    [(0xff02, 2), (0xff03, 0), (0xff04, 2), (0xff05, 0), (0xff00, 1)];

#[test]
fn the_first_candidate_that_answers_is_taken() {
    for k in 0..5 {
        let mut attempts = Vec::new();
        for i in 0..5 {
            attempts.push(if i >= k {
                Some(answer(0, vec![1]))
            } else if i % 2 == 0 {
                None
            } else {
                Some(answer(1, vec![]))
            });
        }
        let (tried, end) = search(attempts);
        assert_eq!(tried, CANDIDATES[..=k].to_vec());
        assert!(matches!(end, ConnectStep::Connected));
    }
}

#[test]
fn no_answer_is_an_error() {
    let (tried, end) = search(vec![
        None,
        Some(Exchange::Failed("timeout".to_string())),
        Some(answer(1, vec![])),
        Some(answer(255, vec![1, 2])),
        None,
    ]);
    assert_eq!(tried, CANDIDATES.to_vec());
    match end {
        ConnectStep::Failed(error) => {
            assert!(matches!(error, Error::NoInterface { vid: 0x373b, pid: 0x1085 }));
            assert_eq!(
                error.message(),
                "Could not find a working HID interface among the known candidates for device \
                 373b:1085. Run `atk-dpi list`, find the vendor-specific interface (usage_page is \
                 usually 0xffXX), and pass it explicitly via --usage-page/--usage."
            );
        }
        other => panic!("{other:?}"),
    }
}

#[test]
fn an_answer_needs_no_data() {
    let (tried, end) = search(vec![
        None,
        Some(answer(1, vec![1; 10])),
        Some(answer(0, vec![])),
        Some(answer(0, vec![1; 10])),
        None,
    ]);
    assert_eq!(tried, CANDIDATES[..3].to_vec());
    assert!(matches!(end, ConnectStep::Connected));
}

#[test]
fn a_named_interface_is_opened_without_a_probe() {
    let step = connect(&vec![], Some(0x373b), Some(0xf58a), Some(0xff02), Some(2));
    let opening = match step {
        ConnectStep::Open(opening) => opening,
        other => panic!("{other:?}"),
    };
    assert_eq!((opening.usage_page, opening.usage), (0xff02, 2));
    assert!(matches!(opened(opening, Ok(())), ConnectStep::Connected));
    match opened(opening, Err("no such device".to_string())) {
        ConnectStep::Failed(error) => assert_eq!(
            error.message(),
            "failed to open device 373b:f58a (usage_page=0xff02, usage=0x0002): no such device\n\
             Try `atk-dpi list` to see the actual usage_page/usage values for all interfaces of \
             this device."
        ),
        other => panic!("{other:?}"),
    }
}

#[test]
fn half_a_named_interface_does_not_count() {
    for (usage_page, usage) in [(Some(0xff07), None), (None, Some(7)), (None, None)] {
        match connect(&vec![], Some(1), Some(2), usage_page, usage) {
            ConnectStep::Open(opening) => {
                assert_eq!((opening.usage_page, opening.usage), CANDIDATES[0]);
                assert_eq!((opening.vid, opening.pid), (1, 2));
            }
            other => panic!("{other:?}"),
        }
    }
}

#[test]
fn connecting_resolves_the_identifiers_first() {
    let device = DeviceInfo {
        vendor_id: 0x3554,
        product_id: 9,
        usage_page: 1,
        usage: 2,
        interface_number: 0,
        manufacturer: None,
        product: None,
    };
    match connect(&vec![device], None, None, None, None) {
        ConnectStep::Open(opening) => assert_eq!((opening.vid, opening.pid), (0x3554, 9)),
        other => panic!("{other:?}"),
    }
    assert!(matches!(
        connect(&vec![], None, None, Some(1), Some(2)),
        ConnectStep::Failed(Error::NoDevice)
    ));
}
