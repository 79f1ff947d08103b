use atk_dpi::dpi::{decode_dpi_block, encode_dpi_block};
use atk_dpi::error::Error;

#[test]
fn test_encode_confirmed_points() {
    // Points confirmed via real HID traffic.
    assert_eq!(encode_dpi_block(1200).unwrap(), [0x17, 0x17, 0x00, 0x27]);
    assert_eq!(encode_dpi_block(1300).unwrap(), [0x19, 0x19, 0x00, 0x23]);
    assert_eq!(encode_dpi_block(1400).unwrap(), [0x1b, 0x1b, 0x00, 0x1f]);
    assert_eq!(encode_dpi_block(1500).unwrap(), [0x1d, 0x1d, 0x00, 0x1b]);
    // High-range points (high byte not zero), confirming the formula of byte 2.
    assert_eq!(encode_dpi_block(12700).unwrap(), [0xfd, 0xfd, 0x00, 0x5b]);
    assert_eq!(encode_dpi_block(13000).unwrap(), [0x03, 0x03, 0x44, 0x0b]);
    assert_eq!(encode_dpi_block(20000).unwrap(), [0x8f, 0x8f, 0x44, 0xf3]);
    assert_eq!(encode_dpi_block(30000).unwrap(), [0x57, 0x57, 0x88, 0x1f]);
}

#[test]
fn test_decode_confirmed_points() {
    assert_eq!(decode_dpi_block(&[0x17, 0x17, 0x00, 0x27]), 1200);
    assert_eq!(decode_dpi_block(&[0x19, 0x19, 0x00, 0x23]), 1300);
    assert_eq!(decode_dpi_block(&[0x1b, 0x1b, 0x00, 0x1f]), 1400);
    assert_eq!(decode_dpi_block(&[0x1d, 0x1d, 0x00, 0x1b]), 1500);
    assert_eq!(decode_dpi_block(&[0xfd, 0xfd, 0x00, 0x5b]), 12700);
    assert_eq!(decode_dpi_block(&[0x03, 0x03, 0x44, 0x0b]), 13000);
    assert_eq!(decode_dpi_block(&[0x8f, 0x8f, 0x44, 0xf3]), 20000);
    assert_eq!(decode_dpi_block(&[0x57, 0x57, 0x88, 0x1f]), 30000);
}

#[test]
fn test_roundtrip() {
    for dpi in (100..=30000u32).step_by(50) {
        let block = encode_dpi_block(dpi).unwrap();
        assert_eq!(decode_dpi_block(&block), dpi, "roundtrip failed for {dpi}");
    }
}

#[test]
fn test_rejects_non_multiple_of_50() {
    assert!(encode_dpi_block(1234).is_err());
}

#[test]
fn encodes_the_ends_of_what_a_block_can_hold() {
    assert_eq!(encode_dpi_block(50).unwrap(), [0x00, 0x00, 0x00, 0x55]);
    assert_eq!(encode_dpi_block(100).unwrap(), [0x01, 0x01, 0x00, 0x53]);
    assert_eq!(encode_dpi_block(51200).unwrap(), [0xff, 0xff, 0xcc, 0x8b]);
}

#[test]
fn refuses_what_has_no_block() {
    assert!(matches!(encode_dpi_block(0), Err(Error::NotAStep { dpi: 0 })));
    assert!(matches!(encode_dpi_block(49), Err(Error::NotAStep { dpi: 49 })));
    assert!(matches!(encode_dpi_block(1201), Err(Error::NotAStep { dpi: 1201 })));
    assert!(matches!(encode_dpi_block(51250), Err(Error::TooLarge { idx: 1024 })));
    assert!(matches!(encode_dpi_block(60000), Err(Error::TooLarge { idx: 1199 })));
}

#[test]
fn an_index_beyond_16_bits_wraps() {
    assert_eq!(encode_dpi_block(3276850).unwrap(), [0x00, 0x00, 0x00, 0x55]);
}

#[test]
fn corrupted_blocks_decode_approximately() {
    // Byte 2 is no multiple of 0x44; bytes 1 and 3 are wrong.
    assert_eq!(decode_dpi_block(&[0x17, 0xff, 0x43, 0x00]), 1200);
    assert_eq!(decode_dpi_block(&[0x03, 0x00, 0x45, 0xff]), 13000);
    assert_eq!(decode_dpi_block(&[0xff, 0xff, 0xff, 0xff]), 51200);
    assert_eq!(decode_dpi_block(&[0x17, 0x17, 0x00]), 1200);
}

#[test]
fn blocks_sum_up_to_the_checksum() {
    for dpi in (50..=51200u32).step_by(50) {
        let block = encode_dpi_block(dpi).unwrap();
        let sum: u32 = block.iter().map(|&b| b as u32).sum();
        assert_eq!(sum % 256, 0x55);
        assert_eq!(block[0], block[1]);
        assert_eq!(encode_dpi_block(decode_dpi_block(&block)).unwrap(), block);
    }
}
