use dro_synth::banks::{ram_header, rom_header, Banks, BlockKind};

#[test]
fn a_type_byte_says_what_a_block_is_for() {
    assert_eq!(BlockKind::of(0x00), BlockKind::Stream);
    assert_eq!(BlockKind::of(0x3F), BlockKind::Stream);
    assert_eq!(BlockKind::of(0x40), BlockKind::CompressedStream);
    assert_eq!(BlockKind::of(0x7E), BlockKind::CompressedStream);
    assert_eq!(BlockKind::of(0x7F), BlockKind::DecompressionTable);
    assert_eq!(BlockKind::of(0x80), BlockKind::Rom);
    assert_eq!(BlockKind::of(0xBF), BlockKind::Rom);
    assert_eq!(BlockKind::of(0xC0), BlockKind::Ram);
    assert_eq!(BlockKind::of(0xFF), BlockKind::Ram);
}

#[test]
fn a_compressed_block_decodes_to_its_uncompressed_twin() {
    assert_eq!(BlockKind::uncompressed_type(0x40), 0x00);
    assert_eq!(BlockKind::uncompressed_type(0x42), 0x02);
    // Everything outside the compressed range is already itself.
    assert_eq!(BlockKind::uncompressed_type(0x00), 0x00);
    assert_eq!(BlockKind::uncompressed_type(0x7F), 0x7F);
    assert_eq!(BlockKind::uncompressed_type(0x80), 0x80);
}

#[test]
fn a_rom_block_splits_into_its_header_and_its_piece() {
    let mut payload = Vec::new();
    payload.extend_from_slice(&0x0001_0000u32.to_le_bytes());
    payload.extend_from_slice(&0x0000_0200u32.to_le_bytes());
    payload.extend_from_slice(&[1, 2, 3, 4]);

    let (rom, data) = rom_header(&payload).unwrap();
    assert_eq!(rom.total_size, 0x0001_0000);
    assert_eq!(rom.start, 0x200);
    assert_eq!(data, [1, 2, 3, 4]);

    assert!(rom_header(&[0, 0, 0]).is_err());
}

#[test]
fn a_ram_offset_is_two_bytes_below_type_e0_and_four_above() {
    let (ram, data) = ram_header(0xC0, &[0x34, 0x12, 9, 9]).unwrap();
    assert_eq!(ram.offset, 0x1234);
    assert_eq!(data, [9, 9]);

    let (ram, data) = ram_header(0xE0, &[0x78, 0x56, 0x34, 0x12, 7]).unwrap();
    assert_eq!(ram.offset, 0x1234_5678);
    assert_eq!(data, [7]);

    assert!(ram_header(0xE0, &[1, 2, 3]).is_err());
}

#[test]
fn banks_are_addressed_by_index_within_a_type_and_concatenated_across_it() {
    let mut banks = Banks::new();
    banks.push(0x00, vec![1, 2]);
    banks.push(0x01, vec![9]);
    banks.push(0x00, vec![3, 4]);

    assert_eq!(banks.nth(0x00, 0), Some([1, 2].as_slice()));
    assert_eq!(banks.nth(0x00, 1), Some([3, 4].as_slice()));
    assert_eq!(banks.nth(0x00, 2), None);
    assert_eq!(banks.nth(0x01, 0), Some([9].as_slice()));

    // A `0x91` binding addresses the whole type as one run.
    assert_eq!(banks.concatenated(0x00), vec![1, 2, 3, 4]);
    assert_eq!(banks.len(), 3);

    banks.clear();
    assert!(banks.is_empty());
}
