use pal_vm::assets::{make_graphic_key, GraphicIndex, GraphicIndexError};

#[test]
fn graphic_record_lanes_follow_flag_bits() {
    let mut bytes =
        vec![0u8; GraphicIndex::RECORD_BASE_AFTER_DOLLAR_HEADER + GraphicIndex::RECORD_SIZE];
    bytes[0x10] = 1;
    let record = GraphicIndex::RECORD_BASE_AFTER_DOLLAR_HEADER;
    bytes[record..record + 8].copy_from_slice(b"HANABI_B");
    bytes[record + 0x20..record + 0x24].copy_from_slice(&0x0008_7000u32.to_le_bytes());
    bytes[record + 0x68..record + 0x6C].copy_from_slice(&1i32.to_le_bytes());
    bytes[record + 0x6C..record + 0x70].copy_from_slice(&3i32.to_le_bytes());
    bytes[record + 0x70..record + 0x74].copy_from_slice(&(-4i32).to_le_bytes());
    bytes[record + 0x78..record + 0x7C].copy_from_slice(&0x00FF_0000u32.to_le_bytes());
    // 0x60000 is not set, so offsets stay neutral even though the dwords are filled.
    bytes[record + 0x20] = 0x00;
    bytes[record + 0x21] = 0x70;
    bytes[record + 0x22] = 0x08;
    let index = GraphicIndex::parse(&bytes).expect("graphic.dat");
    let parsed = index.lookup("hanabi_b").expect("record");
    assert_eq!(parsed.priority_lane, 2);
    assert_eq!(parsed.offset_x, 0);
    assert_eq!(parsed.offset_y, 0);
    assert_eq!(parsed.scale_percent, 100);
    assert_eq!(parsed.alpha, 0x00FF_0000);

    bytes[record + 0x20..record + 0x24].copy_from_slice(&0x0016_7000u32.to_le_bytes());
    bytes[record + 0x74..record + 0x78].copy_from_slice(&80i32.to_le_bytes());
    let index = GraphicIndex::parse(&bytes).expect("graphic.dat with placement bits");
    let parsed = index.lookup("HANABI_B").expect("record");
    assert_eq!(parsed.offset_x, 3);
    assert_eq!(parsed.offset_y, -4);
    assert_eq!(parsed.scale_percent, 80);
}

#[test]
fn short_graphic_dat_is_rejected() {
    let bytes = vec![0u8; 0x807];
    assert_eq!(
        GraphicIndex::parse(&bytes).unwrap_err(),
        GraphicIndexError::TooSmall { len: 0x807 }
    );
}

#[test]
fn record_past_the_end_is_reported() {
    let mut bytes = vec![0u8; 0x808 + 0x84 + 0x10];
    // bucket 3 claims two records; only one fits.
    bytes[0x10 + 3 * 8] = 2;
    let err = GraphicIndex::parse(&bytes).unwrap_err();
    assert_eq!(
        err,
        GraphicIndexError::RecordOutOfRange { record_index: 1, offset: 0x808 + 0x84 }
    );
}

#[test]
fn empty_table_parses_with_no_entries() {
    let bytes = vec![0u8; 0x808];
    let index = GraphicIndex::parse(&bytes).unwrap();
    assert!(index.is_empty());
    assert_eq!(index.len(), 0);
    assert_eq!(index.buckets.len(), 255);
    assert_eq!(index.data_offset, 0x808);
}

#[test]
fn duplicate_keys_keep_one_entry_and_first_record_wins_lookup() {
    let mut bytes = vec![0u8; 0x808 + 2 * 0x84];
    bytes[0x10] = 2;
    for r in 0..2 {
        let at = 0x808 + r * 0x84;
        bytes[at..at + 3].copy_from_slice(b"abc");
        bytes[at + 0x74..at + 0x78].copy_from_slice(&(50 + r as i32).to_le_bytes());
        bytes[at + 0x20..at + 0x24].copy_from_slice(&0x0010_0000u32.to_le_bytes());
    }
    bytes[0x808 + 0x24..0x808 + 0x28].copy_from_slice(b"rep\0");
    let index = GraphicIndex::parse(&bytes).unwrap();
    assert_eq!(index.records.len(), 2);
    assert_eq!(index.len(), 1);
    assert_eq!(index.entries_by_key[0].data_offset, 0x84);
    let first = index.lookup("dir/ABC.png").unwrap();
    assert_eq!(first.scale_percent, 50);
    assert_eq!(first.replacement_resource().as_deref(), Some("rep"));
    assert_eq!(first.animation_resource(), None);
}

#[test]
fn wide_names_are_compacted_and_filler_cleared() {
    let mut bytes = vec![0u8; 0x808 + 0x84];
    bytes[0x10] = 1;
    let at = 0x808;
    for (i, b) in b"ab".iter().enumerate() {
        bytes[at + 2 * i] = *b;
    }
    bytes[at + 5] = 0xCC;
    let index = GraphicIndex::parse(&bytes).unwrap();
    assert_eq!(&index.records[0].key[..3], b"AB\0");
    assert!(index.lookup("ab").is_some());
}

#[test]
fn lookup_key_uses_leaf_and_stem() {
    let key = make_graphic_key("a\\b/cg_001.bmp");
    assert_eq!(&key[..7], b"CG_001\0");
    let long = make_graphic_key(&"x".repeat(40));
    assert_eq!(long, [b'X'; 32]);
}

#[test]
fn record_names_that_are_ascii_read_back_unchanged() {
    let mut bytes = vec![0u8; 0x808 + 0x84];
    bytes[0x10..0x12].copy_from_slice(&1u16.to_le_bytes());
    let rec = 0x808;
    bytes[rec..rec + 4].copy_from_slice(b"KEY1");
    bytes[rec + 0x24..rec + 0x2A].copy_from_slice(b"REPL01");
    let index = GraphicIndex::parse(&bytes).unwrap();
    assert_eq!(index.len(), 1);
    let record = &index.records[0];
    assert_eq!(record.replacement_resource(), Some("REPL01".to_string()));
    assert_eq!(record.animation_resource(), None);
}

#[test]
fn entries_are_listed_in_key_order() {
    let mut bytes = vec![0u8; 0x808 + 3 * 0x84];
    bytes[0x10..0x12].copy_from_slice(&3u16.to_le_bytes());
    for (i, key) in [b"KEY2", b"KEY1", b"KEY2"].iter().enumerate() {
        let rec = 0x808 + i * 0x84;
        bytes[rec..rec + 4].copy_from_slice(*key);
    }
    let index = GraphicIndex::parse(&bytes).unwrap();
    assert_eq!(index.len(), 2);
    assert_eq!(&index.entries_by_key[0].key[..4], b"KEY1");
    assert_eq!(&index.entries_by_key[1].key[..4], b"KEY2");
    // The later record with key KEY2 replaced the first one's entry.
    assert_eq!(index.entries_by_key[1].data_offset, 2 * 0x84);
}
