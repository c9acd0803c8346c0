use pal_vm::font::{
    apply_text_edge, argb_to_bgra, argb_to_rgba, slot_for_encoded, PalBitmapFont, PalFontSystem,
};

fn record(width: u32, height: u32, bearing_y: i32, advance: u32) -> Vec<u8> {
    let stride = (width + 3) & !3;
    let mut bytes = Vec::new();
    for value in [width, height, 0, bearing_y as u32, advance, stride * height] {
        bytes.extend_from_slice(&value.to_le_bytes());
    }
    bytes.extend(std::iter::repeat(64u8).take((stride * height) as usize));
    bytes
}

fn font_with_records(count: usize, rec: &[u8], other: &[u8]) -> Vec<u8> {
    let table_end = 0x100u32;
    let mut bytes = vec![0u8; table_end as usize];
    bytes[0x80..0x84].copy_from_slice(&table_end.to_le_bytes());
    let first = bytes.len() as u32;
    bytes.extend_from_slice(rec);
    let second = bytes.len() as u32;
    bytes.extend_from_slice(other);
    for slot in 0x20..0x20 + count {
        bytes[slot * 4..slot * 4 + 4].copy_from_slice(&first.to_le_bytes());
    }
    bytes[0x30 * 4..0x30 * 4 + 4].copy_from_slice(&second.to_le_bytes());
    bytes
}

#[test]
fn bitmap_font_table_is_validated() {
    assert_eq!(PalBitmapFont::parse(vec![0; 0x83]).unwrap_err(), "font data is too short");
    let mut bad = vec![0u8; 0x90];
    bad[0x80..0x84].copy_from_slice(&0x86u32.to_le_bytes());
    assert_eq!(PalBitmapFont::parse(bad).unwrap_err(), "font lookup table has an invalid size");
    let mut outside = vec![0u8; 0x90];
    outside[0x80..0x84].copy_from_slice(&0x88u32.to_le_bytes());
    outside[0x84..0x88].copy_from_slice(&0x90u32.to_le_bytes());
    assert_eq!(
        PalBitmapFont::parse(outside).unwrap_err(),
        "font lookup table points outside the resource"
    );
}

#[test]
fn bitmap_font_uses_the_modal_cell() {
    // Nine records share advance 36 with baseline 26 + (36 - 31) / 2 = 28.
    let bytes = font_with_records(9, &record(30, 31, 26, 36), &record(10, 10, 5, 20));
    let font = PalBitmapFont::parse(bytes).unwrap();
    assert_eq!((font.em_size, font.baseline), (36, 28));
    assert_eq!(font.detect_cell_metrics(), Some((36, 28)));
    // Seven sharing records are not enough: the defaults stay.
    let bytes = font_with_records(7, &record(30, 31, 26, 36), &record(10, 10, 5, 20));
    let font = PalBitmapFont::parse(bytes).unwrap();
    assert_eq!((font.em_size, font.baseline), (28, 24));
    assert_eq!(font.detect_cell_metrics(), None);
}

#[test]
fn implausible_records_do_not_count() {
    // Wider than its advance.
    let bytes = font_with_records(9, &record(40, 31, 26, 36), &record(10, 10, 5, 20));
    assert_eq!(PalBitmapFont::parse(bytes).unwrap().detect_cell_metrics(), None);
    // Baseline outside the cell.
    let bytes = font_with_records(9, &record(30, 31, 40, 36), &record(10, 10, 5, 20));
    assert_eq!(PalBitmapFont::parse(bytes).unwrap().detect_cell_metrics(), None);
}

#[test]
fn colours_unpack_by_channel() {
    assert_eq!(argb_to_bgra(0x8011_2233), [0x33, 0x22, 0x11, 0x80]);
    assert_eq!(argb_to_rgba(0x8011_2233), [0x11, 0x22, 0x33, 0x80]);
}

#[test]
fn text_edge_outlines_opaque_pixels() {
    let src = vec![9, 8, 7, 255];
    let (w, h, out) = apply_text_edge(&src, 1, 1, [1, 2, 3, 200]);
    assert_eq!((w, h), (3, 3));
    assert_eq!(out.len(), 36);
    for y in 0..3 {
        for x in 0..3 {
            let px = &out[(y * 3 + x) * 4..(y * 3 + x) * 4 + 4];
            if x == 1 && y == 1 {
                assert_eq!(px, &[9, 8, 7, 255]);
            } else {
                assert_eq!(px, &[1, 2, 3, 200]);
            }
        }
    }
    let faint = vec![0, 0, 0, 1];
    let (_, _, out) = apply_text_edge(&faint, 1, 1, [1, 2, 3, 100]);
    assert_eq!(&out[0..4], &[0, 0, 0, 0]);
    assert_eq!(&out[16..20], &[0, 0, 0, 1]);
    let (w, h, out) = apply_text_edge(&[], 0, 0, [1, 2, 3, 4]);
    assert_eq!((w, h, out), (2, 2, vec![0; 16]));
}

#[test]
fn font_state_follows_script_commands() {
    let mut state = PalFontSystem::new();
    assert_eq!(state.font_size(), 28);
    assert_eq!(state.font_type(), 1);
    assert!(!state.set_type(4));
    assert_eq!(state.font_type(), 1);
    state.set_ex_font_loaded(true);
    assert!(state.set_type(4));
    state.set_ex_font_loaded(false);
    assert_eq!(state.font_type(), 1);
    assert_eq!(state.load_bitmap_font(vec![0; 4]), Err("font data is too short"));
    assert!(!state.set_type(4));
    state.load_bitmap_font(fullwidth_bitmap_font_fixture(36, 36, 31, 36)).unwrap();
    assert_eq!(state.bitmap.as_ref().unwrap().em_size, 36);
    assert!(state.set_type(4));
    assert!(state.begin());
    assert!(state.is_begun());
    assert_eq!(state.font_type(), 4);
    assert!(state.end());
    assert!(!state.is_begun());
    state.set_font_size(0);
    assert_eq!(state.font_size(), 1);
    state.set_color(1, 2);
    assert_eq!(state.color(), (1, 2));
    state.set_effect(3);
    assert_eq!(state.effect(), 3);
    let fresh = PalFontSystem::default();
    assert!(fresh.bitmap.is_none() && !fresh.begun && fresh.font_size == 28 && fresh.font_type == 1);
    assert_eq!((fresh.effect, fresh.color, fresh.effect_color), (0, 0xFF00_0000, 0xFFFF_FFFF));
}

fn fullwidth_bitmap_font_fixture(width: u32, height: u32, bearing_y: i32, advance: u32) -> Vec<u8> {
    // Shift-JIS "あ" occupies PAL slot (0x82 - 0x80) * 255 + 0xA0.
    let kana_slot = 2 * 255 + 0xA0;
    let table_end = ((kana_slot + 1) * 4) as u32;
    let mut bytes = vec![0_u8; table_end as usize];
    for slot in 0x20..0x30 {
        bytes[slot * 4..slot * 4 + 4].copy_from_slice(&table_end.to_le_bytes());
    }
    bytes[kana_slot * 4..kana_slot * 4 + 4].copy_from_slice(&table_end.to_le_bytes());
    let stride = (width + 3) & !3;
    for value in [width, height, 0, bearing_y as u32, advance, stride * height] {
        bytes.extend_from_slice(&value.to_le_bytes());
    }
    bytes.extend(std::iter::repeat(64u8).take((stride * height) as usize));
    bytes
}

#[test]
fn bitmap_font_cell_size_comes_from_its_records() {
    let font = PalBitmapFont::parse(fullwidth_bitmap_font_fixture(36, 36, 31, 36)).unwrap();
    assert_eq!((font.em_size, font.baseline), (36, 31));
    let font = PalBitmapFont::parse(fullwidth_bitmap_font_fixture(26, 26, 23, 28)).unwrap();
    assert_eq!((font.em_size, font.baseline), (28, 24));
}

fn small_bitmap_font_fixture() -> Vec<u8> {
    let table_end = 0x108_u32;
    let mut bytes = vec![0_u8; table_end as usize];
    bytes[0x80..0x84].copy_from_slice(&table_end.to_le_bytes());
    bytes[0x104..0x108].copy_from_slice(&table_end.to_le_bytes());
    for value in [2_u32, 2, 1, 2, 4, 8] {
        bytes.extend_from_slice(&value.to_le_bytes());
    }
    bytes.extend_from_slice(&[64, 0, 0, 0, 0, 32, 0, 0]);
    bytes
}

#[test]
fn character_codes_map_to_table_slots() {
    assert_eq!(slot_for_encoded(&[0x41]), Some(0x41));
    assert_eq!(slot_for_encoded(&[0x82, 0xA0]), Some(2 * 255 + 0xA0));
    assert_eq!(slot_for_encoded(&[0x80, 0x00]), Some(0));
    assert_eq!(slot_for_encoded(&[0x41, 0x42]), None);
    assert_eq!(slot_for_encoded(&[]), None);
    assert_eq!(slot_for_encoded(&[0x82, 0xA0, 0x00]), None);
}

#[test]
fn bitmap_glyph_lookup_reads_the_record() {
    let font = PalBitmapFont::parse(small_bitmap_font_fixture()).unwrap();
    let glyph = font.glyph_for_encoded(&[0x41]).unwrap();
    assert_eq!((glyph.width, glyph.height), (2, 2));
    assert_eq!((glyph.bearing_x, glyph.bearing_y), (1, 2));
    assert_eq!((glyph.advance, glyph.stride), (4, 4));
    assert_eq!(glyph.alpha, &[64, 0, 0, 0, 0, 32, 0, 0]);
    assert!(font.glyph_at(0x41).is_some());
    assert!(font.glyph_at(0x40).is_none(), "empty slot");
    assert!(font.glyph_at(0x42).is_none(), "slot past the table");
    assert!(font.glyph_for_encoded(&[0x42]).is_none());
    assert!(font.glyph_for_encoded(&[0x41, 0x41]).is_none());
    assert!(font.supports_encoded(&vec![Some(vec![0x41]), Some(vec![0x41])]));
    assert!(!font.supports_encoded(&vec![Some(vec![0x41]), None]));
    assert!(font.supports_encoded(&vec![]));
}

#[test]
fn bitmap_glyph_with_a_mismatched_bitmap_is_refused() {
    let mut bytes = small_bitmap_font_fixture();
    // Bitmap length 6 is neither 0 nor stride 4 times height 2.
    bytes[0x108 + 20..0x108 + 24].copy_from_slice(&6_u32.to_le_bytes());
    let font = PalBitmapFont::parse(bytes).unwrap();
    assert!(font.glyph_at(0x41).is_none());

    let mut bytes = small_bitmap_font_fixture();
    bytes[0x108 + 20..0x108 + 24].copy_from_slice(&0_u32.to_le_bytes());
    let font = PalBitmapFont::parse(bytes).unwrap();
    let glyph = font.glyph_at(0x41).unwrap();
    assert!(glyph.alpha.is_empty());

    let mut bytes = small_bitmap_font_fixture();
    bytes[0x108 + 20..0x108 + 24].copy_from_slice(&16_u32.to_le_bytes());
    let font = PalBitmapFont::parse(bytes).unwrap();
    assert!(font.glyph_at(0x41).is_none(), "bitmap runs past the resource");
}

#[test]
fn bitmap_face_is_used_only_when_every_character_has_a_glyph() {
    let mut state = PalFontSystem::new();
    let codes = vec![Some(vec![0x41])];
    assert!(!state.uses_bitmap(&codes), "no bitmap font loaded");
    state.load_bitmap_font(small_bitmap_font_fixture()).unwrap();
    assert!(!state.uses_bitmap(&codes), "outline face selected");
    assert!(state.set_type(4));
    assert!(state.uses_bitmap(&codes));
    assert!(!state.uses_bitmap(&vec![Some(vec![0x41]), Some(vec![0x42])]));
    assert!(!state.uses_bitmap(&vec![None]));
}

#[test]
fn finished_lines_are_rgba_with_the_outline_when_selected() {
    let mut state = PalFontSystem::new();
    let (w, h, px) = state.finish_line("A", 1, 1, vec![1, 2, 3, 255]);
    assert_eq!((w, h, px), (1, 1, vec![3, 2, 1, 255]));

    state.set_effect(1);
    state.set_color(0xFFFF_0000, 0xFF00_0000);
    let (w, h, px) = state.finish_line("", 1, 1, vec![1, 2, 3, 255]);
    assert_eq!((w, h, px), (1, 1, vec![3, 2, 1, 255]), "empty text has no outline");

    let (w, h, px) = state.finish_line("A", 1, 1, vec![1, 2, 3, 255]);
    assert_eq!((w, h), (3, 3));
    assert_eq!(&px[16..20], &[3, 2, 1, 255], "the glyph moves one pixel in");
    assert_eq!(&px[0..4], &[0, 0, 0, 255], "the outline surrounds it");

    state.set_color(0xFFFF_0000, 0x00FF_FFFF);
    let (w, h, _) = state.finish_line("A", 1, 1, vec![1, 2, 3, 255]);
    assert_eq!((w, h), (1, 1), "a transparent outline is not drawn");
}

#[test]
fn text_is_coded_in_shift_jis_per_character() {
    let codes = pal_vm::font::shift_jis_codes("Aあ");
    assert_eq!(codes, vec![Some(vec![0x41]), Some(vec![0x82, 0xA0])]);
    assert_eq!(slot_for_encoded(codes[1].as_ref().unwrap()), Some(2 * 255 + 0xA0));
    assert_eq!(pal_vm::font::shift_jis_codes("😀"), vec![None]);
}
