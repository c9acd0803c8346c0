use pal_vm::audio::{
    audio_lookup_key, is_encoded_audio, parse_bgm_csv, parse_i64, parse_mix_playlist,
    split_csv_row, AudioHandle, PalSoundGroup, PalSoundStatus, PalVolume,
};

#[test]
fn bgm_csv_rows_are_sample_loop_points() {
    let csv = b"//name,intro,loop_start,loop_end\r\n\"BGM01\",0,0,7931200\r\n\"bgm007.ogg\",0,562275,5325075\r\n\"BGM00\",0,0,0\r\n";
    let table = parse_bgm_csv(csv);
    assert_eq!(table.get("BGM01").unwrap().loop_end_samples, 7_931_200);
    assert_eq!(table.get("BGM007").unwrap().loop_start_samples, 562_275);
    assert_eq!(table.get("BGM007").unwrap().loop_end_samples, 5_325_075);
    assert_eq!(table.get("BGM00").unwrap().loop_end_samples, 0);
    assert_eq!(audio_lookup_key("bgm\\BGM01.OGG"), "BGM01");
}

#[test]
fn mix_playlist_lists_voice_names_and_rejects_audio() {
    let mut bytes = vec![0u8; 64];
    bytes[..8].copy_from_slice(b"vo98_005");
    bytes[32..32 + 9].copy_from_slice(b"vo01_1257");
    assert_eq!(
        parse_mix_playlist(&bytes).as_deref(),
        Some(["vo98_005".to_owned(), "vo01_1257".to_owned()].as_slice())
    );
    assert!(parse_mix_playlist(b"OggSrest").is_none());
    assert!(parse_mix_playlist(&[0x30, 0x26, 0xB2, 0x75]).is_none());
}

#[test]
fn bgm_table_has_one_row_per_name_and_later_rows_win() {
    let csv = b"BGM01,0,1,2\nbgm01.ogg,0,3,4\nbroken\n,0,5,6\nX,0,a,7\n";
    let table = parse_bgm_csv(csv);
    assert_eq!(table.len(), 1);
    let row = table.get("BGM01").unwrap();
    assert_eq!(row.loop_start_samples, 3);
    assert_eq!(row.loop_end_samples, 4);
    assert!(table.get("X").is_none());
}

#[test]
fn bgm_csv_without_rows_is_empty() {
    assert_eq!(parse_bgm_csv(b"").len(), 0);
    assert_eq!(parse_bgm_csv(b"//only a header\n").len(), 0);
}

#[test]
fn lookup_key_drops_directories_and_known_extensions() {
    assert_eq!(audio_lookup_key("voice/vo01_0001.wav"), "VO01_0001");
    assert_eq!(audio_lookup_key("a.b.mix"), "A.B");
    assert_eq!(audio_lookup_key("track.dat"), "TRACK.DAT");
    assert_eq!(audio_lookup_key("  se01  "), "  SE01  ");
}

#[test]
fn csv_fields_are_trimmed_and_unquoted() {
    let line: Vec<char> = "\"a\" , b ,,".chars().collect();
    let parts = split_csv_row(&line, 0, line.len());
    let texts: Vec<String> = parts.iter().map(|p| p.iter().collect()).collect();
    assert_eq!(texts, vec!["a", "", "b", ""]);
    let line: Vec<char> = "x, \"y".chars().collect();
    let parts = split_csv_row(&line, 0, line.len());
    let texts: Vec<String> = parts.iter().map(|p| p.iter().collect()).collect();
    assert_eq!(texts, vec!["x", "\"y"]);
}

#[test]
fn integers_parse_with_sign_and_reject_junk() {
    let text: Vec<char> = "-42".chars().collect();
    assert_eq!(parse_i64(&text, 0, text.len()), Some(-42));
    let text: Vec<char> = " -42 ".chars().collect();
    assert_eq!(parse_i64(&text, 0, text.len()), None);
    let text: Vec<char> = "9223372036854775808".chars().collect();
    assert_eq!(parse_i64(&text, 0, text.len()), None);
    let text: Vec<char> = "-9223372036854775808".chars().collect();
    assert_eq!(parse_i64(&text, 0, text.len()), Some(i64::MIN));
    let text: Vec<char> = "+7".chars().collect();
    assert_eq!(parse_i64(&text, 0, text.len()), Some(7));
    let text: Vec<char> = "4x".chars().collect();
    assert_eq!(parse_i64(&text, 0, text.len()), None);
    let text: Vec<char> = "".chars().collect();
    assert_eq!(parse_i64(&text, 0, text.len()), None);
}

#[test]
fn mix_playlist_rejects_malformed_slots() {
    assert!(parse_mix_playlist(&[]).is_none());
    assert!(parse_mix_playlist(&[b'a'; 31]).is_none());
    let full = vec![b'a'; 32];
    assert!(parse_mix_playlist(&full).is_none());
    let mut gap = vec![0u8; 32];
    gap[0] = b'a';
    gap[2] = b'b';
    assert!(parse_mix_playlist(&gap).is_none());
    let mut space = vec![0u8; 32];
    space[0] = b' ';
    assert!(parse_mix_playlist(&space).is_none());
    let empty = vec![0u8; 32];
    assert!(parse_mix_playlist(&empty).is_none());
}

#[test]
fn encoded_audio_is_recognised_by_magic() {
    assert!(is_encoded_audio(b"RIFF...."));
    assert!(is_encoded_audio(b"ID3x"));
    assert!(is_encoded_audio(&[0xFF, 0xFB, 0]));
    assert!(!is_encoded_audio(&[0x30, 0x26, 0xB2, 0x75]));
    let mut asf = vec![0u8; 16];
    asf[..4].copy_from_slice(&[0x30, 0x26, 0xB2, 0x75]);
    assert!(is_encoded_audio(&asf));
    assert!(!is_encoded_audio(b"vo01"));
}

#[test]
fn handles_round_trip_through_raw_values() {
    let handle = AudioHandle::new(PalSoundGroup::from_original_kind(1), 5);
    let raw = handle.raw();
    assert_eq!(AudioHandle::from_raw(raw), Some(handle));
    assert!(AudioHandle::from_raw(5).is_none());
    for group in PalSoundGroup::all() {
        let prefix = group.raw_prefix();
        assert_eq!(PalSoundGroup::from_raw_prefix(prefix), Some(group));
    }
}

#[test]
fn volumes_clamp_to_the_pal_range() {
    assert_eq!(PalVolume::from_raw(-5).raw(), 0);
    assert_eq!(PalVolume::from_raw(20000).raw(), 10000);
    assert_eq!(PalVolume::from_raw(1234).raw(), 1234);
    assert_eq!(PalVolume::default().raw(), 10000);
    assert_eq!(PalSoundStatus::Paused.raw(), 3);
}

#[test]
fn lookup_keys_ignore_directories_and_case() {
    for name in ["BGM01.OGG", "vo01_0001.Wav", "a.b.mix", "Track.dat", "x\\y.wma"] {
        let key = audio_lookup_key(name);
        assert!(!key.contains('/') && !key.contains('\\'), "{key}");
        assert!(!key.chars().any(|c| c.is_ascii_lowercase()), "{key}");
        assert_eq!(audio_lookup_key(&format!("data/sound/{name}")), key);
        assert_eq!(audio_lookup_key(&name.to_ascii_lowercase()), key);
    }
}
