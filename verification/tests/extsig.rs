use std::collections::BTreeSet;

use pal_vm::extsig::{all_signatures, auto_signatures, lookup_sig, observed_pop_count, ReturnKind};

#[test]
fn extended_button_and_clock_signatures_keep_totsulover_stack_balanced() {
    for (category, index, name, pop_count) in [
        (5, 8, "channel_error_set_se_info", 4),
        (8, 14, "btn_get_pos", 4),
        (8, 29, "btn_set_state", 4),
        (8, 37, "btn_get_alpha_0x", 2),
        (18, 90, "ext_18_90", 8),
        (18, 121, "pal_time_ms", 0),
    ] {
        let sig = lookup_sig(category, index).unwrap();
        assert_eq!(sig.name, name);
        assert_eq!(sig.pop_count, pop_count);
    }
}

#[test]
fn testcase_visible_extcalls_use_observed_categories() {
    assert_eq!(lookup_sig(11, 0).map(|s| s.name), Some("movie_play"));
    assert_eq!(
        lookup_sig(11, 1).map(|s| s.name),
        Some("msp_set_loop_sp_ep")
    );
    assert_eq!(lookup_sig(11, 3).map(|s| s.name), Some("msp_wait"));
    assert_eq!(lookup_sig(3, 88), None);

    assert_eq!(lookup_sig(8, 3).map(|s| s.name), Some("btn_set"));
    assert_eq!(lookup_sig(8, 3).map(|s| s.pop_count), Some(7));
    assert_eq!(lookup_sig(8, 6).map(|s| s.name), Some("btn_set_pos"));
    assert_eq!(lookup_sig(8, 17).map(|s| s.name), Some("btn_get_push"));
    assert_eq!(lookup_sig(8, 19).map(|s| s.pop_count), Some(2));
    assert_eq!(lookup_sig(8, 20).map(|s| s.pop_count), Some(1));

    assert_eq!(lookup_sig(4, 1).map(|s| s.name), Some("bgm_stop"));
    assert_eq!(lookup_sig(5, 0).map(|s| s.name), Some("se_load"));
    assert_eq!(lookup_sig(13, 18).map(|s| s.name), Some("voice_wait"));
    assert_eq!(lookup_sig(18, 33).map(|s| s.name), Some("set_file_pointer"));
}

#[test]
fn observed_pop_counts_cover_current_testcase_hotspots() {
    assert_eq!(observed_pop_count(2, 15), Some(5));
    assert_eq!(observed_pop_count(7, 1), Some(2));
    assert_eq!(observed_pop_count(8, 18), Some(3));
    assert_eq!(observed_pop_count(11, 1), Some(8));
    assert_eq!(observed_pop_count(23, 2), Some(1));
    assert_eq!(observed_pop_count(99, 99), None);
}

#[test]
fn all_signatures_have_unique_category_index_keys() {
    let mut seen = BTreeSet::new();
    for sig in &all_signatures() {
        assert!(
            seen.insert((sig.category, sig.index)),
            "duplicate ext signature {:04X}:{:04X} {}",
            sig.category,
            sig.index,
            sig.name
        );
        assert_eq!(lookup_sig(sig.category, sig.index), Some(sig.clone()));
        assert_eq!(
            sig.pop_count,
            sig.params.len(),
            "{} pop_count mismatch",
            sig.name
        );
    }
}

#[test]
fn every_record_is_internally_consistent() {
    let all = all_signatures();
    assert_eq!(all.len(), 228);
    for sig in &all {
        assert_eq!(sig.canonical_name, sig.name);
        assert_eq!(sig.returns, sig.return_kind != ReturnKind::Void);
        for param in &sig.params {
            assert!(param.pop_idx < sig.pop_count);
        }
    }
    assert!(auto_signatures().is_empty());
}

#[test]
fn lookup_carries_the_declared_fields() {
    let sig = lookup_sig(2, 2).unwrap();
    assert_eq!(sig.name, "text");
    assert_eq!(sig.params.len(), 4);
    assert_eq!(sig.params[0].name, "mode");
    assert_eq!(sig.params[0].pop_idx, 3);
    assert_eq!(sig.return_kind, ReturnKind::Void);
    assert!(lookup_sig(0, 0).is_none());
}
