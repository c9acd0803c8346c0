use pal_vm::effect::{clamp_color_byte, shake_sample, PalEffectSystem};

#[test]
fn effect_ex_refuses_ids_and_busy_channel() {
    let mut effects = PalEffectSystem::new();
    assert_eq!(effects.effect_ex(0, 100, 0, false, 0), 1);
    assert!(!effects.active());
    assert_eq!(effects.effect_ex(0x32, 100, 0, false, 0), 0);
    assert!(!effects.active());
    assert_eq!(effects.effect_ex(3, 0, -1, false, 50), 1);
    let state = effects.state().unwrap();
    assert_eq!(state.effect_id, 3);
    assert_eq!(state.duration_ms, 1);
    assert_eq!(state.start_ms, 50);
    assert_eq!(state.state, 1);
    assert_eq!(effects.effect(4, 10, 60), 0);
    assert_eq!(effects.state().unwrap().effect_id, 3);
}

#[test]
fn disabled_effects_report_success_and_do_nothing() {
    let mut effects = PalEffectSystem::default();
    effects.set_enabled(false);
    assert!(!effects.enabled());
    assert_eq!(effects.effect(5, 100, 0), 1);
    assert!(!effects.active());
    effects.flash_color(255, 0, 0, 10, 0);
    assert!(effects.flash().is_none());
    effects.set_shake(1, 1, 10, 0, 0);
    assert!(effects.shake().is_none());
}

#[test]
fn tick_expires_each_channel_on_the_wrapping_clock() {
    let mut effects = PalEffectSystem::new();
    effects.effect(1, 100, u32::MAX - 10);
    effects.flash_color(-4, 300, 128, 20, u32::MAX - 10);
    effects.set_shake(3, 2, 200, 9, u32::MAX - 10);
    let flash = effects.flash().unwrap();
    assert_eq!((flash.red, flash.green, flash.blue), (0, 255, 128));
    effects.tick(9);
    assert!(effects.active());
    assert!(effects.flash().is_none());
    effects.tick(89);
    assert!(!effects.active());
    assert!(effects.shake().is_some());
    effects.tick(189);
    assert!(effects.shake().is_none());
}

#[test]
fn stop_selected_follows_flag_bits() {
    let mut effects = PalEffectSystem::new();
    effects.effect(1, 100, 0);
    effects.flash_color(1, 2, 3, 100, 0);
    effects.set_shake(1, 1, 100, 0, 0);
    effects.stop_selected(0x10);
    assert!(effects.flash().is_none());
    assert!(effects.active());
    effects.stop_selected(4);
    assert!(effects.shake().is_none());
    effects.stop_selected(1);
    assert!(!effects.active());
}

#[test]
fn shake_request_with_max_duration_is_ignored() {
    let mut effects = PalEffectSystem::new();
    effects.set_shake(8, 4, u32::MAX, 7, 1_000);
    assert!(effects.shake().is_none());
    effects.set_shake(8, 4, 100, 7, 1_000);
    let shake = effects.shake().unwrap();
    assert_eq!((shake.x_amp, shake.y_amp, shake.phase, shake.duration_ms), (8, 4, 7, 100));
}

#[test]
fn shake_samples_stay_in_span() {
    assert_eq!(shake_sample(12345, 0), 0);
    for seed in 0..200u32 {
        let d = shake_sample(seed.wrapping_mul(0x9E37_79B9), 8);
        assert!((-8..=8).contains(&d));
    }
    let mut hash = 1u32;
    hash ^= hash >> 16;
    hash = hash.wrapping_mul(0x7FEB_352D);
    hash ^= hash >> 15;
    hash = hash.wrapping_mul(0x846C_A68B);
    hash ^= hash >> 16;
    assert_eq!(shake_sample(1, 3), (hash % 7) as i32 - 3);
    assert_eq!(clamp_color_byte(-1), 0);
    assert_eq!(clamp_color_byte(256), 255);
}
