use pal_vm::audio::{AudioConfig, AudioHandle, PalSoundGroup, PalSoundStatus, PalVolume};
use pal_vm::audio_system::{loop_region_for, AudioError, AudioSystem, LoopRegion, PlaybackPhase};

fn system() -> AudioSystem {
    AudioSystem::new(AudioConfig::default(), true)
}

#[test]
fn channels_load_into_the_first_free_slot() {
    let mut audio = system();
    let group = PalSoundGroup::from_original_kind(0);
    let a = audio.load_static_data("BGM01".to_owned(), group).unwrap();
    let b = audio.load_static_data("BGM02".to_owned(), group).unwrap();
    assert_eq!((a.index, b.index), (0, 1));
    assert_eq!(audio.load_static_data("BGM03".to_owned(), group), Err(AudioError::NoFreeSlot));
    assert_eq!(audio.loaded_channel_count(group), 2);
    assert_eq!(audio.free_channel_count(group), 0);
    audio.release(a).unwrap();
    assert_eq!(audio.free_channel_count(group), 1);
    let c = audio.load_static_data("BGM04".to_owned(), group).unwrap();
    assert_eq!(c.index, 0);
    audio.release_group(group).unwrap();
    assert_eq!(audio.loaded_channel_count(group), 0);
    assert_eq!(audio.group_channel_count(group), 2);
}

#[test]
fn settings_need_a_loaded_channel() {
    let mut audio = system();
    let group = PalSoundGroup::from_original_kind(5);
    let empty = AudioHandle::new(group, 3);
    assert_eq!(audio.set_start_end(empty, 1, 2), Err(AudioError::NotLoaded));
    assert_eq!(audio.channel_pan(empty), Err(AudioError::NotLoaded));
    let bad = AudioHandle::new(group, 64);
    assert_eq!(audio.set_channel_pan(bad, 1), Err(AudioError::OutsideGroup));
    assert_eq!(audio.pause(AudioHandle::new(PalSoundGroup(9), 0)), Err(AudioError::InvalidGroup));
    let h = audio.load_static_data("SE01".to_owned(), group).unwrap();
    audio.set_start_end(h, 10, 20).unwrap();
    audio.set_loop_samples(h, 562_275, 5_325_075).unwrap();
    audio.set_channel_pan(h, -3).unwrap();
    audio.set_channel_frequency(h, 22050).unwrap();
    assert_eq!(audio.start_end(h), Ok((10, 20)));
    assert_eq!(audio.loop_samples(h), Ok((562_275, 5_325_075)));
    assert_eq!(audio.channel_pan(h), Ok(-3));
    assert_eq!(audio.channel_frequency(h), Ok(22050));
    assert_eq!(audio.sound_param(group, h.index, 0), 1);
    assert_eq!(audio.sound_param(group, h.index, 3), 10);
    assert_eq!(audio.sound_param(group, h.index, 4), 20);
    assert_eq!(audio.sound_param(group, h.index, 9), 0);
    assert_eq!(audio.sound_param(group, 99, 0), 0);
    let copy = audio.copy_sound(h, PalSoundGroup::from_original_kind(1)).unwrap();
    assert_eq!(audio.loop_samples(copy), Ok((562_275, 5_325_075)));
    assert_eq!(audio.start_end(copy), Ok((0, 0)));
}

#[test]
fn playback_state_maps_to_script_status() {
    let mut audio = system();
    let group = PalSoundGroup::from_original_kind(2);
    let h = audio.load_static_data("VO01".to_owned(), group).unwrap();
    assert_eq!(audio.sound_status(h, PlaybackPhase::Playing), Ok(PalSoundStatus::Loaded));
    assert_eq!(audio.play_request(h), Ok(true));
    audio.mark_playing(h, true).unwrap();
    assert_eq!(audio.sound_param(group, h.index, 1), 1);
    assert_eq!(audio.sound_param(group, h.index, 2), 1);
    assert_eq!(audio.sound_status(h, PlaybackPhase::Resuming), Ok(PalSoundStatus::Paused));
    assert_eq!(audio.sound_status(h, PlaybackPhase::Stopping), Ok(PalSoundStatus::Stopped));
    audio.finish_if_stopped(h, PlaybackPhase::Paused).unwrap();
    assert_eq!(audio.sound_param(group, h.index, 1), 1);
    audio.finish_if_stopped(h, PlaybackPhase::Stopped).unwrap();
    assert_eq!(audio.sound_param(group, h.index, 1), 0);
    audio.mark_playing(h, false).unwrap();
    audio.stop(h).unwrap();
    assert_eq!(audio.sound_status(h, PlaybackPhase::Playing), Ok(PalSoundStatus::Loaded));
    let free = AudioHandle::new(group, 7);
    assert_eq!(audio.sound_status(free, PlaybackPhase::Playing), Ok(PalSoundStatus::Free));
    assert_eq!(audio.play_request(free), Err(AudioError::NotLoaded));
    let quiet = AudioSystem::new(AudioConfig { enabled: false }, true);
    assert!(!quiet.is_enabled());
    assert_eq!(quiet.play_request(free), Ok(false));
}

#[test]
fn effective_volume_multiplies_the_three_levels() {
    let mut audio = system();
    let group = PalSoundGroup::from_original_kind(3);
    let h = audio.load_static_data("SE".to_owned(), group).unwrap();
    assert_eq!(audio.effective_volume(h).unwrap().raw(), 10000);
    audio.set_primary_volume(PalVolume::from_raw(5000));
    audio.set_group_volume(group, PalVolume::from_raw(20000));
    audio.set_channel_volume(h, PalVolume::from_raw(3333)).unwrap();
    assert_eq!(audio.primary_volume().raw(), 5000);
    assert_eq!(audio.group_volume(group).raw(), 10000);
    assert_eq!(audio.channel_volume(h).unwrap().raw(), 3333);
    assert_eq!(audio.effective_volume(h).unwrap().raw(), (5000i64 * 10000 * 3333 / 10000 / 10000) as i32);
    audio.set_group_volume(PalSoundGroup(200), PalVolume::from_raw(-1));
    assert_eq!(audio.group_volume(PalSoundGroup(200)).raw(), 0);
    assert_eq!(audio.group_volume(PalSoundGroup(201)).raw(), 10000);
}

#[test]
fn loop_region_uses_sample_points_only_while_looping() {
    assert_eq!(loop_region_for(false, 10, 30), None);
    assert_eq!(
        loop_region_for(true, 562_275, 5_325_075),
        Some(LoopRegion { start_samples: 562_275, end_samples: Some(5_325_075) })
    );
    assert_eq!(loop_region_for(true, 0, 0), Some(LoopRegion { start_samples: 0, end_samples: None }));
    assert_eq!(loop_region_for(true, -5, 10), Some(LoopRegion { start_samples: 0, end_samples: None }));
}

#[test]
fn playing_channels_are_counted_from_backend_phases() {
    let mut audio = system();
    let group = PalSoundGroup::from_original_kind(0);
    let a = audio.load_static_data("A".to_owned(), group).unwrap();
    let b = audio.load_static_data("B".to_owned(), group).unwrap();
    audio.mark_playing(a, false).unwrap();
    audio.mark_playing(b, false).unwrap();
    let phases = vec![PlaybackPhase::Playing, PlaybackPhase::Paused];
    assert_eq!(audio.now_channel_count(group, &phases), 1);
    assert_eq!(audio.is_playing(a, PlaybackPhase::Playing), Ok(true));
    assert_eq!(audio.is_playing(b, PlaybackPhase::Paused), Ok(false));
    assert_eq!(audio.resume(b), Ok(()));
    audio.stop(a).unwrap();
    assert_eq!(audio.is_playing(a, PlaybackPhase::Playing), Ok(false));
    assert_eq!(audio.now_channel_count(PalSoundGroup(7), &vec![]), 0);
}
