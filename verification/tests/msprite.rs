use pal_vm::msprite::{
    AdvanceStep,
    frame_inside_preroll, movie_loop_at_frame, next_restart, yuv420_to_rgba, MSpriteHandle,
    MSpriteSystem, MovieLoopAction, MSPRITE_STATE_FINISHED, MSPRITE_STATE_LOCKED,
    MSPRITE_STATE_LOOP, MSPRITE_STATE_PLAYING,
};

#[test]
fn loop_end_restarts_when_looping_and_finishes_when_not() {
    assert_eq!(
        movie_loop_at_frame(1_500, 1, 0, 1_000),
        MovieLoopAction::Restart
    );
    assert_eq!(
        movie_loop_at_frame(1_500, 0, 0, 1_000),
        MovieLoopAction::Finish
    );
    assert_eq!(
        movie_loop_at_frame(400, 1, 0, 1_000),
        MovieLoopAction::Present
    );
    assert!(frame_inside_preroll(200, 500));
    assert!(!frame_inside_preroll(500, 500));
    assert!(!frame_inside_preroll(10, 0));
}

#[test]
fn yuv420_black_frame_converts_to_opaque_rgba() {
    let y = vec![16u8; 4];
    let cb = vec![128u8; 1];
    let cr = vec![128u8; 1];
    let rgba = yuv420_to_rgba(2, 2, &y, &cb, &cr);
    assert_eq!(rgba.len(), 16);
    assert!(rgba.chunks_exact(4).all(|px| px[3] == 255));
    assert!(rgba
        .chunks_exact(4)
        .all(|px| px[0] <= 1 && px[1] <= 1 && px[2] <= 1));
}

#[test]
fn yuv_conversion_matches_bt601_values() {
    // White luma with neutral chroma, and a missing chroma plane.
    let rgba = yuv420_to_rgba(1, 1, &[235], &[], &[]);
    assert_eq!(rgba, vec![255, 255, 255, 255]);
    // Saturated red: Y=81, Cb=90, Cr=240.
    let rgba = yuv420_to_rgba(1, 1, &[81], &[90], &[240]);
    let c = 81 - 16;
    let d = 90 - 128;
    let e = 240 - 128;
    let r = ((298 * c + 409 * e + 128) >> 8).clamp(0, 255);
    let g = ((298 * c - 100 * d - 208 * e + 128) >> 8).clamp(0, 255);
    let b = ((298 * c + 516 * d + 128) >> 8).clamp(0, 255);
    assert_eq!(rgba, vec![r as u8, g as u8, b as u8, 255]);
    // A 3x2 frame: the third column shares the second chroma sample.
    let rgba = yuv420_to_rgba(3, 2, &[16; 6], &[128, 255], &[128, 128]);
    assert_eq!(rgba.len(), 24);
    assert_eq!(&rgba[8..12], &rgba[20..24]);
}

#[test]
fn negative_loop_points_count_as_zero() {
    assert_eq!(movie_loop_at_frame(5, 0, -10, -1), MovieLoopAction::Present);
    assert_eq!(movie_loop_at_frame(1_000, 0, 1_000, 1_000), MovieLoopAction::Present);
    assert!(!frame_inside_preroll(0, -5));
    assert_eq!(next_restart(0, 0), None);
    assert_eq!(next_restart(1, 31), Some(32));
    assert_eq!(next_restart(1, 32), None);
}

#[test]
fn sprite_state_bits_follow_commands() {
    let mut sprites = MSpriteSystem::new();
    assert!(sprites.can_register());
    let a = sprites.insert_loaded("OP".to_owned(), 4, 2, vec![0; 32], 0);
    let b = sprites.insert_loaded("ED".to_owned(), 4, 2, vec![0; 32], 0);
    assert_eq!(a.handle, MSpriteHandle(1));
    assert_eq!(b.handle, MSpriteHandle(2));
    assert!(sprites.check(a.handle));
    assert_eq!(sprites.state(a.handle), 0);
    assert!(sprites.play(a.handle, 0));
    assert_eq!(sprites.state(a.handle), MSPRITE_STATE_PLAYING);
    assert!(sprites.lock(a.handle));
    assert_eq!(
        sprites.state(a.handle),
        MSPRITE_STATE_PLAYING | MSPRITE_STATE_LOCKED
    );
    assert!(sprites.unlock(a.handle));
    assert!(sprites.set_loop_point(a.handle, -3, 200));
    assert!(sprites.is_loop(a.handle));
    assert_eq!(
        sprites.state(a.handle),
        MSPRITE_STATE_PLAYING | MSPRITE_STATE_LOOP
    );
    assert!(sprites.stop(a.handle));
    assert_eq!(
        sprites.state(a.handle),
        MSPRITE_STATE_FINISHED | MSPRITE_STATE_LOOP
    );
    assert!(sprites.play(a.handle, 1));
    assert_eq!(
        sprites.state(a.handle),
        MSPRITE_STATE_PLAYING | MSPRITE_STATE_LOOP
    );
    assert!(sprites.pause(a.handle));
    assert!(sprites.set_loop(a.handle, 0));
    assert!(sprites.release(b.handle));
    assert!(!sprites.release(b.handle));
    assert!(!sprites.play(b.handle, 0));
    assert_eq!(sprites.state(b.handle), 0);
    let c = sprites.insert_loaded("IN".to_owned(), 1, 1, vec![0; 4], 0);
    assert_eq!(c.handle, MSpriteHandle(3));
    sprites.clear();
    assert!(!sprites.check(a.handle));
}

#[test]
fn advancing_sprites_present_frames_and_drive_the_movie() {
    let mut sprites = MSpriteSystem::default();
    let a = sprites.insert_loaded("MOVIE".to_owned(), 2, 2, vec![0; 16], 0).handle;
    let b = sprites.insert_loaded("LOGO".to_owned(), 2, 2, vec![0; 16], 0).handle;
    let c = sprites.insert_loaded("BG".to_owned(), 2, 2, vec![0; 16], 0).handle;
    sprites.play(c, 0);
    sprites.play(a, 0);
    sprites.play(b, 0);
    sprites.lock(b);
    assert_eq!(sprites.advancing_handles(), vec![a, c]);
    sprites.start_movie("MOVIE".to_owned(), 3, a);
    assert!(sprites.is_movie());
    let update = sprites.present_frame(a, 33, 2, 2, vec![7; 16]).unwrap();
    assert_eq!(update.source_name, "MOVIE");
    assert_eq!(update.rgba, vec![7; 16]);
    assert_eq!(sprites.entry(a).unwrap().pts_ms, 33);
    sprites.sync_movie();
    assert_eq!(sprites.movie().unwrap().elapsed_ms, 33);
    assert!(sprites.movie().unwrap().playing);
    assert!(sprites.finish(a));
    sprites.sync_movie();
    assert!(!sprites.is_movie());
    assert!(sprites.present_frame(MSpriteHandle(99), 0, 1, 1, vec![0; 4]).is_none());
    sprites.stop_movie();
    assert!(sprites.movie().is_none());
}

#[test]
fn advance_steps_follow_the_loop_points() {
    let mut sprites = MSpriteSystem::new();
    let h = sprites.insert_loaded("OP".to_owned(), 1, 1, vec![0; 4], 0).handle;
    assert!(sprites.begin_advance(h, 100).is_none());
    sprites.play(h, 1);
    sprites.set_loop_point(h, 500, 1_000);
    let mut cur = sprites.begin_advance(h, 100).unwrap();
    assert_eq!(cur.target_pts, 100);
    // Preroll frames are skipped.
    assert_eq!(sprites.advance_on_frame(&mut cur, 200, 1, 1, vec![1; 4]), AdvanceStep::PullFrame);
    assert_eq!(cur.skipped, 1);
    // A frame inside the loop is shown and reaches the target.
    assert_eq!(sprites.advance_on_frame(&mut cur, 600, 1, 1, vec![2; 4]), AdvanceStep::Done);
    assert_eq!(cur.latest.as_ref().unwrap().rgba, vec![2; 4]);
    assert_eq!(sprites.entry(h).unwrap().pts_ms, 600);
    // The loop end restarts a looping sprite.
    let mut cur = sprites.begin_advance(h, 1_000).unwrap();
    assert_eq!(sprites.advance_on_frame(&mut cur, 1_000, 1, 1, vec![3; 4]), AdvanceStep::RestartSource);
    assert_eq!(cur.restarts, 1);
    assert_eq!(
        sprites.advance_on_restart(&mut cur, Some((500, 1, 1, vec![4; 4]))),
        AdvanceStep::PullFrame
    );
    assert_eq!(sprites.advance_on_restart(&mut cur, None), AdvanceStep::PullFrame);
    assert_eq!(sprites.advance_on_end(&mut cur), AdvanceStep::RestartSource);
    assert_eq!(cur.restarts, 2);
    assert_eq!(sprites.advance_on_error(&cur), AdvanceStep::Done);
    assert!(sprites.entry(h).unwrap().finished);
    assert!(sprites.begin_advance(h, 10).is_none());
}

#[test]
fn a_sprite_that_does_not_loop_finishes_at_its_end() {
    let mut sprites = MSpriteSystem::new();
    let h = sprites.insert_loaded("ED".to_owned(), 1, 1, vec![0; 4], 0).handle;
    sprites.play(h, 0);
    let mut cur = sprites.begin_advance(h, 10).unwrap();
    assert_eq!(sprites.advance_on_end(&mut cur), AdvanceStep::Done);
    assert!(sprites.entry(h).unwrap().finished);
    assert_eq!(sprites.state(h), MSPRITE_STATE_FINISHED);
    sprites.play(h, 0);
    sprites.set_loop_point(h, 0, 50);
    let mut cur = sprites.begin_advance(h, 10).unwrap();
    assert_eq!(sprites.advance_on_frame(&mut cur, 60, 1, 1, vec![0; 4]), AdvanceStep::Done);
    assert!(sprites.entry(h).unwrap().finished);
}
