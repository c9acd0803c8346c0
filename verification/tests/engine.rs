use pal_vm::diagnostics::{DiagnosticClick, DiagnosticPngAt};
use pal_vm::engine::{FrameClock, TraceConfig, MAX_PAL_FRAME_DELTA_NS};

#[test]
fn capped_ticks_never_step_more_than_the_cap() {
    let mut clock = FrameClock::new(1_000);
    let t = clock.tick_capped(1_000 + 16_000_000, MAX_PAL_FRAME_DELTA_NS);
    assert_eq!((t.frame_index, t.delta_ns, t.elapsed_ns), (1, 16_000_000, 16_000_000));
    let t = clock.tick_capped(1_000 + 16_000_000 + 500_000_000, MAX_PAL_FRAME_DELTA_NS);
    assert_eq!((t.frame_index, t.delta_ns), (2, MAX_PAL_FRAME_DELTA_NS));
    assert_eq!(t.elapsed_ns, 16_000_000 + MAX_PAL_FRAME_DELTA_NS);
    // A clock that goes backwards gives a zero step.
    let t = clock.tick_capped(0, MAX_PAL_FRAME_DELTA_NS);
    assert_eq!(t.delta_ns, 0);
}

#[test]
fn fixed_ticks_accumulate_elapsed_time() {
    let mut clock = FrameClock::new(0);
    let a = clock.tick_fixed(16_666_667);
    let b = clock.tick_fixed(16_666_667);
    let c = clock.tick_fixed(1_000_000_000);
    assert_eq!(a.elapsed_ns, 16_666_667);
    assert_eq!(b.elapsed_ns, 33_333_334);
    assert_eq!(c.delta_ns, MAX_PAL_FRAME_DELTA_NS);
    assert_eq!(c.elapsed_ns, 33_333_334 + MAX_PAL_FRAME_DELTA_NS);
    assert_eq!(c.frame_index, 3);
    assert_eq!(clock.previous_ns, c.elapsed_ns);
}

#[test]
fn diagnostics_and_trace_settings_are_plain_data() {
    let trace = TraceConfig::default();
    assert!(!trace.script && !trace.actions);
    let click = DiagnosticClick { frame: 3, x: 10, y: 20 };
    assert_eq!(click, DiagnosticClick { frame: 3, x: 10, y: 20 });
    let dump = DiagnosticPngAt { frame: 60, path: "frame60.png".to_owned() };
    assert_eq!(dump.path, "frame60.png");
}
