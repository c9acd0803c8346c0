//! Scripted inputs and frame dumps for unattended diagnostic runs.

use vstd::prelude::*;

verus! {

/// A click at `(x, y)` on frame `frame`.
#[derive(Clone, Copy, Debug, Eq, PartialEq, Structural)]
pub struct DiagnosticClick {
    pub frame: usize,
    pub x: i32,
    pub y: i32,
}

/// A click at `(x, y)` as soon as a button there accepts it.
#[derive(Clone, Copy, Debug, Eq, PartialEq, Structural)]
pub struct DiagnosticClickWhenHitEnabled {
    pub x: i32,
    pub y: i32,
}

/// A key press or release on frame `frame`.
#[derive(Clone, Debug)]
pub struct DiagnosticKeyEvent {
    pub frame: usize,
    pub key: String,
    pub pressed: bool,
}

/// Keep clicking at `(x, y)` once `min_frames` frames have passed.
#[derive(Clone, Copy, Debug, Eq, PartialEq, Structural)]
pub struct DiagnosticAutoAdvance {
    pub x: i32,
    pub y: i32,
    pub min_frames: usize,
}

/// Write the frame rendered at `frame` to the image file at `path`.
#[derive(Clone, Debug)]
pub struct DiagnosticPngAt {
    pub frame: usize,
    pub path: String,
}

} // verus!
