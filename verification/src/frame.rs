//! Small decisions that the per-frame systems of a sky share.

use vstd::prelude::*;

verus! {

/// Why a system cannot find the one thing that it works on.
#[derive(Clone, Copy, Debug, PartialEq, Eq, Structural)]
pub enum PreconditionViolation {
    /// There is none where exactly one is needed.
    Missing,
    /// There are several where exactly one is needed.
    Multiple,
}

/// Checks that there is exactly one of something: one sky box, one sun.
pub fn exactly_one(count: usize) -> (result: Result<(), PreconditionViolation>)
    ensures
        count == 1 ==> result == Ok::<(), PreconditionViolation>(()),
        count == 0 ==> result == Err::<(), PreconditionViolation>(PreconditionViolation::Missing),
        count > 1 ==> result == Err::<(), PreconditionViolation>(PreconditionViolation::Multiple),
{
    if count == 1 {
        Ok(())
    } else if count == 0 {
        Err(PreconditionViolation::Missing)
    } else {
        Err(PreconditionViolation::Multiple)
    }
}

/// The number of frames in a row after which repeated work is worth a warning.
pub const REPEAT_WARNING_THRESHOLD: i32 = 10;

/// The count of frames in a row with work to do, after one more frame: back to
/// zero after an idle frame, one more after a frame with work, and no further
/// than the largest number.
pub open spec fn repeats_after(repeated_calls: int, triggered: bool) -> int {
    if !triggered {
        0
    } else if repeated_calls < i32::MAX {
        repeated_calls + 1
    } else {
        i32::MAX as int
    }
}

/// Counts the frames in a row in which some expensive work was triggered, and
/// says whether that has gone on long enough to warn about it.
pub fn track_repeats(repeated_calls: &mut i32, triggered: bool) -> (warn: bool)
    ensures
        *final(repeated_calls) == repeats_after(*old(repeated_calls) as int, triggered),
        warn == (*final(repeated_calls) > REPEAT_WARNING_THRESHOLD),
{
    if !triggered {
        *repeated_calls = 0;
        return false;
    }
    if *repeated_calls < i32::MAX {
        *repeated_calls = *repeated_calls + 1;
    }
    *repeated_calls > REPEAT_WARNING_THRESHOLD
}

/// What is wrong with the cameras that the sky should follow.
#[derive(Clone, Copy, Debug, PartialEq, Eq, Structural)]
pub enum CameraWarning {
    /// No camera is marked for the sky to follow.
    NoCamera,
    /// More than one camera is marked for the sky to follow.
    ManyCameras,
}

/// The warning that `count` marked cameras call for, if any.
pub open spec fn camera_warning_spec(count: int, warned_once: bool) -> Option<CameraWarning> {
    if warned_once || count == 1 {
        None
    } else if count == 0 {
        Some(CameraWarning::NoCamera)
    } else {
        Some(CameraWarning::ManyCameras)
    }
}

/// Decides whether to warn about the number of cameras that the sky should
/// follow. A warning is given once only: `warned_once` remembers it.
pub fn camera_warning(count: usize, warned_once: &mut bool) -> (warning: Option<CameraWarning>)
    ensures
        warning == camera_warning_spec(count as int, *old(warned_once)),
        *final(warned_once) == (*old(warned_once) || count != 1),
{
    if count == 1 || *warned_once {
        return None;
    }
    *warned_once = true;
    if count == 0 {
        Some(CameraWarning::NoCamera)
    } else {
        Some(CameraWarning::ManyCameras)
    }
}

/// The size of a render target for a window side of `side` pixels: the same,
/// but never under two pixels.
pub fn render_target_side(side: u32) -> (pixels: u32)
    ensures
        pixels == vstd::math::max(side as int, 2),
{
    if side < 2 {
        2
    } else {
        side
    }
}

} // verus!
