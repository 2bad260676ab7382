//! Settings of the aurora, which is drawn into a texture of its own.

use crate::fixed::{clamp_spec, Fixed, ONE};
use vstd::arithmetic::div_mod::{lemma_div_is_ordered, lemma_div_multiples_vanish};
use vstd::math::{max, min};
use vstd::prelude::*;

verus! {

/// How large the aurora is drawn.
#[derive(Clone, Copy, Debug, PartialEq, Eq, Structural)]
pub struct AuroraSettings {
    /// Width of the aurora's render target as a fraction of the window's
    /// width. At one the aurora is drawn at full quality, at one half it is
    /// drawn at half the width and scaled up.
    pub render_texture_percent: Fixed,
}

/// The fraction that aurora settings start from: about a third.
pub const DEFAULT_RENDER_TEXTURE_PERCENT: Fixed = 21627;

impl Default for AuroraSettings {
    fn default() -> (settings: Self)
        ensures
            settings.render_texture_percent == DEFAULT_RENDER_TEXTURE_PERCENT,
    {
        AuroraSettings { render_texture_percent: DEFAULT_RENDER_TEXTURE_PERCENT }
    }
}

/// What the aurora starts with.
#[derive(Clone, Copy, Debug, PartialEq, Eq, Structural)]
pub struct AuroraPlugin {
    /// How large the aurora is drawn.
    pub aurora_settings: AuroraSettings,
}

impl Default for AuroraPlugin {
    fn default() -> (plugin: Self)
        ensures
            plugin.aurora_settings.render_texture_percent == DEFAULT_RENDER_TEXTURE_PERCENT,
    {
        AuroraPlugin { aurora_settings: AuroraSettings::default() }
    }
}

/// The most that the height of a render target may exceed its width by: the
/// window's aspect ratio counts as at least one in ten thousand.
pub const MAX_HEIGHT_PER_WIDTH: u64 = 10_000;

/// The window's width scaled by the fraction, which is first brought into
/// `[0, 1]`.
pub open spec fn scaled_width_spec(window_width: int, percent: int) -> int {
    (window_width * clamp_spec(percent, 0, ONE as int)) / (ONE as int)
}

/// The height that keeps the window's aspect ratio for a target of width
/// `scaled_width`. A window without width or height gives none.
pub open spec fn scaled_height_spec(scaled_width: int, window_width: int, window_height: int) -> int {
    if window_width <= 0 || window_height <= 0 {
        0
    } else {
        min(
            min((scaled_width * window_height) / window_width, scaled_width * MAX_HEIGHT_PER_WIDTH),
            u32::MAX as int,
        )
    }
}

/// Width and height of the aurora's render target for a window of the given
/// size: the window's width scaled by the fraction of the settings, the height
/// that keeps the aspect ratio, and neither under two pixels.
pub open spec fn aurora_target_size_spec(window_width: int, window_height: int, percent: int) -> (
    int,
    int,
) {
    let width = scaled_width_spec(window_width, percent);
    (max(width, 2), max(scaled_height_spec(width, window_width, window_height), 2))
}

/// Width and height of the aurora's render target for a window of the given
/// size.
pub fn aurora_target_size(window_width: u32, window_height: u32, settings: &AuroraSettings) -> (size:
    (u32, u32))
    ensures
        size.0 == aurora_target_size_spec(
            window_width as int,
            window_height as int,
            settings.render_texture_percent as int,
        ).0,
        size.1 == aurora_target_size_spec(
            window_width as int,
            window_height as int,
            settings.render_texture_percent as int,
        ).1,
        size.0 >= 2,
        size.1 >= 2,
{
    let percent: u64 = if settings.render_texture_percent < 0 {
        0
    } else if settings.render_texture_percent > ONE {
        65536
    } else {
        settings.render_texture_percent as u64
    };
    proof {
        let w = window_width as int;
        let p = percent as int;
        assert(0 <= w * p <= w * 65536) by (nonlinear_arith)
            requires
                0 <= w,
                0 <= p <= 65536,
        ;
        lemma_div_is_ordered(0, w * p, 65536);
        lemma_div_is_ordered(w * p, w * 65536, 65536);
        lemma_div_multiples_vanish(w, 65536);
    }
    let width: u64 = (window_width as u64) * percent / 65536;
    let height: u64 = if window_width == 0 || window_height == 0 {
        0
    } else {
        proof {
            assert(width * window_height <= 0xffff_ffff * 0xffff_ffff) by (nonlinear_arith)
                requires
                    0 <= width <= 0xffff_ffff,
                    0 <= window_height <= 0xffff_ffff,
            ;
        }
        let by_aspect: u64 = width * (window_height as u64) / (window_width as u64);
        let by_bound: u64 = width * MAX_HEIGHT_PER_WIDTH;
        let least: u64 = if by_aspect < by_bound {
            by_aspect
        } else {
            by_bound
        };
        if least > u32::MAX as u64 {
            u32::MAX as u64
        } else {
            least
        }
    };
    let width: u32 = if width < 2 {
        2
    } else {
        width as u32
    };
    let height: u32 = if height < 2 {
        2
    } else {
        height as u32
    };
    (width, height)
}

} // verus!
