//! Settings of the noise textures that stars and aurora are drawn from.
//!
//! The textures are cubes of voxels. A cube of side 64 takes a quarter of a
//! megabyte, one of side 256 sixteen megabytes.

use crate::fixed::clamp_spec;
use crate::frame::{repeats_after, track_repeats, REPEAT_WARNING_THRESHOLD};
use vstd::prelude::*;

verus! {

/// The sizes of the noise textures.
#[derive(Clone, Copy, Debug, PartialEq, Eq)]
pub struct NoiseSettings {
    /// Side of the cube of smooth noise.
    pub noise_texture_size: u32,
    /// Side of the cube of cell noise.
    pub voronoi_texture_size: u32,
    /// If set, no texture gets a side larger than this.
    pub noise_size_limit: Option<u32>,
    /// Whether generated textures are kept in a file for the next run.
    pub cache_textures_locally: bool,
}

/// The noise settings to start from: smooth noise of side 64, cell noise of
/// side 128, no side over 256, textures kept in a file.
pub open spec fn default_noise_settings() -> NoiseSettings {
    NoiseSettings {
        noise_texture_size: 64,
        voronoi_texture_size: 128,
        noise_size_limit: Some(256u32),
        cache_textures_locally: true,
    }
}

impl Default for NoiseSettings {
    fn default() -> (settings: Self)
        ensures
            settings == default_noise_settings(),
            settings.wf(),
    {
        NoiseSettings {
            noise_texture_size: 64,
            voronoi_texture_size: 128,
            noise_size_limit: Some(256),
            cache_textures_locally: true,
        }
    }
}

impl NoiseSettings {
    /// The limit, if there is one, allows a texture of side one.
    pub open spec fn wf(&self) -> bool {
        self.noise_size_limit != Some(0u32)
    }

    /// The largest side that the settings allow.
    pub open spec fn max_size_spec(&self) -> int {
        match self.noise_size_limit {
            Some(limit) => limit as int,
            None => u32::MAX as int,
        }
    }

    /// The largest side that the settings allow.
    pub fn max_size(&self) -> (size: u32)
        ensures
            size == self.max_size_spec(),
    {
        match self.noise_size_limit {
            Some(limit) => limit,
            None => u32::MAX,
        }
    }

    /// Whether the limit leaves room for a texture at all.
    pub fn is_valid(&self) -> (valid: bool)
        ensures
            valid == self.wf(),
    {
        match self.noise_size_limit {
            Some(limit) => limit != 0,
            None => true,
        }
    }

    /// Side of the smooth noise texture as it is made: the side asked for, but
    /// at least one and at most the limit.
    pub fn noise_size(&self) -> (size: u32)
        requires
            self.wf(),
        ensures
            size == clamp_spec(self.noise_texture_size as int, 1, self.max_size_spec()),
    {
        limit_size(self.noise_texture_size, self.max_size())
    }

    /// Side of the cell noise texture as it is made: the side asked for, but at
    /// least one and at most the limit.
    pub fn voronoi_size(&self) -> (size: u32)
        requires
            self.wf(),
        ensures
            size == clamp_spec(self.voronoi_texture_size as int, 1, self.max_size_spec()),
    {
        limit_size(self.voronoi_texture_size, self.max_size())
    }
}

/// `size`, but at least one and at most `max_size`.
fn limit_size(size: u32, max_size: u32) -> (limited: u32)
    requires
        max_size >= 1,
    ensures
        limited == clamp_spec(size as int, 1, max_size as int),
{
    if size < 1 {
        1
    } else if size > max_size {
        max_size
    } else {
        size
    }
}

/// What the noise textures start with.
#[derive(Clone, Copy, Debug, PartialEq, Eq)]
pub struct NoisePlugin {
    /// The sizes of the textures.
    pub noise_settings: NoiseSettings,
}

impl Default for NoisePlugin {
    fn default() -> (plugin: Self)
        ensures
            plugin.noise_settings == default_noise_settings(),
    {
        NoisePlugin { noise_settings: NoiseSettings::default() }
    }
}

/// What to do about the noise textures in one frame.
#[derive(Clone, Copy, Debug, PartialEq, Eq, Structural)]
pub enum NoiseUpdate {
    /// The settings did not change: nothing to do.
    Idle,
    /// The settings changed: bring the textures to these sizes.
    Resize {
        /// Side of the smooth noise texture.
        noise_size: u32,
        /// Side of the cell noise texture.
        voronoi_size: u32,
        /// Whether textures are read from and written to a file.
        use_cache: bool,
        /// Whether the settings have changed in so many frames in a row that
        /// it is worth a warning.
        warn: bool,
    },
}

/// Decides what to do about the noise textures in one frame, given whether the
/// settings changed since the last one. `repeated_calls` counts the frames in
/// a row in which they did.
pub fn update_noise_textures(
    noise_settings: &NoiseSettings,
    changed: bool,
    repeated_calls: &mut i32,
) -> (update: NoiseUpdate)
    requires
        noise_settings.wf(),
    ensures
        *final(repeated_calls) == repeats_after(*old(repeated_calls) as int, changed),
        !changed ==> update == NoiseUpdate::Idle,
        changed ==> update == (NoiseUpdate::Resize {
            noise_size: clamp_spec(
                noise_settings.noise_texture_size as int,
                1,
                noise_settings.max_size_spec(),
            ) as u32,
            voronoi_size: clamp_spec(
                noise_settings.voronoi_texture_size as int,
                1,
                noise_settings.max_size_spec(),
            ) as u32,
            use_cache: noise_settings.cache_textures_locally,
            warn: *final(repeated_calls) > REPEAT_WARNING_THRESHOLD,
        }),
{
    let warn: bool = track_repeats(repeated_calls, changed);
    if !changed {
        return NoiseUpdate::Idle;
    }
    NoiseUpdate::Resize {
        noise_size: noise_settings.noise_size(),
        voronoi_size: noise_settings.voronoi_size(),
        use_cache: noise_settings.cache_textures_locally,
        warn,
    }
}

/// Whether a texture of the given width has to be made anew to have side
/// `size`.
pub fn needs_rebuild(current_width: u32, size: u32) -> (rebuild: bool)
    ensures
        rebuild == (current_width != size),
{
    current_width != size
}

/// The number of voxels of a cube of side `size`, if it can be counted.
pub fn voxel_count(size: usize) -> (count: Option<usize>)
    ensures
        size * size * size <= usize::MAX ==> count == Some((size * size * size) as usize),
        size * size * size > usize::MAX ==> count is None,
{
    match size.checked_mul(size) {
        Some(square) => {
            match square.checked_mul(size) {
                Some(cube) => Some(cube),
                None => None,
            }
        },
        None => {
            proof {
                assert(size * size * size >= size * size) by (nonlinear_arith)
                    requires
                        size * size > usize::MAX,
                        size >= 0,
                ;
            }
            None
        },
    }
}

/// Where the voxel at `(x, y, z)` stands in the data of a cube of side `size`:
/// rows along `x`, then along `y`, then layers along `z`.
pub fn voxel_index(size: usize, x: usize, y: usize, z: usize) -> (index: usize)
    requires
        x < size,
        y < size,
        z < size,
        size * size * size <= usize::MAX,
    ensures
        index == z * size * size + y * size + x,
        index < size * size * size,
{
    proof {
        assert(z * size * size + y * size + x < size * size * size && z * size <= size * size
            && z * size * size <= size * size * size && y * size <= size * size && size * size
            <= size * size * size) by (nonlinear_arith)
            requires
                x < size,
                y < size,
                z < size,
        ;
    }
    z * size * size + y * size + x
}

} // verus!
