//! What a sky is made of: which of its parts are switched on, and what each
//! starts with.

use crate::aurora::AuroraPlugin;
use crate::cycle::{default_cycle, SkyCyclePlugin};
use crate::noise::{default_noise_settings, NoisePlugin, NoiseSettings};
use crate::sky_colors::{default_sky_colors, GradientDriverPlugin};
use crate::sun::{default_sun_driver, SunDriverPlugin};
use vstd::prelude::*;

verus! {

/// Chooses the parts of a sky. A part that is left out can be replaced by one
/// of the caller's own.
#[derive(Clone, Copy, Debug, PartialEq, Eq)]
pub struct SkyPluginBuilder {
    /// Whether a sky box is made when the sky starts.
    pub spawn_default_skybox: bool,
    /// Whether the whole sky is drawn into a texture, from which other
    /// effects, such as fog, can take its colour.
    pub render_sky_to_texture: bool,
    /// Whether presets can be applied to the sky.
    pub use_preset_plugin: bool,
    /// The noise textures.
    pub noise: NoisePlugin,
    /// The aurora, if there is one.
    pub aurora: Option<AuroraPlugin>,
    /// The timeline, if there is one.
    pub cycle: Option<SkyCyclePlugin>,
    /// The sun, if there is one.
    pub sun_driver: Option<SunDriverPlugin>,
    /// The driver of the sky's colours, if there is one.
    pub gradient_driver: Option<GradientDriverPlugin>,
}

/// The aurora as it starts.
pub open spec fn default_aurora() -> AuroraPlugin {
    AuroraPlugin {
        aurora_settings: crate::aurora::AuroraSettings {
            render_texture_percent: crate::aurora::DEFAULT_RENDER_TEXTURE_PERCENT,
        },
    }
}

/// The driver of the sky's colours as it starts.
pub open spec fn default_gradient_driver() -> GradientDriverPlugin {
    GradientDriverPlugin { sky_colors_builder: default_sky_colors() }
}

/// A sky with a sky box and noise textures, and nothing else.
pub open spec fn no_features_spec() -> SkyPluginBuilder {
    SkyPluginBuilder {
        spawn_default_skybox: true,
        render_sky_to_texture: false,
        use_preset_plugin: false,
        noise: NoisePlugin { noise_settings: default_noise_settings() },
        aurora: None,
        cycle: None,
        sun_driver: None,
        gradient_driver: None,
    }
}

/// A sky with every part, each as it starts by default.
pub open spec fn all_features_spec() -> SkyPluginBuilder {
    SkyPluginBuilder {
        spawn_default_skybox: true,
        render_sky_to_texture: true,
        use_preset_plugin: true,
        noise: NoisePlugin { noise_settings: default_noise_settings() },
        aurora: Some(default_aurora()),
        cycle: Some(default_cycle()),
        sun_driver: Some(default_sun_driver()),
        gradient_driver: Some(default_gradient_driver()),
    }
}

impl Default for SkyPluginBuilder {
    fn default() -> (builder: Self)
        ensures
            builder == all_features_spec(),
    {
        Self::all_features()
    }
}

impl SkyPluginBuilder {
    /// A sky with a sky box and noise textures, and nothing else.
    pub fn no_features() -> (builder: Self)
        ensures
            builder == no_features_spec(),
    {
        SkyPluginBuilder {
            spawn_default_skybox: true,
            noise: NoisePlugin::default(),
            aurora: None,
            cycle: None,
            sun_driver: None,
            gradient_driver: None,
            use_preset_plugin: false,
            render_sky_to_texture: false,
        }
    }

    /// A sky with every part, each as it starts by default.
    pub fn all_features() -> (builder: Self)
        ensures
            builder == all_features_spec(),
    {
        SkyPluginBuilder {
            spawn_default_skybox: true,
            noise: NoisePlugin::default(),
            aurora: Some(AuroraPlugin::default()),
            cycle: Some(SkyCyclePlugin::default()),
            sun_driver: Some(SunDriverPlugin::default()),
            gradient_driver: Some(GradientDriverPlugin::default()),
            use_preset_plugin: true,
            render_sky_to_texture: true,
        }
    }

    /// Says whether a sky box is made when the sky starts.
    pub fn set_spawn_default_skybox(self, spawn_default_skybox: bool) -> (builder: Self)
        ensures
            builder == (SkyPluginBuilder { spawn_default_skybox, ..self }),
    {
        SkyPluginBuilder { spawn_default_skybox, ..self }
    }

    /// Has the whole sky drawn into a texture.
    pub fn with_render_sky_to_texture(self) -> (builder: Self)
        ensures
            builder == (SkyPluginBuilder { render_sky_to_texture: true, ..self }),
    {
        SkyPluginBuilder { render_sky_to_texture: true, ..self }
    }

    /// Says whether the whole sky is drawn into a texture.
    pub fn set_render_sky_to_texture(self, render_sky_to_texture: bool) -> (builder: Self)
        ensures
            builder == (SkyPluginBuilder { render_sky_to_texture, ..self }),
    {
        SkyPluginBuilder { render_sky_to_texture, ..self }
    }

    /// The sky with the chosen parts.
    pub fn build(self) -> (plugin: SkyPlugin)
        ensures
            plugin.spawn_default_skybox == self.spawn_default_skybox,
            plugin.sky_builder == self,
    {
        SkyPlugin { spawn_default_skybox: self.spawn_default_skybox, sky_builder: self }
    }

    /// Adds the aurora as it starts by default.
    pub fn with_aurora(self) -> (builder: Self)
        ensures
            builder == (SkyPluginBuilder { aurora: Some(default_aurora()), ..self }),
    {
        SkyPluginBuilder { aurora: Some(AuroraPlugin::default()), ..self }
    }

    /// Lets presets be applied to the sky.
    pub fn with_presets(self) -> (builder: Self)
        ensures
            builder == (SkyPluginBuilder { use_preset_plugin: true, ..self }),
    {
        SkyPluginBuilder { use_preset_plugin: true, ..self }
    }

    /// Says whether presets can be applied to the sky.
    pub fn set_presets(self, use_presets_plugin: bool) -> (builder: Self)
        ensures
            builder == (SkyPluginBuilder { use_preset_plugin: use_presets_plugin, ..self }),
    {
        SkyPluginBuilder { use_preset_plugin: use_presets_plugin, ..self }
    }

    /// Adds the timeline as it starts by default.
    pub fn with_cycle(self) -> (builder: Self)
        ensures
            builder == (SkyPluginBuilder { cycle: Some(default_cycle()), ..self }),
    {
        SkyPluginBuilder { cycle: Some(SkyCyclePlugin::default()), ..self }
    }

    /// Adds the sun as it starts by default.
    pub fn with_sun_driver(self) -> (builder: Self)
        ensures
            builder == (SkyPluginBuilder { sun_driver: Some(default_sun_driver()), ..self }),
    {
        SkyPluginBuilder { sun_driver: Some(SunDriverPlugin::default()), ..self }
    }

    /// Adds the driver of the sky's colours as it starts by default.
    pub fn with_gradient_driver(self) -> (builder: Self)
        ensures
            builder == (SkyPluginBuilder {
                gradient_driver: Some(default_gradient_driver()),
                ..self
            }),
    {
        SkyPluginBuilder { gradient_driver: Some(GradientDriverPlugin::default()), ..self }
    }

    /// Gives the noise textures the given sizes.
    pub fn with_noise_settings(self, noise_settings: NoiseSettings) -> (builder: Self)
        ensures
            builder == (SkyPluginBuilder { noise: (NoisePlugin { noise_settings }), ..self }),
    {
        SkyPluginBuilder { noise: NoisePlugin { noise_settings }, ..self }
    }

    /// Adds the given sun.
    pub fn set_sun_driver(self, sun_driver: SunDriverPlugin) -> (builder: Self)
        ensures
            builder == (SkyPluginBuilder { sun_driver: Some(sun_driver), ..self }),
    {
        SkyPluginBuilder { sun_driver: Some(sun_driver), ..self }
    }

    /// Adds the given timeline.
    pub fn set_cycle(self, cycle: SkyCyclePlugin) -> (builder: Self)
        ensures
            builder == (SkyPluginBuilder { cycle: Some(cycle), ..self }),
    {
        SkyPluginBuilder { cycle: Some(cycle), ..self }
    }

    /// Adds the given driver of the sky's colours.
    pub fn set_gradient_driver(self, gradient_driver: GradientDriverPlugin) -> (builder: Self)
        ensures
            builder == (SkyPluginBuilder { gradient_driver: Some(gradient_driver), ..self }),
    {
        SkyPluginBuilder { gradient_driver: Some(gradient_driver), ..self }
    }

    /// Adds the given aurora.
    pub fn set_aurora(self, aurora_plugin: AuroraPlugin) -> (builder: Self)
        ensures
            builder == (SkyPluginBuilder { aurora: Some(aurora_plugin), ..self }),
    {
        SkyPluginBuilder { aurora: Some(aurora_plugin), ..self }
    }

    /// Whether the sun was chosen without the timeline that it follows.
    pub fn sun_driver_lacks_cycle(&self) -> (lacks: bool)
        ensures
            lacks == (self.sun_driver is Some && self.cycle is None),
    {
        self.sun_driver.is_some() && self.cycle.is_none()
    }
}

/// A sky with its parts chosen.
#[derive(Clone, Copy, Debug, PartialEq, Eq)]
pub struct SkyPlugin {
    /// Whether a sky box is made when the sky starts.
    pub spawn_default_skybox: bool,
    /// The parts of the sky.
    pub sky_builder: SkyPluginBuilder,
}

impl SkyPlugin {
    /// Starts from a sky with a sky box and noise textures, and nothing else.
    pub fn builder() -> (builder: SkyPluginBuilder)
        ensures
            builder == no_features_spec(),
    {
        SkyPluginBuilder::no_features()
    }

    /// Starts from a sky with every part.
    pub fn builder_all_features() -> (builder: SkyPluginBuilder)
        ensures
            builder == all_features_spec(),
    {
        SkyPluginBuilder::all_features()
    }
}

impl Default for SkyPlugin {
    fn default() -> (plugin: Self)
        ensures
            plugin.spawn_default_skybox,
            plugin.sky_builder == all_features_spec(),
    {
        SkyPlugin { spawn_default_skybox: true, sky_builder: SkyPluginBuilder::default() }
    }
}

} // verus!
