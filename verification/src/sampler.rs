//! Texture sampling: from the settings an asset declares to those of the
//! device.

use vstd::prelude::*;

verus! {

/// Magnification filter declared by an asset.
#[derive(Clone, Copy, Debug, PartialEq, Eq, Structural)]
pub enum MagFilter {
    Nearest,
    Linear,
}

/// Minification filter declared by an asset, with the way mipmap levels are
/// chosen where it names one.
#[derive(Clone, Copy, Debug, PartialEq, Eq, Structural)]
pub enum MinFilter {
    Nearest,
    Linear,
    NearestMipmapNearest,
    LinearMipmapNearest,
    NearestMipmapLinear,
    LinearMipmapLinear,
}

/// Wrapping of texture coordinates declared by an asset.
#[derive(Clone, Copy, Debug, PartialEq, Eq, Structural)]
pub enum WrappingMode {
    ClampToEdge,
    MirroredRepeat,
    Repeat,
}

/// The sampler settings of an asset's texture.
#[derive(Clone, Copy, Debug, PartialEq, Eq, Structural)]
pub struct Sampler {
    pub mag_filter: Option<MagFilter>,
    pub min_filter: Option<MinFilter>,
    pub wrap_s: WrappingMode,
    pub wrap_t: WrappingMode,
}

/// Filter of a device sampler.
#[derive(Clone, Copy, Debug, PartialEq, Eq, Structural)]
pub enum Filter {
    Nearest,
    Linear,
}

/// How a device sampler chooses between mipmap levels.
#[derive(Clone, Copy, Debug, PartialEq, Eq, Structural)]
pub enum MipmapMode {
    Nearest,
    Linear,
}

/// Addressing of a device sampler outside of the unit square.
#[derive(Clone, Copy, Debug, PartialEq, Eq, Structural)]
pub enum AddressMode {
    ClampToEdge,
    MirroredRepeat,
    Repeat,
}

/// The settings a device sampler is created with.
#[derive(Clone, Copy, Debug, PartialEq, Eq, Structural)]
pub struct SamplerSettings {
    pub mag_filter: Filter,
    pub min_filter: Filter,
    pub mipmap_mode: MipmapMode,
    pub address_u: AddressMode,
    pub address_v: AddressMode,
    pub address_w: AddressMode,
    /// Anisotropic filtering at the largest ratio the device reports.
    pub max_anisotropy: bool,
}

impl MagFilter {
    /// The device filter of the same name.
    pub open spec fn native(self) -> Filter {
        match self {
            MagFilter::Nearest => Filter::Nearest,
            MagFilter::Linear => Filter::Linear,
        }
    }
}

impl MinFilter {
    /// The device filter named before `Mipmap`, or by the whole name.
    pub open spec fn native(self) -> Filter {
        match self {
            MinFilter::Nearest => Filter::Nearest,
            MinFilter::Linear => Filter::Linear,
            MinFilter::NearestMipmapNearest => Filter::Nearest,
            MinFilter::LinearMipmapNearest => Filter::Linear,
            MinFilter::NearestMipmapLinear => Filter::Nearest,
            MinFilter::LinearMipmapLinear => Filter::Linear,
        }
    }

    /// The mipmap mode named after `Mipmap`; linear where none is named.
    pub open spec fn native_mipmap_mode(self) -> MipmapMode {
        match self {
            MinFilter::NearestMipmapNearest => MipmapMode::Nearest,
            MinFilter::LinearMipmapNearest => MipmapMode::Nearest,
            _ => MipmapMode::Linear,
        }
    }
}

impl WrappingMode {
    /// The device address mode of the same name.
    pub open spec fn native(self) -> AddressMode {
        match self {
            WrappingMode::ClampToEdge => AddressMode::ClampToEdge,
            WrappingMode::MirroredRepeat => AddressMode::MirroredRepeat,
            WrappingMode::Repeat => AddressMode::Repeat,
        }
    }
}

impl Sampler {
    /// The sampler of a texture that declares none: linear filters and
    /// repeating coordinates.
    pub open spec fn spec_standard() -> Sampler {
        Sampler {
            mag_filter: None,
            min_filter: None,
            wrap_s: WrappingMode::Repeat,
            wrap_t: WrappingMode::Repeat,
        }
    }

    /// The sampler of a texture that declares none.
    #[verifier::when_used_as_spec(spec_standard)]
    pub fn standard() -> (sampler: Sampler)
        ensures
            sampler == Sampler::spec_standard(),
    {
        Sampler {
            mag_filter: None,
            min_filter: None,
            wrap_s: WrappingMode::Repeat,
            wrap_t: WrappingMode::Repeat,
        }
    }

    /// The device settings for this sampler.
    ///
    /// Filters and wrap modes map to the device's of the same name, a filter
    /// that is not declared to linear. Mipmap levels are blended linearly
    /// unless the minification filter asks for the nearest. The third
    /// coordinate repeats. Anisotropic filtering is on at the device's
    /// maximum.
    pub open spec fn spec_settings(&self) -> SamplerSettings {
        SamplerSettings {
            mag_filter: match self.mag_filter {
                Some(filter) => filter.native(),
                None => Filter::Linear,
            },
            min_filter: match self.min_filter {
                Some(filter) => filter.native(),
                None => Filter::Linear,
            },
            mipmap_mode: match self.min_filter {
                Some(filter) => filter.native_mipmap_mode(),
                None => MipmapMode::Linear,
            },
            address_u: self.wrap_s.native(),
            address_v: self.wrap_t.native(),
            address_w: AddressMode::Repeat,
            max_anisotropy: true,
        }
    }

    /// The device settings for this sampler.
    #[verifier::when_used_as_spec(spec_settings)]
    pub fn settings(&self) -> (settings: SamplerSettings)
        ensures
            settings == self.spec_settings(),
    {
        let mag_filter = match self.mag_filter {
            Some(MagFilter::Nearest) => Filter::Nearest,
            Some(MagFilter::Linear) => Filter::Linear,
            None => Filter::Linear,
        };
        let (min_filter, mipmap_mode) = match self.min_filter {
            Some(MinFilter::Nearest) => (Filter::Nearest, MipmapMode::Linear),
            Some(MinFilter::Linear) => (Filter::Linear, MipmapMode::Linear),
            Some(MinFilter::NearestMipmapNearest) => (Filter::Nearest, MipmapMode::Nearest),
            Some(MinFilter::LinearMipmapNearest) => (Filter::Linear, MipmapMode::Nearest),
            Some(MinFilter::NearestMipmapLinear) => (Filter::Nearest, MipmapMode::Linear),
            Some(MinFilter::LinearMipmapLinear) => (Filter::Linear, MipmapMode::Linear),
            None => (Filter::Linear, MipmapMode::Linear),
        };
        SamplerSettings {
            mag_filter,
            min_filter,
            mipmap_mode,
            address_u: address_mode(self.wrap_s),
            address_v: address_mode(self.wrap_t),
            address_w: AddressMode::Repeat,
            max_anisotropy: true,
        }
    }
}

/// The device address mode for a wrapping mode.
pub fn address_mode(wrap: WrappingMode) -> (mode: AddressMode)
    ensures
        mode == wrap.native(),
{
    match wrap {
        WrappingMode::ClampToEdge => AddressMode::ClampToEdge,
        WrappingMode::MirroredRepeat => AddressMode::MirroredRepeat,
        WrappingMode::Repeat => AddressMode::Repeat,
    }
}

} // verus!
