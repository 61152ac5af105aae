//! Render targets and their samplers.
//!
//! A [`Texture`] models one GPU render target: its identity, its pixel
//! dimensions, its format and its sampler configuration.  Targets are
//! sized to the surface dimensions times a rational render scale, the
//! product floored; recreating a target bumps its generation, so every
//! binding set that captured the old incarnation is recognisably stale.

use vstd::prelude::*;

use crate::binding::ResourceId;

verus! {

/// Texture formats the renderer uses.
#[derive(Clone, Copy, PartialEq, Eq, Structural, Debug)]
pub enum TextureFormat {
    Bgra8UnormSrgb,
    Rgba8Unorm,
    Rgba8UnormSrgb,
    Depth24PlusStencil8,
}

/// How a sampler interpolates between texels.
#[derive(Clone, Copy, PartialEq, Eq, Structural, Debug)]
pub enum FilterMode {
    Nearest,
    Linear,
}

/// Comparison functions for depth tests and comparison samplers.
#[derive(Clone, Copy, PartialEq, Eq, Structural, Debug)]
pub enum CompareFunction {
    Never,
    Less,
    Equal,
    LessEqual,
    Greater,
    Always,
}

/// A sampler's configuration.
#[derive(Clone, Copy, PartialEq, Eq, Structural, Debug)]
pub struct SamplerConfig {
    pub mag_filter: FilterMode,
    pub min_filter: FilterMode,
    pub compare: Option<CompareFunction>,
}

/// The presentation surface's current configuration.
#[derive(Clone, Copy, PartialEq, Eq, Structural, Debug)]
pub struct SurfaceConfig {
    pub width: u32,
    pub height: u32,
    pub format: TextureFormat,
}

/// The render scale as an exact rational: intermediate targets are sized
/// to `surface dimension * num / den`, floored.
#[derive(Clone, Copy, PartialEq, Eq, Structural, Debug)]
pub struct RenderScale {
    pub num: u32,
    pub den: u32,
}

impl RenderScale {
    pub open spec fn wf(self) -> bool {
        self.num > 0 && self.den > 0
    }
}

/// One surface dimension scaled by the render scale:
/// `floor(d * num / den)`, clamped to what a `u32` extent can hold.
pub open spec fn spec_scaled_dim(d: int, num: int, den: int) -> int
    recommends
        den > 0,
{
    let s = d * num / den;
    if s > u32::MAX {
        u32::MAX as int
    } else {
        s
    }
}

/// Executable mirror of [`spec_scaled_dim`].
pub fn scaled_dim(d: u32, scale: RenderScale) -> (r: u32)
    requires
        scale.wf(),
    ensures
        r == spec_scaled_dim(d as int, scale.num as int, scale.den as int),
{
    proof {
        assert((d as int) * (scale.num as int) <= 0xFFFF_FFFF * 0xFFFF_FFFF) by (nonlinear_arith)
            requires
                d as int <= 0xFFFF_FFFF,
                scale.num as int <= 0xFFFF_FFFF,
                0 <= d as int,
                0 <= scale.num as int,
        ;
    }
    let wide: u64 = (d as u64) * (scale.num as u64) / (scale.den as u64);
    if wide > u32::MAX as u64 {
        u32::MAX
    } else {
        wide as u32
    }
}

/// How image bytes should be decoded.
#[derive(Clone, Copy, PartialEq, Eq, Structural, Debug)]
pub enum ImageDecodeFormat {
    /// Decode as a TGA file: the format carries no magic bytes, so it is
    /// picked by file name.
    Tga,
    /// Sniff the format from the bytes themselves.
    Sniffed,
}

/// The four bytes of the TGA file-name marker stand at position `i`.
pub open spec fn tga_marker_at(s: Seq<u8>, i: int) -> bool {
    &&& s[i] == 46
    &&& s[i + 1] == 116
    &&& s[i + 2] == 103
    &&& s[i + 3] == 97
}

/// The path names a TGA file: its bytes contain ".tga" somewhere.
pub open spec fn path_names_tga(s: Seq<u8>) -> bool {
    exists|i: int| 0 <= i && i + 4 <= s.len() && tga_marker_at(s, i)
}

/// The decode format chosen from an image path: TGA exactly when the
/// path's bytes contain the ".tga" marker, otherwise sniffed.
pub fn image_decode_format(path: &[u8]) -> (f: ImageDecodeFormat)
    ensures
        f == ImageDecodeFormat::Tga <==> path_names_tga(path@),
        f == ImageDecodeFormat::Sniffed <==> !path_names_tga(path@),
{
    let n = path.len();
    if n < 4 {
        return ImageDecodeFormat::Sniffed;
    }
    let mut i: usize = 0;
    while i <= n - 4
        invariant
            n == path@.len(),
            4 <= n,
            i <= n - 3,
            forall|j: int| 0 <= j < i ==> !#[trigger] tga_marker_at(path@, j),
        decreases n - i,
    {
        if path[i] == 46 && path[i + 1] == 116 && path[i + 2] == 103 && path[i + 3] == 97 {
            proof {
                assert(tga_marker_at(path@, i as int));
            }
            return ImageDecodeFormat::Tga;
        }
        i += 1;
    }
    ImageDecodeFormat::Sniffed
}

/// One GPU render target: a texture, its view and its sampler, under one
/// identity.
#[derive(Clone, Copy, PartialEq, Eq, Structural, Debug)]
pub struct Texture {
    pub id: ResourceId,
    pub width: u32,
    pub height: u32,
    pub format: TextureFormat,
    pub sampler: SamplerConfig,
}

impl Texture {
    /// The fixed depth-plus-stencil format of every depth target.
    pub open spec fn spec_depth_format() -> TextureFormat {
        TextureFormat::Depth24PlusStencil8
    }

    /// Executable mirror of [`Texture::spec_depth_format`].
    pub fn depth_format() -> (f: TextureFormat)
        ensures
            f == Self::spec_depth_format(),
    {
        TextureFormat::Depth24PlusStencil8
    }

    /// Creates the depth target: surface dimensions times the render
    /// scale, the fixed depth-plus-stencil format, and a linear-filtering
    /// comparison sampler with less-or-equal compare.
    pub fn create_depth_texture(surface_config: &SurfaceConfig, render_scale: RenderScale, id: ResourceId) -> (t: Texture)
        requires
            render_scale.wf(),
        ensures
            t.id == id,
            t.width == spec_scaled_dim(
                surface_config.width as int,
                render_scale.num as int,
                render_scale.den as int,
            ),
            t.height == spec_scaled_dim(
                surface_config.height as int,
                render_scale.num as int,
                render_scale.den as int,
            ),
            t.format == Self::spec_depth_format(),
            t.sampler == (SamplerConfig {
                mag_filter: FilterMode::Linear,
                min_filter: FilterMode::Linear,
                compare: Some(CompareFunction::LessEqual),
            }),
    {
        Texture {
            id,
            width: scaled_dim(surface_config.width, render_scale),
            height: scaled_dim(surface_config.height, render_scale),
            format: Texture::depth_format(),
            sampler: SamplerConfig {
                mag_filter: FilterMode::Linear,
                min_filter: FilterMode::Linear,
                compare: Some(CompareFunction::LessEqual),
            },
        }
    }

    /// The descriptor of an image texture the decoding collaborator
    /// uploads: its decoded dimensions, a normal map stored linearly and
    /// anything else in sRGB, and a filtering sampler without comparison.
    pub fn image_texture_descriptor(width: u32, height: u32, is_normal_map: bool, id: ResourceId) -> (t: Texture)
        ensures
            t.id == id,
            t.width == width,
            t.height == height,
            t.format == (if is_normal_map {
                TextureFormat::Rgba8Unorm
            } else {
                TextureFormat::Rgba8UnormSrgb
            }),
            t.sampler == (SamplerConfig {
                mag_filter: FilterMode::Linear,
                min_filter: FilterMode::Nearest,
                compare: None::<CompareFunction>,
            }),
    {
        Texture {
            id,
            width,
            height,
            format: if is_normal_map {
                TextureFormat::Rgba8Unorm
            } else {
                TextureFormat::Rgba8UnormSrgb
            },
            sampler: SamplerConfig {
                mag_filter: FilterMode::Linear,
                min_filter: FilterMode::Nearest,
                compare: None,
            },
        }
    }

    /// Creates a colour render target: surface dimensions times the
    /// render scale, the surface's own format, and a filtering sampler
    /// without comparison.
    pub fn create_render_texture(surface_config: &SurfaceConfig, render_scale: RenderScale, id: ResourceId) -> (t: Texture)
        requires
            render_scale.wf(),
        ensures
            t.id == id,
            t.width == spec_scaled_dim(
                surface_config.width as int,
                render_scale.num as int,
                render_scale.den as int,
            ),
            t.height == spec_scaled_dim(
                surface_config.height as int,
                render_scale.num as int,
                render_scale.den as int,
            ),
            t.format == surface_config.format,
            t.sampler == (SamplerConfig {
                mag_filter: FilterMode::Linear,
                min_filter: FilterMode::Nearest,
                compare: None::<CompareFunction>,
            }),
    {
        Texture {
            id,
            width: scaled_dim(surface_config.width, render_scale),
            height: scaled_dim(surface_config.height, render_scale),
            format: surface_config.format,
            sampler: SamplerConfig {
                mag_filter: FilterMode::Linear,
                min_filter: FilterMode::Nearest,
                compare: None,
            },
        }
    }
}

} // verus!
