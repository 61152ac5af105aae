use render_core::binding::ResourceId;
use render_core::texture::CompareFunction;
use render_core::texture::FilterMode;
use render_core::texture::RenderScale;
use render_core::texture::SurfaceConfig;
use render_core::texture::Texture;
use render_core::texture::TextureFormat;
use render_core::texture::scaled_dim;
use render_core::texture::image_decode_format;
use render_core::texture::ImageDecodeFormat;

fn double() -> RenderScale {
    RenderScale { num: 2, den: 1 }
}

fn config(width: u32, height: u32) -> SurfaceConfig {
    SurfaceConfig {
        width,
        height,
        format: TextureFormat::Bgra8UnormSrgb,
    }
}

#[test]
fn scaled_dim_multiplies_exactly() {
    assert_eq!(scaled_dim(800, double()), 1600);
    assert_eq!(scaled_dim(0, double()), 0);
}

#[test]
fn scaled_dim_floors_fractions() {
    let half = RenderScale { num: 1, den: 2 };
    assert_eq!(scaled_dim(333, half), 166);
    let three_halves = RenderScale { num: 3, den: 2 };
    assert_eq!(scaled_dim(333, three_halves), 499);
}

#[test]
fn scaled_dim_clamps_to_extent_range() {
    assert_eq!(scaled_dim(u32::MAX, double()), u32::MAX);
}

#[test]
fn depth_texture_has_fixed_format_and_comparison_sampler() {
    let t = Texture::create_depth_texture(
        &config(800, 600),
        double(),
        ResourceId {
            slot: 0,
            generation: 4,
        },
    );
    assert_eq!(t.width, 1600);
    assert_eq!(t.height, 1200);
    assert_eq!(t.format, TextureFormat::Depth24PlusStencil8);
    assert_eq!(t.sampler.compare, Some(CompareFunction::LessEqual));
    assert_eq!(t.sampler.mag_filter, FilterMode::Linear);
    assert_eq!(t.sampler.min_filter, FilterMode::Linear);
    assert_eq!(t.id.generation, 4);
}

#[test]
fn render_texture_takes_the_surface_format() {
    let t = Texture::create_render_texture(
        &config(1920, 1080),
        double(),
        ResourceId {
            slot: 1,
            generation: 0,
        },
    );
    assert_eq!(t.width, 3840);
    assert_eq!(t.height, 2160);
    assert_eq!(t.format, TextureFormat::Bgra8UnormSrgb);
    assert_eq!(t.sampler.compare, None);
    assert_eq!(t.sampler.mag_filter, FilterMode::Linear);
    assert_eq!(t.sampler.min_filter, FilterMode::Nearest);
}

#[test]
fn image_texture_descriptor_picks_linear_for_normal_maps() {
    let id = ResourceId {
        slot: 9,
        generation: 0,
    };
    let normal = Texture::image_texture_descriptor(256, 128, true, id);
    assert_eq!(normal.format, TextureFormat::Rgba8Unorm);
    assert_eq!(normal.width, 256);
    assert_eq!(normal.height, 128);
    assert_eq!(normal.id, id);
    assert_eq!(normal.sampler.mag_filter, FilterMode::Linear);
    assert_eq!(normal.sampler.min_filter, FilterMode::Nearest);
    assert_eq!(normal.sampler.compare, None);
    let diffuse = Texture::image_texture_descriptor(256, 128, false, id);
    assert_eq!(diffuse.format, TextureFormat::Rgba8UnormSrgb);
}

#[test]
fn decode_format_is_tga_exactly_when_the_path_names_it() {
    assert_eq!(
        image_decode_format(b"resources/cube/cube-normal.tga"),
        ImageDecodeFormat::Tga
    );
    assert_eq!(
        image_decode_format(b"a.tga.png"),
        ImageDecodeFormat::Tga
    );
    assert_eq!(
        image_decode_format(b"resources/cube/cube.png"),
        ImageDecodeFormat::Sniffed
    );
    assert_eq!(image_decode_format(b"tga"), ImageDecodeFormat::Sniffed);
    assert_eq!(image_decode_format(b""), ImageDecodeFormat::Sniffed);
}
