use tiny_skia_rust_png::error::SceneError;
use tiny_skia_rust_png::export::{
    copy_pixels, encode_reference_png, png_or_error, tiny_skia_rust_reference_height,
    tiny_skia_rust_reference_stride, tiny_skia_rust_reference_width,
    tiny_skia_rust_render_reference,
};
use tiny_skia_rust_png::scene::{build_scene, paint_scene, render_canvas, render_scene, HEIGHT, WIDTH};

const IMAGE_LEN: usize = 147456;
const BACKGROUND: [u8; 4] = [18, 18, 22, 255];

fn pixel(data: &[u8], width: usize, x: usize, y: usize) -> [u8; 4] {
    let at = (y * width + x) * 4;
    [data[at], data[at + 1], data[at + 2], data[at + 3]]
}

/// The scene as the rasterizer draws it when it is called directly, with the
/// gradient's rotation of 0.35 radians given in degrees.
fn drawn_directly(width: u32, height: u32) -> tiny_skia::Pixmap {
    drawn_with_rotation(width, height, 0.35f32.to_degrees())
}

fn drawn_with_rotation(width: u32, height: u32, degrees: f32) -> tiny_skia::Pixmap {
    let mut pixmap = tiny_skia::Pixmap::new(width, height).unwrap();
    pixmap.fill(tiny_skia::Color::from_rgba8(18, 18, 22, 255));

    let mut builder = tiny_skia::PathBuilder::new();
    builder.move_to(36.0, 36.0);
    builder.line_to(156.0, 48.0);
    builder.cubic_to(160.0, 84.0, 108.0, 144.0, 52.0, 156.0);
    builder.close();
    let path = builder.finish().unwrap();

    let shader = tiny_skia::LinearGradient::new(
        tiny_skia::Point::from_xy(20.0, 24.0),
        tiny_skia::Point::from_xy(172.0, 172.0),
        vec![
            tiny_skia::GradientStop::new(0.0, tiny_skia::Color::from_rgba8(44, 176, 255, 255)),
            tiny_skia::GradientStop::new(1.0, tiny_skia::Color::from_rgba8(244, 108, 92, 255)),
        ],
        tiny_skia::SpreadMode::Reflect,
        tiny_skia::Transform::from_rotate(degrees),
    )
    .unwrap();
    let mut fill_paint = tiny_skia::Paint::default();
    fill_paint.shader = shader;
    fill_paint.anti_alias = true;
    fill_paint.blend_mode = tiny_skia::BlendMode::SourceOver;
    pixmap.fill_path(
        &path,
        &fill_paint,
        tiny_skia::FillRule::Winding,
        tiny_skia::Transform::identity(),
        None,
    );

    let mut stroke_paint = tiny_skia::Paint::default();
    stroke_paint.shader = tiny_skia::Shader::SolidColor(tiny_skia::Color::from_rgba8(250, 250, 252, 255));
    stroke_paint.anti_alias = true;
    stroke_paint.blend_mode = tiny_skia::BlendMode::SourceOver;
    let mut stroke = tiny_skia::Stroke::default();
    stroke.width = 6.0;
    stroke.line_join = tiny_skia::LineJoin::Round;
    stroke.line_cap = tiny_skia::LineCap::Round;
    pixmap.stroke_path(
        &path,
        &stroke_paint,
        &stroke,
        tiny_skia::Transform::from_translate(4.0, 6.0),
        None,
    );
    pixmap
}

#[test]
fn dimensions_are_fixed() {
    assert_eq!(tiny_skia_rust_reference_width(), 192);
    assert_eq!(tiny_skia_rust_reference_height(), 192);
    assert_eq!(tiny_skia_rust_reference_stride(), 768);
    assert_eq!(WIDTH, 192);
    assert_eq!(HEIGHT, 192);
    assert_eq!(
        tiny_skia_rust_reference_stride() * tiny_skia_rust_reference_height() as usize,
        IMAGE_LEN
    );
}

#[test]
fn render_gives_a_canvas_of_the_reference_size() {
    let canvas = render_scene().unwrap();
    assert_eq!(canvas.width(), 192);
    assert_eq!(canvas.height(), 192);
    assert_eq!(canvas.data().len(), IMAGE_LEN);
}

#[test]
fn render_matches_the_rasterizer_called_directly() {
    let canvas = render_scene().unwrap();
    let direct = drawn_directly(192, 192);
    assert!(canvas.data() == direct.data());
}

#[test]
fn gradient_rotation_is_in_radians() {
    let canvas = render_scene().unwrap();
    // 0.35 radians are about 20.05 degrees
    let in_degrees = drawn_with_rotation(192, 192, 20.053523);
    assert!(canvas.data() == in_degrees.data());
    let unrotated = drawn_with_rotation(192, 192, 0.0);
    assert!(canvas.data() != unrotated.data());
    let by_a_third_of_a_degree = drawn_with_rotation(192, 192, 0.35);
    assert!(canvas.data() != by_a_third_of_a_degree.data());
}

#[test]
fn render_is_deterministic() {
    let first = render_scene().unwrap();
    let second = render_scene().unwrap();
    assert!(first.data() == second.data());
}

#[test]
fn corner_pixel_is_background() {
    let canvas = render_scene().unwrap();
    assert_eq!(pixel(canvas.data(), 192, 0, 0), BACKGROUND);
    assert_eq!(pixel(canvas.data(), 192, 191, 191), BACKGROUND);
}

#[test]
fn inner_pixel_is_filled_and_opaque() {
    let canvas = render_scene().unwrap();
    let inside = pixel(canvas.data(), 192, 90, 90);
    assert_ne!(inside, BACKGROUND);
    assert_ne!(inside[3], 0);
    assert_eq!(inside[3], 255);
}

#[test]
fn fill_is_a_gradient_between_its_two_colors() {
    let canvas = render_scene().unwrap();
    let near_start = pixel(canvas.data(), 192, 70, 50);
    let near_end = pixel(canvas.data(), 192, 100, 130);
    assert_ne!(near_start, near_end);
    for inside in [near_start, near_end] {
        assert!(44 <= inside[0] && inside[0] <= 244);
        assert!(108 <= inside[1] && inside[1] <= 176);
        assert!(92 <= inside[2]);
        assert_eq!(inside[3], 255);
    }
}

#[test]
fn stroke_is_offset_from_the_fill() {
    let canvas = render_scene().unwrap();
    // The straight edge runs from (36,36) to (156,48); its stroke is drawn
    // four pixels to the right and six below.
    assert_eq!(pixel(canvas.data(), 192, 100, 48), [250, 250, 252, 255]);
    assert_ne!(pixel(canvas.data(), 192, 96, 42), [250, 250, 252, 255]);
}

#[test]
fn every_pixel_is_opaque() {
    let canvas = render_scene().unwrap();
    assert!(canvas.data().chunks(4).all(|p| p[3] == 255));
}

#[test]
fn missing_buffer_is_refused() {
    assert!(!tiny_skia_rust_render_reference(None));
}

#[test]
fn short_buffer_is_refused_and_left_alone() {
    let mut buffer = vec![7u8; IMAGE_LEN - 1];
    assert!(!tiny_skia_rust_render_reference(Some(&mut buffer)));
    assert!(buffer.iter().all(|b| *b == 7));

    let mut empty: Vec<u8> = Vec::new();
    assert!(!tiny_skia_rust_render_reference(Some(&mut empty)));
    assert!(empty.is_empty());
}

#[test]
fn exact_buffer_receives_the_canvas() {
    let mut buffer = vec![0u8; IMAGE_LEN];
    assert!(tiny_skia_rust_render_reference(Some(&mut buffer)));
    let canvas = render_scene().unwrap();
    assert!(buffer.as_slice() == canvas.data());
}

#[test]
fn longer_buffer_keeps_its_tail() {
    let mut buffer = vec![9u8; IMAGE_LEN + 5];
    assert!(tiny_skia_rust_render_reference(Some(&mut buffer)));
    let canvas = render_scene().unwrap();
    assert!(&buffer[..IMAGE_LEN] == canvas.data());
    assert_eq!(&buffer[IMAGE_LEN..], &[9u8; 5]);
}

#[test]
fn copy_pixels_wants_an_image_of_the_reference_length() {
    let mut buffer = vec![1u8; IMAGE_LEN];
    let short = vec![2u8; IMAGE_LEN - 4];
    assert!(!copy_pixels(&short, &mut buffer));
    assert!(buffer.iter().all(|b| *b == 1));

    let long = vec![2u8; IMAGE_LEN + 4];
    assert!(!copy_pixels(&long, &mut buffer));
    assert!(buffer.iter().all(|b| *b == 1));

    let image: Vec<u8> = (0..IMAGE_LEN).map(|i| (i % 251) as u8).collect();
    assert!(copy_pixels(&image, &mut buffer));
    assert!(buffer == image);
}

#[test]
fn copy_pixels_refuses_a_short_buffer() {
    let image = vec![3u8; IMAGE_LEN];
    let mut buffer = vec![1u8; 100];
    assert!(!copy_pixels(&image, &mut buffer));
    assert_eq!(buffer, vec![1u8; 100]);
}

#[test]
fn build_scene_overwrites_what_the_pixmap_held() {
    let mut pixmap = tiny_skia::Pixmap::new(192, 192).unwrap();
    pixmap.fill(tiny_skia::Color::from_rgba8(200, 0, 0, 255));
    assert_eq!(build_scene(&mut pixmap), Ok(()));
    let canvas = render_scene().unwrap();
    assert!(pixmap.data() == canvas.data());
}

#[test]
fn build_scene_draws_on_other_sizes() {
    let mut pixmap = tiny_skia::Pixmap::new(64, 48).unwrap();
    assert_eq!(build_scene(&mut pixmap), Ok(()));
    assert_eq!(pixmap.width(), 64);
    assert_eq!(pixmap.height(), 48);
    assert!(pixmap.data() == drawn_directly(64, 48).data());
    assert_eq!(pixel(pixmap.data(), 64, 0, 0), BACKGROUND);
}

#[test]
fn render_canvas_of_the_reference_size_is_the_reference() {
    let canvas = render_canvas(192, 192).unwrap();
    assert!(canvas.data() == render_scene().unwrap().data());
}

#[test]
fn empty_canvas_is_an_allocation_error() {
    assert_eq!(render_canvas(0, 192).err(), Some(SceneError::Allocation));
    assert_eq!(render_canvas(192, 0).err(), Some(SceneError::Allocation));
    assert_eq!(render_canvas(0, 0).err(), Some(SceneError::Allocation));
}

#[test]
fn too_wide_canvas_is_an_allocation_error() {
    assert_eq!(render_canvas(0x2000_0000, 1).err(), Some(SceneError::Allocation));
}

#[test]
fn missing_outline_is_a_geometry_error() {
    let mut pixmap = tiny_skia::Pixmap::new(8, 8).unwrap();
    let before = pixmap.clone();
    let shader = tiny_skia::Shader::SolidColor(tiny_skia::Color::from_rgba8(1, 2, 3, 255));
    assert_eq!(paint_scene(&mut pixmap, None, Some(shader)), Err(SceneError::Geometry));
    assert!(pixmap == before);
    assert_eq!(paint_scene(&mut pixmap, None, None), Err(SceneError::Geometry));
    assert!(pixmap == before);
}

#[test]
fn missing_gradient_is_a_shader_error() {
    let mut pixmap = tiny_skia::Pixmap::new(8, 8).unwrap();
    let before = pixmap.clone();
    let mut builder = tiny_skia::PathBuilder::new();
    builder.move_to(1.0, 1.0);
    builder.line_to(6.0, 1.0);
    builder.line_to(6.0, 6.0);
    builder.close();
    let path = builder.finish();
    assert!(path.is_some());
    assert_eq!(paint_scene(&mut pixmap, path, None), Err(SceneError::Shader));
    assert!(pixmap == before);
}

#[test]
fn paint_scene_fills_and_strokes() {
    let mut pixmap = tiny_skia::Pixmap::new(32, 32).unwrap();
    pixmap.fill(tiny_skia::Color::from_rgba8(18, 18, 22, 255));
    let mut builder = tiny_skia::PathBuilder::new();
    builder.move_to(2.0, 2.0);
    builder.line_to(20.0, 2.0);
    builder.line_to(20.0, 20.0);
    builder.line_to(2.0, 20.0);
    builder.close();
    let shader = tiny_skia::Shader::SolidColor(tiny_skia::Color::from_rgba8(10, 200, 30, 255));
    assert_eq!(paint_scene(&mut pixmap, builder.finish(), Some(shader)), Ok(()));
    // inside the fill, away from the stroke
    assert_eq!(pixel(pixmap.data(), 32, 12, 14), [10, 200, 30, 255]);
    // on the stroke of the top edge, moved by (4, 6)
    assert_eq!(pixel(pixmap.data(), 32, 14, 8), [250, 250, 252, 255]);
    // outside both
    assert_eq!(pixel(pixmap.data(), 32, 30, 30), BACKGROUND);
}

#[test]
fn encoder_failure_is_an_encoding_error() {
    assert_eq!(
        png_or_error(Err(png::EncodingError::LimitsExceeded)),
        Err(SceneError::Encoding)
    );
    assert_eq!(png_or_error(Ok(vec![1, 2, 3])), Ok(vec![1, 2, 3]));
}

#[test]
fn png_decodes_to_the_canvas() {
    let file = encode_reference_png().unwrap();
    assert_eq!(&file[..8], &[0x89, b'P', b'N', b'G', 0x0d, 0x0a, 0x1a, 0x0a]);
    let decoded = tiny_skia::Pixmap::decode_png(&file).unwrap();
    assert_eq!(decoded.width(), 192);
    assert_eq!(decoded.height(), 192);
    let canvas = render_scene().unwrap();
    assert!(decoded.data() == canvas.data());
}

#[test]
fn png_is_rgba_eight_bit_not_interlaced() {
    let file = encode_reference_png().unwrap();
    let decoder = png::Decoder::new(file.as_slice());
    let reader = decoder.read_info().unwrap();
    let info = reader.info();
    assert_eq!(info.width, 192);
    assert_eq!(info.height, 192);
    assert_eq!(info.color_type, png::ColorType::Rgba);
    assert_eq!(info.bit_depth, png::BitDepth::Eight);
    assert!(!info.interlaced);
}

#[test]
fn png_encoding_is_deterministic() {
    assert_eq!(encode_reference_png().unwrap(), encode_reference_png().unwrap());
}

#[test]
fn messages_name_the_failure() {
    assert_eq!(SceneError::Allocation.message(), "failed to allocate pixmap");
    assert_eq!(SceneError::Geometry.message(), "failed to finish path");
    assert_eq!(SceneError::Shader.message(), "failed to create gradient shader");
    assert_eq!(SceneError::Encoding.message(), "failed to encode PNG");
}
