//! The reference scene: an opaque background, one closed outline filled with
//! a rotated linear gradient, and the same outline stroked a little to the
//! right and below with a round white pen.

use vstd::prelude::*;
use crate::error::SceneError;
use crate::model::{FillRule, Gradient, LineCap, LineJoin, Paint, Point, Rgba, Segment, Shading, Spread, StrokeStyle};
use crate::raster::{
    builder_close, builder_cubic_to, builder_finish, builder_line_to, builder_move_to,
    builder_new, builder_segments, fill_path, filled, flat, linear_gradient, path_segments,
    pixmap_bytes, pixmap_fill, pixmap_new, pixmap_size, shader_shading, solid_shader,
    stroke_path, stroked, well_formed,
};

verus! {

/// The width of the reference canvas, in pixels.
pub const WIDTH: u32 = 192;

/// The height of the reference canvas, in pixels.
pub const HEIGHT: u32 = 192;

/// The colour of the canvas before anything is drawn.
pub open spec fn background() -> Rgba {
    Rgba { r: 18, g: 18, b: 22, a: 255 }
}

/// The outline of the scene: a line and a cubic curve, closed into one
/// contour.
pub open spec fn outline() -> Seq<Segment> {
    seq![
        Segment::MoveTo(Point { x: 36, y: 36 }),
        Segment::LineTo(Point { x: 156, y: 48 }),
        Segment::CubicTo(Point { x: 160, y: 84 }, Point { x: 108, y: 144 }, Point { x: 52, y: 156 }),
        Segment::Close,
    ]
}

/// The gradient of the fill: from light blue to coral, reflected beyond its
/// anchors, its coordinate space rotated by 0.35 radians.
pub open spec fn fill_gradient() -> Gradient {
    Gradient {
        start: Point { x: 20, y: 24 },
        end: Point { x: 172, y: 172 },
        start_color: Rgba { r: 44, g: 176, b: 255, a: 255 },
        end_color: Rgba { r: 244, g: 108, b: 92, a: 255 },
        spread: Spread::Reflect,
        rotation: 35,
    }
}

/// The colour of the stroke.
pub open spec fn stroke_color() -> Rgba {
    Rgba { r: 250, g: 250, b: 252, a: 255 }
}

/// The pen of the stroke: six pixels wide, with round joins and round caps.
pub open spec fn stroke_style() -> StrokeStyle {
    StrokeStyle { width: 6, join: LineJoin::Round, cap: LineCap::Round }
}

/// By how much the stroke is moved away from the fill.
pub open spec fn stroke_offset() -> Point {
    Point { x: 4, y: 6 }
}

/// The bytes of a canvas of the given size that held `before`, after the
/// `contour` was filled in place with the `shading` and then stroked with the
/// scene's pen at the scene's offset. Both are anti-aliased.
pub open spec fn painted(
    size: (u32, u32),
    before: Seq<u8>,
    contour: Seq<Segment>,
    shading: Shading,
) -> Seq<u8> {
    stroked(
        size,
        filled(
            size,
            before,
            contour,
            Paint { shading, anti_alias: true },
            FillRule::Winding,
            Point { x: 0, y: 0 },
        ),
        contour,
        Paint { shading: Shading::Solid(stroke_color()), anti_alias: true },
        stroke_style(),
        stroke_offset(),
    )
}

/// The bytes of the finished scene on a canvas of the given size.
pub open spec fn scene_pixels(size: (u32, u32)) -> Seq<u8> {
    painted(
        size,
        flat(background(), (4 * size.0 * size.1) as nat),
        outline(),
        Shading::Linear(fill_gradient()),
    )
}

/// The bytes of the reference image.
pub open spec fn reference_pixels() -> Seq<u8> {
    scene_pixels((WIDTH, HEIGHT))
}

/// A pixmap is the reference canvas: it has the reference size, four bytes
/// for each pixel, and holds the reference image.
pub open spec fn is_reference_canvas(pixmap: tiny_skia::Pixmap) -> bool {
    &&& pixmap_size(pixmap) == (WIDTH, HEIGHT)
    &&& pixmap_bytes(pixmap).len() == 4 * WIDTH * HEIGHT
    &&& pixmap_bytes(pixmap) == reference_pixels()
}

/// Fills and strokes a finished outline on the pixmap, given what finishing
/// the outline and constructing the fill's shader came to.
///
/// A missing outline is a geometry error, a missing shader a shader error; in
/// both cases nothing is drawn.
pub fn paint_scene(
    pixmap: &mut tiny_skia::Pixmap,
    finished: Option<tiny_skia::Path>,
    made: Option<tiny_skia::Shader<'static>>,
) -> (outcome: Result<(), SceneError>)
    requires
        well_formed(*old(pixmap)),
    ensures
        outcome == (match (finished, made) {
            (None, _) => Err::<(), SceneError>(SceneError::Geometry),
            (Some(_), None) => Err(SceneError::Shader),
            (Some(_), Some(_)) => Ok(()),
        }),
        outcome is Err ==> *final(pixmap) == *old(pixmap),
        pixmap_size(*final(pixmap)) == pixmap_size(*old(pixmap)),
        well_formed(*final(pixmap)),
        outcome is Ok ==> pixmap_bytes(*final(pixmap)) == painted(
            pixmap_size(*old(pixmap)),
            pixmap_bytes(*old(pixmap)),
            path_segments(finished->0),
            shader_shading(made->0),
        ),
{
    let path = match finished {
        Some(path) => path,
        None => {
            return Err(SceneError::Geometry);
        },
    };
    let gradient = match made {
        Some(shader) => shader,
        None => {
            return Err(SceneError::Shader);
        },
    };
    fill_path(pixmap, &path, gradient, true, FillRule::Winding, Point { x: 0, y: 0 });
    let white = solid_shader(Rgba { r: 250, g: 250, b: 252, a: 255 });
    let pen = StrokeStyle { width: 6, join: LineJoin::Round, cap: LineCap::Round };
    stroke_path(pixmap, &path, white, true, pen, Point { x: 4, y: 6 });
    Ok(())
}

/// Draws the scene on the pixmap, whatever it held before.
///
/// This always succeeds: the outline has four segments and so finishes, and
/// the gradient has distinct anchors and so is constructed.
pub fn build_scene(pixmap: &mut tiny_skia::Pixmap) -> (outcome: Result<(), SceneError>)
    requires
        well_formed(*old(pixmap)),
    ensures
        outcome is Ok,
        pixmap_size(*final(pixmap)) == pixmap_size(*old(pixmap)),
        pixmap_bytes(*final(pixmap)) == scene_pixels(pixmap_size(*old(pixmap))),
        well_formed(*final(pixmap)),
{
    pixmap_fill(pixmap, Rgba { r: 18, g: 18, b: 22, a: 255 });

    let mut builder = builder_new();
    builder_move_to(&mut builder, Point { x: 36, y: 36 });
    builder_line_to(&mut builder, Point { x: 156, y: 48 });
    builder_cubic_to(
        &mut builder,
        Point { x: 160, y: 84 },
        Point { x: 108, y: 144 },
        Point { x: 52, y: 156 },
    );
    builder_close(&mut builder);
    assert(builder_segments(builder) == outline());
    let finished = builder_finish(builder);

    let made = linear_gradient(
        Point { x: 20, y: 24 },
        Point { x: 172, y: 172 },
        Rgba { r: 44, g: 176, b: 255, a: 255 },
        Rgba { r: 244, g: 108, b: 92, a: 255 },
        Spread::Reflect,
        35,
    );

    paint_scene(pixmap, finished, made)
}

/// Whether a canvas of the given size can be allocated: neither side is
/// zero, and a row of four bytes per pixel is at most `i32::MAX` bytes long.
pub open spec fn can_allocate(width: u32, height: u32) -> bool {
    1 <= width <= 0x1fff_ffff && 1 <= height
}

/// Renders the scene on a fresh canvas of the given size.
///
/// The only failure is a size that cannot be allocated.
pub fn render_canvas(width: u32, height: u32) -> (rendered: Result<tiny_skia::Pixmap, SceneError>)
    requires
        4 * width * height <= isize::MAX,
    ensures
        rendered is Ok <==> can_allocate(width, height),
        rendered matches Err(error) ==> error == SceneError::Allocation,
        rendered matches Ok(canvas) ==> pixmap_size(canvas) == (width, height),
        rendered matches Ok(canvas) ==> pixmap_bytes(canvas) == scene_pixels((width, height)),
        rendered matches Ok(canvas) ==> well_formed(canvas),
{
    let mut pixmap = match pixmap_new(width, height) {
        Some(pixmap) => pixmap,
        None => {
            return Err(SceneError::Allocation);
        },
    };
    match build_scene(&mut pixmap) {
        Ok(()) => Ok(pixmap),
        Err(error) => Err(error),
    }
}

/// Renders the reference image: the scene on a canvas of the reference size.
///
/// This always succeeds.
pub fn render_scene() -> (rendered: Result<tiny_skia::Pixmap, SceneError>)
    ensures
        rendered matches Ok(canvas) && is_reference_canvas(canvas),
{
    assert(4 * WIDTH * HEIGHT == 147456);
    render_canvas(WIDTH, HEIGHT)
}

/// Rendering is deterministic: any two canvases that it returns have the
/// same size and are equal byte for byte.
pub proof fn lemma_render_is_deterministic(first: tiny_skia::Pixmap, second: tiny_skia::Pixmap)
    requires
        is_reference_canvas(first),
        is_reference_canvas(second),
    ensures
        pixmap_size(first) == pixmap_size(second),
        pixmap_bytes(first) == pixmap_bytes(second),
{
}

} // verus!
