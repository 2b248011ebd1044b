//! The boundary to the rasterizer.
//!
//! Everything in this file is believed, not proved: the declarations of the
//! rasterizer's types, the names for what its values hold and for what its
//! drawing calls produce, and one thin function around each call that the
//! scene makes. The rest of the crate is verified against these contracts.

use vstd::prelude::*;
use tiny_skia::{Color, GradientStop, LinearGradient, SpreadMode, Stroke, Transform};
use crate::model::{FillRule, Gradient, LineCap, LineJoin, Paint, Point, Rgba, Segment, Shading, Spread, StrokeStyle};

verus! {

/// `tiny_skia::Pixmap`, a container that owns premultiplied RGBA pixels.
#[verifier::external_type_specification]
#[verifier::external_body]
pub struct ExPixmap(tiny_skia::Pixmap);

/// `tiny_skia::PathBuilder`, an outline under construction.
#[verifier::external_type_specification]
#[verifier::external_body]
pub struct ExPathBuilder(tiny_skia::PathBuilder);

/// `tiny_skia::Path`, a finished outline.
#[verifier::external_type_specification]
#[verifier::external_body]
pub struct ExPath(tiny_skia::Path);

/// `tiny_skia::Shader`, a source of colour.
#[verifier::external_type_specification]
#[verifier::external_body]
pub struct ExShader<'a>(tiny_skia::Shader<'a>);

/// `png::EncodingError`, the failure of the PNG encoder.
#[verifier::external_type_specification]
#[verifier::external_body]
pub struct ExEncodingError(png::EncodingError);

/// The width and the height of a pixmap, in pixels.
pub uninterp spec fn pixmap_size(pixmap: tiny_skia::Pixmap) -> (u32, u32);

/// The bytes that a pixmap holds: row after row, four bytes per pixel in the
/// order red, green, blue, alpha.
pub uninterp spec fn pixmap_bytes(pixmap: tiny_skia::Pixmap) -> Seq<u8>;

/// The segments that a path builder holds, in the order in which they were
/// added.
pub uninterp spec fn builder_segments(builder: tiny_skia::PathBuilder) -> Seq<Segment>;

/// Whether the next line or curve added to a path builder would first start a
/// new contour by itself.
pub uninterp spec fn builder_awaits_move(builder: tiny_skia::PathBuilder) -> bool;

/// The segments that a finished path holds.
pub uninterp spec fn path_segments(path: tiny_skia::Path) -> Seq<Segment>;

/// The description from which a shader was made.
pub uninterp spec fn shader_shading(shader: tiny_skia::Shader<'static>) -> Shading;

/// The bytes of a pixmap of the given size that held `before`, after the
/// outline, moved by `offset`, was filled on it.
pub uninterp spec fn filled(
    size: (u32, u32),
    before: Seq<u8>,
    outline: Seq<Segment>,
    paint: Paint,
    rule: FillRule,
    offset: Point,
) -> Seq<u8>;

/// The bytes of a pixmap of the given size that held `before`, after the
/// outline, moved by `offset`, was stroked on it.
pub uninterp spec fn stroked(
    size: (u32, u32),
    before: Seq<u8>,
    outline: Seq<Segment>,
    paint: Paint,
    style: StrokeStyle,
    offset: Point,
) -> Seq<u8>;

/// The PNG file that the encoder writes for a pixmap of the given size and
/// bytes, or `None` where it fails.
pub uninterp spec fn png_encoding(size: (u32, u32), bytes: Seq<u8>) -> Option<Seq<u8>>;

/// A pixmap holds exactly four bytes for each of its pixels.
pub open spec fn well_formed(pixmap: tiny_skia::Pixmap) -> bool {
    pixmap_bytes(pixmap).len() == 4 * pixmap_size(pixmap).0 * pixmap_size(pixmap).1
}

/// The byte of a colour that stands at position `i` of a pixel.
pub open spec fn channel(color: Rgba, i: int) -> u8 {
    if i == 0 {
        color.r
    } else if i == 1 {
        color.g
    } else if i == 2 {
        color.b
    } else {
        color.a
    }
}

/// `len` bytes of pixels that all have the same colour.
pub open spec fn flat(color: Rgba, len: nat) -> Seq<u8> {
    Seq::new(len, |i: int| channel(color, i % 4))
}

/// `len` bytes of transparent black.
pub open spec fn blank(len: nat) -> Seq<u8> {
    Seq::new(len, |i: int| 0u8)
}

/// Whether the last segment of an outline starts a contour.
pub open spec fn ends_with_move(segments: Seq<Segment>) -> bool {
    segments.len() > 0 && segments.last() is MoveTo
}

/// Whether the last segment of an outline closes a contour.
pub open spec fn ends_with_close(segments: Seq<Segment>) -> bool {
    segments.len() > 0 && segments.last() is Close
}

/// `Pixmap::new`. It refuses an empty size and a width above `i32::MAX / 4`;
/// every other size gives a pixmap of that size whose bytes are all zero
/// (transparent black).
#[verifier::external_body]
pub(crate) fn pixmap_new(width: u32, height: u32) -> (made: Option<tiny_skia::Pixmap>)
    requires
        4 * width * height <= isize::MAX,
    ensures
        made.is_some() == (1 <= width <= 0x1fff_ffff && 1 <= height),
        made matches Some(pixmap) ==> pixmap_size(pixmap).0 == width && pixmap_size(pixmap).1
            == height,
        made matches Some(pixmap) ==> pixmap_bytes(pixmap) == blank((4 * width * height) as nat),
{
    tiny_skia::Pixmap::new(width, height)
}

/// `Pixmap::fill` with `Color::from_rgba8`. An opaque colour is its own
/// premultiplied form, and every pixel of the pixmap becomes that colour.
#[verifier::external_body]
pub(crate) fn pixmap_fill(pixmap: &mut tiny_skia::Pixmap, color: Rgba)
    requires
        well_formed(*old(pixmap)),
        color.a == 255,
    ensures
        pixmap_size(*final(pixmap)) == pixmap_size(*old(pixmap)),
        pixmap_bytes(*final(pixmap)) == flat(color, pixmap_bytes(*old(pixmap)).len()),
{
    pixmap.fill(Color::from_rgba8(color.r, color.g, color.b, color.a))
}

/// `Pixmap::data`, the bytes of the pixmap.
#[verifier::external_body]
pub(crate) fn pixmap_data(pixmap: &tiny_skia::Pixmap) -> (data: &[u8])
    ensures
        data@ == pixmap_bytes(*pixmap),
{
    pixmap.data()
}

/// `PathBuilder::new`, an empty builder.
#[verifier::external_body]
pub(crate) fn builder_new() -> (builder: tiny_skia::PathBuilder)
    ensures
        builder_segments(builder) == Seq::<Segment>::empty(),
        builder_awaits_move(builder),
{
    tiny_skia::PathBuilder::new()
}

/// `PathBuilder::move_to`. It starts a contour; where the last segment
/// already starts one, it only replaces that segment.
#[verifier::external_body]
pub(crate) fn builder_move_to(builder: &mut tiny_skia::PathBuilder, to: Point)
    ensures
        builder_segments(*final(builder)) == if ends_with_move(builder_segments(*old(builder))) {
            builder_segments(*old(builder)).drop_last().push(Segment::MoveTo(to))
        } else {
            builder_segments(*old(builder)).push(Segment::MoveTo(to))
        },
        builder_awaits_move(*final(builder)) == (ends_with_move(builder_segments(*old(builder)))
            && builder_awaits_move(*old(builder))),
{
    builder.move_to(to.x.into(), to.y.into())
}

/// `PathBuilder::line_to` inside a contour: it adds a line.
#[verifier::external_body]
pub(crate) fn builder_line_to(builder: &mut tiny_skia::PathBuilder, to: Point)
    requires
        !builder_awaits_move(*old(builder)),
    ensures
        builder_segments(*final(builder)) == builder_segments(*old(builder)).push(
            Segment::LineTo(to),
        ),
        !builder_awaits_move(*final(builder)),
{
    builder.line_to(to.x.into(), to.y.into())
}

/// `PathBuilder::cubic_to` inside a contour: it adds a cubic curve.
#[verifier::external_body]
pub(crate) fn builder_cubic_to(
    builder: &mut tiny_skia::PathBuilder,
    control1: Point,
    control2: Point,
    to: Point,
)
    requires
        !builder_awaits_move(*old(builder)),
    ensures
        builder_segments(*final(builder)) == builder_segments(*old(builder)).push(
            Segment::CubicTo(control1, control2, to),
        ),
        !builder_awaits_move(*final(builder)),
{
    builder.cubic_to(
        control1.x.into(),
        control1.y.into(),
        control2.x.into(),
        control2.y.into(),
        to.x.into(),
        to.y.into(),
    )
}

/// `PathBuilder::close`. It closes the contour, and does nothing to an outline
/// that is empty or already closed.
#[verifier::external_body]
pub(crate) fn builder_close(builder: &mut tiny_skia::PathBuilder)
    ensures
        builder_segments(*final(builder)) == if builder_segments(*old(builder)).len() == 0
            || ends_with_close(builder_segments(*old(builder))) {
            builder_segments(*old(builder))
        } else {
            builder_segments(*old(builder)).push(Segment::Close)
        },
        builder_awaits_move(*final(builder)),
{
    builder.close()
}

/// `PathBuilder::finish`. It refuses an outline of fewer than two segments
/// and one whose bounds are not finite, which whole-numbered points never
/// give; the path holds the builder's segments.
#[verifier::external_body]
pub(crate) fn builder_finish(builder: tiny_skia::PathBuilder) -> (finished: Option<
    tiny_skia::Path,
>)
    ensures
        finished is Some <==> builder_segments(builder).len() >= 2,
        finished matches Some(path) ==> path_segments(path) == builder_segments(builder),
{
    builder.finish()
}

/// `LinearGradient::new`. The two colours become stops at the positions 0
/// and 1, and the rotation, which comes in hundredths of a radian, becomes
/// the `Transform::from_rotate` of as many degrees. The constructor refuses
/// only an empty list of stops, anchors that coincide and a transform that
/// cannot be inverted: two stops, distinct anchors and a rotation are none of
/// these.
#[verifier::external_body]
pub(crate) fn linear_gradient(
    start: Point,
    end: Point,
    from: Rgba,
    to: Rgba,
    spread: Spread,
    rotation: i16,
) -> (made: Option<tiny_skia::Shader<'static>>)
    requires
        start != end,
    ensures
        made.is_some(),
        made matches Some(shader) ==> shader_shading(shader) == Shading::Linear(
            (Gradient { start, end, start_color: from, end_color: to, spread, rotation }),
        ),
{
    let turn = tiny_skia::Point::from_xy(rotation.into(), 100i16.into());
    LinearGradient::new(
        tiny_skia::Point::from_xy(start.x.into(), start.y.into()),
        tiny_skia::Point::from_xy(end.x.into(), end.y.into()),
        vec![
            GradientStop::new(0u8.into(), Color::from_rgba8(from.r, from.g, from.b, from.a)),
            GradientStop::new(1u8.into(), Color::from_rgba8(to.r, to.g, to.b, to.a)),
        ],
        match spread {
            Spread::Pad => SpreadMode::Pad,
            Spread::Reflect => SpreadMode::Reflect,
            Spread::Repeat => SpreadMode::Repeat,
        },
        Transform::from_rotate((turn.x / turn.y).to_degrees()),
    )
}

/// `Shader::SolidColor` of `Color::from_rgba8`.
#[verifier::external_body]
pub(crate) fn solid_shader(color: Rgba) -> (shader: tiny_skia::Shader<'static>)
    ensures
        shader_shading(shader) == Shading::Solid(color),
{
    tiny_skia::Shader::SolidColor(Color::from_rgba8(color.r, color.g, color.b, color.a))
}

/// `Pixmap::fill_path` with a default `Paint` that has the shader and the
/// anti-aliasing flag set, a shift by `offset`, and no mask. The pixmap
/// is painted in place: its size and the number of its bytes stay.
#[verifier::external_body]
pub(crate) fn fill_path(
    pixmap: &mut tiny_skia::Pixmap,
    outline: &tiny_skia::Path,
    shader: tiny_skia::Shader<'static>,
    anti_alias: bool,
    rule: FillRule,
    offset: Point,
)
    requires
        well_formed(*old(pixmap)),
    ensures
        pixmap_size(*final(pixmap)) == pixmap_size(*old(pixmap)),
        pixmap_bytes(*final(pixmap)).len() == pixmap_bytes(*old(pixmap)).len(),
        pixmap_bytes(*final(pixmap)) == filled(
            pixmap_size(*old(pixmap)),
            pixmap_bytes(*old(pixmap)),
            path_segments(*outline),
            (Paint { shading: shader_shading(shader), anti_alias }),
            rule,
            offset,
        ),
{
    let mut paint = tiny_skia::Paint::default();
    paint.shader = shader;
    paint.anti_alias = anti_alias;
    let rule = match rule {
        FillRule::Winding => tiny_skia::FillRule::Winding,
        FillRule::EvenOdd => tiny_skia::FillRule::EvenOdd,
    };
    let shift = Transform::from_translate(offset.x.into(), offset.y.into());
    pixmap.fill_path(outline, &paint, rule, shift, None)
}

/// `Pixmap::stroke_path` with a default `Paint` that has the shader and the
/// anti-aliasing flag set, a default `Stroke` that has the width, the join and
/// the cap set, a shift by `offset`, and no mask. The pixmap is painted
/// in place: its size and the number of its bytes stay.
#[verifier::external_body]
pub(crate) fn stroke_path(
    pixmap: &mut tiny_skia::Pixmap,
    outline: &tiny_skia::Path,
    shader: tiny_skia::Shader<'static>,
    anti_alias: bool,
    style: StrokeStyle,
    offset: Point,
)
    requires
        well_formed(*old(pixmap)),
    ensures
        pixmap_size(*final(pixmap)) == pixmap_size(*old(pixmap)),
        pixmap_bytes(*final(pixmap)).len() == pixmap_bytes(*old(pixmap)).len(),
        pixmap_bytes(*final(pixmap)) == stroked(
            pixmap_size(*old(pixmap)),
            pixmap_bytes(*old(pixmap)),
            path_segments(*outline),
            (Paint { shading: shader_shading(shader), anti_alias }),
            style,
            offset,
        ),
{
    let mut paint = tiny_skia::Paint::default();
    paint.shader = shader;
    paint.anti_alias = anti_alias;
    let mut pen = Stroke::default();
    pen.width = style.width.into();
    pen.line_join = match style.join {
        LineJoin::Miter => tiny_skia::LineJoin::Miter, LineJoin::MiterClip => tiny_skia::LineJoin::MiterClip,
        LineJoin::Round => tiny_skia::LineJoin::Round, LineJoin::Bevel => tiny_skia::LineJoin::Bevel,
    };
    pen.line_cap = match style.cap {
        LineCap::Butt => tiny_skia::LineCap::Butt, LineCap::Round => tiny_skia::LineCap::Round, LineCap::Square => tiny_skia::LineCap::Square,
    };
    let shift = Transform::from_translate(offset.x.into(), offset.y.into());
    pixmap.stroke_path(outline, &paint, &pen, shift, None)
}

/// `Pixmap::encode_png`, the pixmap as a PNG file.
#[verifier::external_body]
pub(crate) fn encode_png(pixmap: &tiny_skia::Pixmap) -> (encoded: Result<
    Vec<u8>,
    png::EncodingError,
>)
    requires
        well_formed(*pixmap),
    ensures
        match encoded {
            Ok(file) => png_encoding(pixmap_size(*pixmap), pixmap_bytes(*pixmap)) == Some(file@),
            Err(_) => png_encoding(pixmap_size(*pixmap), pixmap_bytes(*pixmap)) is None,
        },
{
    pixmap.encode_png()
}

} // verus!
