//! What is drawn, described in plain values: colours, points, outlines,
//! shaders and stroke styles. Every number is a whole number; the scene needs
//! no others, and whole numbers compare exactly.

use vstd::prelude::*;

verus! {

/// A colour with straight (not premultiplied) 8-bit components.
#[derive(Clone, Copy, Debug, PartialEq, Eq, Structural)]
pub struct Rgba {
    pub r: u8,
    pub g: u8,
    pub b: u8,
    pub a: u8,
}

/// A position on the canvas in whole pixels; `x` grows to the right and `y`
/// grows downwards.
#[derive(Clone, Copy, Debug, PartialEq, Eq, Structural)]
pub struct Point {
    pub x: i16,
    pub y: i16,
}

/// One drawing command of an outline.
#[derive(Clone, Copy, Debug, PartialEq, Eq, Structural)]
pub enum Segment {
    /// Starts a contour at the point.
    MoveTo(Point),
    /// A straight line from the current point to the point.
    LineTo(Point),
    /// A cubic Bézier curve from the current point, by two control points, to
    /// the last point.
    CubicTo(Point, Point, Point),
    /// Closes the current contour.
    Close,
}

/// How a gradient continues beyond its two anchors.
#[derive(Clone, Copy, Debug, PartialEq, Eq, Structural)]
pub enum Spread {
    Pad,
    Reflect,
    Repeat,
}

/// A linear gradient between two anchors, with one colour stop at the start
/// anchor (position 0) and one at the end anchor (position 1).
#[derive(Clone, Copy, Debug, PartialEq, Eq, Structural)]
pub struct Gradient {
    pub start: Point,
    pub end: Point,
    pub start_color: Rgba,
    pub end_color: Rgba,
    pub spread: Spread,
    /// The rotation of the gradient's coordinate space about the origin, in
    /// hundredths of a radian.
    pub rotation: i16,
}

/// Where the colour of a painted pixel comes from.
#[derive(Clone, Copy, Debug, PartialEq, Eq, Structural)]
pub enum Shading {
    Solid(Rgba),
    Linear(Gradient),
}

/// A source of colour together with the anti-aliasing flag. Painting always
/// blends source-over.
#[derive(Clone, Copy, Debug, PartialEq, Eq, Structural)]
pub struct Paint {
    pub shading: Shading,
    pub anti_alias: bool,
}

/// Which points count as inside an outline.
#[derive(Clone, Copy, Debug, PartialEq, Eq, Structural)]
pub enum FillRule {
    Winding,
    EvenOdd,
}

/// How two segments of a stroked outline are joined.
#[derive(Clone, Copy, Debug, PartialEq, Eq, Structural)]
pub enum LineJoin {
    Miter,
    MiterClip,
    Round,
    Bevel,
}

/// How the ends of an open stroked contour are drawn.
#[derive(Clone, Copy, Debug, PartialEq, Eq, Structural)]
pub enum LineCap {
    Butt,
    Round,
    Square,
}

/// The pen of a stroke: its width in whole pixels, its joins and its caps.
#[derive(Clone, Copy, Debug, PartialEq, Eq, Structural)]
pub struct StrokeStyle {
    pub width: u16,
    pub join: LineJoin,
    pub cap: LineCap,
}

} // verus!
