//! Debug drawing primitives: text, lines, boxes and spheres placed at
//! integer map coordinates, each with a colour.

use crate::linalg::{Point2, Point3};
use vstd::prelude::*;

verus! {

/// An RGB colour.
#[derive(Debug, Clone, Copy, PartialEq, Eq, Hash, Structural)]
pub struct Color {
    pub r: u8,
    pub g: u8,
    pub b: u8,
}

impl Color {
    pub fn new(r: u8, g: u8, b: u8) -> (c: Color)
        ensures
            c.r == r,
            c.g == g,
            c.b == b,
    {
        Color { r, g, b }
    }

    /// The colour the peer defaults to.
    pub fn white() -> (c: Color)
        ensures
            c == (Color { r: 255, g: 255, b: 255 }),
    {
        Color { r: 255, g: 255, b: 255 }
    }
}

impl Default for Color {
    /// White, as the peer's own default.
    fn default() -> (c: Color)
        ensures
            c == (Color { r: 255, g: 255, b: 255 }),
    {
        Color { r: 255, g: 255, b: 255 }
    }
}

/// A font size for drawn text.
#[derive(Debug, Default, Clone, Copy, PartialEq, Eq, Hash, Structural)]
pub struct FontSize(pub u32);

/// Where drawn text is anchored: in the world or on the screen.
#[derive(Debug, Clone, Copy, PartialEq, Eq, Hash, Structural)]
pub enum TextPos {
    World(Point3),
    Screen(Point2),
}

impl Default for TextPos {
    /// The screen origin.
    fn default() -> (p: TextPos)
        ensures
            p == TextPos::Screen(Point2 { x: 0, y: 0 }),
    {
        TextPos::Screen(Point2 { x: 0, y: 0 })
    }
}

/// A piece of drawn text.
#[derive(Debug, Default, Clone, PartialEq, Eq, Hash)]
pub struct Text {
    pub text: String,
    pub pos: TextPos,
    pub size: FontSize,
    pub color: Color,
}

impl Text {
    /// The same text anchored at `pos`.
    pub fn pos(self, pos: TextPos) -> (r: Text)
        ensures
            r == (Text { pos, ..self }),
    {
        Text { pos, ..self }
    }

    /// The same text at the given font size.
    pub fn size(self, size: FontSize) -> (r: Text)
        ensures
            r == (Text { size, ..self }),
    {
        Text { size, ..self }
    }

    /// The same text in the given colour.
    pub fn color(self, color: Color) -> (r: Text)
        ensures
            r == (Text { color, ..self }),
    {
        Text { color, ..self }
    }
}

/// A drawn line between two world points.
#[derive(Debug, Default, Clone, Copy, PartialEq, Eq, Hash, Structural)]
pub struct Line {
    pub p0: Point3,
    pub p1: Point3,
    pub color: Color,
}

/// A line from `p0` to `p1` in the default colour.
pub fn line(p0: Point3, p1: Point3) -> (r: Line)
    ensures
        r.p0 == p0,
        r.p1 == p1,
        r.color == (Color { r: 255, g: 255, b: 255 }),
{
    Line { p0, p1, color: Color::white() }
}

impl Line {
    /// The same line in the given colour.
    pub fn color(self, color: Color) -> (r: Line)
        ensures
            r == (Line { color, ..self }),
    {
        Line { color, ..self }
    }
}

/// A drawn axis-aligned box between two world corners.
#[derive(Debug, Default, Clone, Copy, PartialEq, Eq, Hash, Structural)]
pub struct AABB {
    pub p0: Point3,
    pub p1: Point3,
    pub color: Color,
}

/// A box with the given corners in the default colour.
pub fn aabb(p0: Point3, p1: Point3) -> (r: AABB)
    ensures
        r.p0 == p0,
        r.p1 == p1,
        r.color == (Color { r: 255, g: 255, b: 255 }),
{
    AABB { p0, p1, color: Color::white() }
}

impl AABB {
    /// The same box in the given colour.
    pub fn color(self, color: Color) -> (r: AABB)
        ensures
            r == (AABB { color, ..self }),
    {
        AABB { color, ..self }
    }
}

/// A drawn sphere around a world point.
#[derive(Debug, Default, Clone, Copy, PartialEq, Eq, Hash, Structural)]
pub struct Sphere {
    pub pos: Point3,
    pub radius: i32,
    pub color: Color,
}

/// A sphere at `pos` with the given radius in the default colour.
pub fn sphere(pos: Point3, radius: i32) -> (r: Sphere)
    ensures
        r.pos == pos,
        r.radius == radius,
        r.color == (Color { r: 255, g: 255, b: 255 }),
{
    Sphere { pos, radius, color: Color::white() }
}

impl Sphere {
    /// The same sphere with the given radius.
    pub fn radius(self, radius: i32) -> (r: Sphere)
        ensures
            r == (Sphere { radius, ..self }),
    {
        Sphere { radius, ..self }
    }

    /// The same sphere in the given colour.
    pub fn color(self, color: Color) -> (r: Sphere)
        ensures
            r == (Sphere { color, ..self }),
    {
        Sphere { color, ..self }
    }
}

/// One drawing item.
#[derive(Debug, Clone, PartialEq, Eq, Hash)]
pub enum Item {
    Text(Text),
    Line(Line),
    Box(AABB),
    Sphere(Sphere),
}

/// A batch of drawing items, sent as one debug command.
#[derive(Debug, Default, Clone, PartialEq, Eq)]
pub struct Draw {
    pub items: Vec<Item>,
}

impl Draw {
    /// An empty drawing.
    pub fn new() -> (r: Draw)
        ensures
            r.items@.len() == 0,
    {
        Draw { items: Vec::new() }
    }

    /// Append one item.
    pub fn push(&mut self, item: Item)
        ensures
            final(self).items@ == old(self).items@.push(item),
    {
        self.items.push(item);
    }
}

} // verus!
