//! Colour and geometry value types exchanged with the scripting environment.
//!
//! Coordinates and sizes are 32-bit IEEE-754 values on both sides of the
//! bridge.  This crate never computes with them, it only stores and moves
//! them, so a [`Scalar`] carries the raw bit pattern; the callers that do the
//! arithmetic convert at the boundary.

use vstd::prelude::*;

verus! {

/// A 32-bit IEEE-754 value carried by its raw bit pattern.
///
/// Equality is bit-for-bit, which is exactly what a lossless transfer needs.
#[derive(Clone, Copy, Debug, PartialEq, Eq, Structural, Hash)]
pub struct Scalar {
    pub bits: u32,
}

/// A colour of four unsigned 8-bit channels.
#[derive(Clone, Copy, Debug, PartialEq, Eq, Structural, Hash)]
pub struct LuaColor {
    pub r: u8,
    pub g: u8,
    pub b: u8,
    pub a: u8,
}

/// A two-dimensional coordinate pair.
#[derive(Clone, Copy, Debug, PartialEq, Eq, Structural, Hash)]
pub struct LuaVector2 {
    pub x: Scalar,
    pub y: Scalar,
}

/// A three-dimensional coordinate triple.
#[derive(Clone, Copy, Debug, PartialEq, Eq, Structural, Hash)]
pub struct LuaVector3 {
    pub x: Scalar,
    pub y: Scalar,
    pub z: Scalar,
}

/// An axis-aligned rectangle: origin plus extent.
#[derive(Clone, Copy, Debug, PartialEq, Eq, Structural, Hash)]
pub struct LuaRectangle {
    pub x: Scalar,
    pub y: Scalar,
    pub width: Scalar,
    pub height: Scalar,
}

/// The default alpha channel, fully opaque, used wherever a colour is given
/// without one.
pub const OPAQUE_ALPHA: u8 = 255;

/// Builds a colour from its channels; a missing alpha channel defaults to
/// fully opaque.
pub fn color(r: u8, g: u8, b: u8, a: Option<u8>) -> (c: LuaColor)
    ensures
        c.r == r,
        c.g == g,
        c.b == b,
        c.a == (match a {
            Some(v) => v,
            None => OPAQUE_ALPHA,
        }),
{
    let alpha = match a {
        Some(v) => v,
        None => OPAQUE_ALPHA,
    };
    LuaColor { r, g, b, a: alpha }
}

/// Builds a two-dimensional vector from its coordinates.
pub fn vector2(x: Scalar, y: Scalar) -> (v: LuaVector2)
    ensures
        v.x == x,
        v.y == y,
{
    LuaVector2 { x, y }
}

/// Builds a three-dimensional vector from its coordinates.
pub fn vector3(x: Scalar, y: Scalar, z: Scalar) -> (v: LuaVector3)
    ensures
        v.x == x,
        v.y == y,
        v.z == z,
{
    LuaVector3 { x, y, z }
}

/// Builds a rectangle from origin and extent.
pub fn rect(x: Scalar, y: Scalar, width: Scalar, height: Scalar) -> (r: LuaRectangle)
    ensures
        r.x == x,
        r.y == y,
        r.width == width,
        r.height == height,
{
    LuaRectangle::new(x, y, width, height)
}

impl LuaRectangle {
    /// Builds a rectangle from origin and extent.
    pub fn new(x: Scalar, y: Scalar, width: Scalar, height: Scalar) -> (r: LuaRectangle)
        ensures
            r.x == x,
            r.y == y,
            r.width == width,
            r.height == height,
    {
        LuaRectangle { x, y, width, height }
    }
}

/// A colour constant under its conventional name.
pub struct NamedColor {
    pub name: &'static str,
    pub color: LuaColor,
}

/// The table of named colour constants, as name/colour pairs.
///
/// All entries are fully opaque except BLANK, which is transparent black.
pub open spec fn spec_named_colors() -> Seq<(Seq<char>, LuaColor)> {
    seq![
        ("WHITE"@, (LuaColor { r: 255, g: 255, b: 255, a: 255 })),
        ("RAYWHITE"@, (LuaColor { r: 245, g: 245, b: 245, a: 255 })),
        ("BLACK"@, (LuaColor { r: 0, g: 0, b: 0, a: 255 })),
        ("BLANK"@, (LuaColor { r: 0, g: 0, b: 0, a: 0 })),
        ("RED"@, (LuaColor { r: 255, g: 0, b: 0, a: 255 })),
        ("GREEN"@, (LuaColor { r: 0, g: 255, b: 0, a: 255 })),
        ("BLUE"@, (LuaColor { r: 0, g: 0, b: 255, a: 255 })),
        ("YELLOW"@, (LuaColor { r: 255, g: 255, b: 0, a: 255 })),
        ("MAGENTA"@, (LuaColor { r: 255, g: 0, b: 255, a: 255 })),
        ("CYAN"@, (LuaColor { r: 0, g: 255, b: 255, a: 255 })),
        ("DARKGRAY"@, (LuaColor { r: 80, g: 80, b: 80, a: 255 })),
        ("GRAY"@, (LuaColor { r: 130, g: 130, b: 130, a: 255 })),
        ("LIGHTGRAY"@, (LuaColor { r: 200, g: 200, b: 200, a: 255 })),
        ("SKYBLUE"@, (LuaColor { r: 102, g: 191, b: 255, a: 255 })),
        ("ORANGE"@, (LuaColor { r: 255, g: 161, b: 0, a: 255 })),
        ("PURPLE"@, (LuaColor { r: 200, g: 122, b: 255, a: 255 })),
        ("PINK"@, (LuaColor { r: 255, g: 109, b: 194, a: 255 })),
        ("LIME"@, (LuaColor { r: 0, g: 228, b: 48, a: 255 })),
        ("GOLD"@, (LuaColor { r: 255, g: 203, b: 0, a: 255 })),
        ("BROWN"@, (LuaColor { r: 127, g: 106, b: 79, a: 255 })),
        ("DARKBROWN"@, (LuaColor { r: 76, g: 63, b: 47, a: 255 })),
        ("MAROON"@, (LuaColor { r: 190, g: 33, b: 55, a: 255 })),
        ("BEIGE"@, (LuaColor { r: 211, g: 176, b: 131, a: 255 })),
        ("DARKBLUE"@, (LuaColor { r: 0, g: 82, b: 172, a: 255 })),
        ("DARKGREEN"@, (LuaColor { r: 0, g: 117, b: 44, a: 255 })),
        ("DARKPURPLE"@, (LuaColor { r: 112, g: 31, b: 126, a: 255 })),
        ("VIOLET"@, (LuaColor { r: 135, g: 60, b: 190, a: 255 })),
    ]
}

/// Builds the table of named colour constants, entry for entry as
/// [`spec_named_colors`] lists it.
#[verifier::rlimit(50)]
pub fn named_colors() -> (r: Vec<NamedColor>)
    ensures
        r@.len() == spec_named_colors().len(),
        forall|i: int|
            0 <= i < r@.len() ==> (#[trigger] r@[i]).name@ == spec_named_colors()[i].0
                && r@[i].color == spec_named_colors()[i].1,
{
    let mut v: Vec<NamedColor> = Vec::new();
    v.push(NamedColor { name: "WHITE", color: LuaColor { r: 255, g: 255, b: 255, a: 255 } });
    v.push(NamedColor { name: "RAYWHITE", color: LuaColor { r: 245, g: 245, b: 245, a: 255 } });
    v.push(NamedColor { name: "BLACK", color: LuaColor { r: 0, g: 0, b: 0, a: 255 } });
    v.push(NamedColor { name: "BLANK", color: LuaColor { r: 0, g: 0, b: 0, a: 0 } });
    v.push(NamedColor { name: "RED", color: LuaColor { r: 255, g: 0, b: 0, a: 255 } });
    v.push(NamedColor { name: "GREEN", color: LuaColor { r: 0, g: 255, b: 0, a: 255 } });
    v.push(NamedColor { name: "BLUE", color: LuaColor { r: 0, g: 0, b: 255, a: 255 } });
    v.push(NamedColor { name: "YELLOW", color: LuaColor { r: 255, g: 255, b: 0, a: 255 } });
    v.push(NamedColor { name: "MAGENTA", color: LuaColor { r: 255, g: 0, b: 255, a: 255 } });
    v.push(NamedColor { name: "CYAN", color: LuaColor { r: 0, g: 255, b: 255, a: 255 } });
    v.push(NamedColor { name: "DARKGRAY", color: LuaColor { r: 80, g: 80, b: 80, a: 255 } });
    v.push(NamedColor { name: "GRAY", color: LuaColor { r: 130, g: 130, b: 130, a: 255 } });
    v.push(NamedColor { name: "LIGHTGRAY", color: LuaColor { r: 200, g: 200, b: 200, a: 255 } });
    v.push(NamedColor { name: "SKYBLUE", color: LuaColor { r: 102, g: 191, b: 255, a: 255 } });
    v.push(NamedColor { name: "ORANGE", color: LuaColor { r: 255, g: 161, b: 0, a: 255 } });
    v.push(NamedColor { name: "PURPLE", color: LuaColor { r: 200, g: 122, b: 255, a: 255 } });
    v.push(NamedColor { name: "PINK", color: LuaColor { r: 255, g: 109, b: 194, a: 255 } });
    v.push(NamedColor { name: "LIME", color: LuaColor { r: 0, g: 228, b: 48, a: 255 } });
    v.push(NamedColor { name: "GOLD", color: LuaColor { r: 255, g: 203, b: 0, a: 255 } });
    v.push(NamedColor { name: "BROWN", color: LuaColor { r: 127, g: 106, b: 79, a: 255 } });
    v.push(NamedColor { name: "DARKBROWN", color: LuaColor { r: 76, g: 63, b: 47, a: 255 } });
    v.push(NamedColor { name: "MAROON", color: LuaColor { r: 190, g: 33, b: 55, a: 255 } });
    v.push(NamedColor { name: "BEIGE", color: LuaColor { r: 211, g: 176, b: 131, a: 255 } });
    v.push(NamedColor { name: "DARKBLUE", color: LuaColor { r: 0, g: 82, b: 172, a: 255 } });
    v.push(NamedColor { name: "DARKGREEN", color: LuaColor { r: 0, g: 117, b: 44, a: 255 } });
    v.push(NamedColor { name: "DARKPURPLE", color: LuaColor { r: 112, g: 31, b: 126, a: 255 } });
    v.push(NamedColor { name: "VIOLET", color: LuaColor { r: 135, g: 60, b: 190, a: 255 } });
    v
}

} // verus!
