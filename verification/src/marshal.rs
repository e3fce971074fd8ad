//! The typed marshalling layer between the scripting environment's duck-typed
//! value model and the fixed value types of [`crate::geometry`].
//!
//! A script hands a value over in one of three accepted shapes: a sequential
//! table of numbers (colours), an associative table with required named
//! fields (vectors and rectangles), or a pre-built value of the target type.
//! [`ScriptValue`] is that tagged union, reduced to exactly what the
//! conversions read: of a positional entry only whether it is a channel-sized
//! number, of a named field only whether it is a number at all.  The host
//! glue that talks to the scripting engine builds a `ScriptValue` from the
//! engine's own representation and narrows the numbers on the way.
//!
//! Conversion never defaults silently — a missing required field is an error
//! carrying the expected shape — with one documented exception: a colour's
//! missing alpha channel reads as fully opaque.

use vstd::prelude::*;
use crate::geometry::{LuaColor, LuaRectangle, LuaVector2, LuaVector3, Scalar, OPAQUE_ALPHA};
use crate::text::str_eq;

verus! {

/// A positional table entry, as the colour conversion reads it: a number
/// that fits a channel, or anything else.
#[derive(Clone, Copy, Debug, PartialEq, Eq, Structural)]
pub enum ScriptItem {
    Byte(u8),
    NotByte,
}

/// A named table entry, as the vector and rectangle conversions read it: a
/// number, or anything else.
#[derive(Clone, Copy, Debug, PartialEq, Eq, Structural)]
pub enum FieldValue {
    Num(Scalar),
    NotNum,
}

/// One named field of an associative table.
#[derive(Clone, Debug, PartialEq)]
pub struct ScriptField {
    pub name: String,
    pub value: FieldValue,
}

/// A script table, seen through both of its aspects: the positional entries
/// and the named fields.
#[derive(Clone, Debug, PartialEq)]
pub struct ScriptTable {
    pub items: Vec<ScriptItem>,
    pub fields: Vec<ScriptField>,
}

/// A script value, reduced to the shapes the marshaller accepts: a table, a
/// pre-built value of one of the four target types, or anything else.
#[derive(Clone, Debug, PartialEq)]
pub enum ScriptValue {
    Table(ScriptTable),
    ColorValue(LuaColor),
    Vector2Value(LuaVector2),
    Vector3Value(LuaVector3),
    RectangleValue(LuaRectangle),
    Other,
}

/// A failed conversion, carrying a description of the shape the conversion
/// expected, for the script author's diagnostics.
#[derive(Clone, Debug, PartialEq)]
pub struct ConversionError {
    pub expected: String,
}

impl ConversionError {
    /// The expected-shape description.
    pub fn message(&self) -> (r: &str)
        ensures
            r@ == self.expected@,
    {
        self.expected.as_str()
    }
}

/// Builds a conversion error carrying the given expected-shape description.
fn shape_error(expected: &str) -> (e: ConversionError)
    ensures
        e.expected@ == expected@,
{
    ConversionError { expected: String::from_str(expected) }
}

/// The first field of the given name, in table order; `None` when no field
/// bears the name.
pub open spec fn spec_lookup_field(fields: Seq<ScriptField>, name: Seq<char>) -> Option<FieldValue>
    decreases fields.len(),
{
    if fields.len() == 0 {
        None
    } else if fields[0].name@ == name {
        Some(fields[0].value)
    } else {
        spec_lookup_field(fields.drop_first(), name)
    }
}

/// Finds the first field of the given name.
fn lookup_field(fields: &Vec<ScriptField>, name: &str) -> (r: Option<FieldValue>)
    ensures
        r == spec_lookup_field(fields@, name@),
{
    let mut i: usize = 0;
    assert(fields@.skip(0) =~= fields@);
    while i < fields.len()
        invariant
            i <= fields@.len(),
            spec_lookup_field(fields@, name@) == spec_lookup_field(
                fields@.skip(i as int),
                name@,
            ),
        decreases fields@.len() - i,
    {
        let f = &fields[i];
        assert(fields@.skip(i as int)[0] == fields@[i as int]);
        if str_eq(f.name.as_str(), name) {
            return Some(f.value);
        }
        assert(fields@.skip(i as int).drop_first() =~= fields@.skip(i as int + 1));
        i += 1;
    }
    None
}

/// The field's number, where the field exists and is one; a stand-in
/// otherwise.
pub open spec fn spec_field_num(fields: Seq<ScriptField>, name: Seq<char>) -> Scalar {
    match spec_lookup_field(fields, name) {
        Some(FieldValue::Num(s)) => s,
        _ => Scalar { bits: 0 },
    }
}

/// Whether the named field exists and is a number.
pub open spec fn spec_has_num_field(fields: Seq<ScriptField>, name: Seq<char>) -> bool {
    spec_lookup_field(fields, name) matches Some(FieldValue::Num(_))
}

/// Whether a script value has one of the shapes a colour accepts: a table
/// whose first three positional entries are channel-sized numbers, or a
/// pre-built colour.
pub open spec fn spec_color_accepts(v: ScriptValue) -> bool {
    match v {
        ScriptValue::Table(t) => t.items@.len() >= 3 && t.items@[0] is Byte && t.items@[1] is Byte
            && t.items@[2] is Byte,
        ScriptValue::ColorValue(_) => true,
        _ => false,
    }
}

/// The channel a positional entry holds, where it holds one.
pub open spec fn spec_item_byte(item: ScriptItem) -> u8 {
    match item {
        ScriptItem::Byte(b) => b,
        ScriptItem::NotByte => 0,
    }
}

/// The colour an accepted script value converts to.  A fourth channel is the
/// alpha; a missing or non-numeric fourth entry reads as fully opaque.
pub open spec fn spec_color_value(v: ScriptValue) -> LuaColor
    recommends
        spec_color_accepts(v),
{
    match v {
        ScriptValue::Table(t) => LuaColor {
            r: spec_item_byte(t.items@[0]),
            g: spec_item_byte(t.items@[1]),
            b: spec_item_byte(t.items@[2]),
            a: if t.items@.len() >= 4 && t.items@[3] is Byte {
                spec_item_byte(t.items@[3])
            } else {
                OPAQUE_ALPHA
            },
        },
        ScriptValue::ColorValue(c) => c,
        _ => LuaColor { r: 0, g: 0, b: 0, a: 0 },
    }
}

impl LuaColor {
    /// Converts a script value to a colour.
    ///
    /// Succeeds exactly on the shapes [`spec_color_accepts`] lists, and then
    /// returns exactly the channels of the value; anything else is refused
    /// with the expected shape.
    pub fn from_dynamic(v: &ScriptValue) -> (r: Result<LuaColor, ConversionError>)
        ensures
            r is Ok <==> spec_color_accepts(*v),
            r matches Ok(c) ==> c == spec_color_value(*v),
            r matches Err(e) ==> e.expected@ == "Expected table {r, g, b, a}"@,
    {
        match v {
            ScriptValue::Table(t) => {
                if t.items.len() >= 3 {
                    let i0 = t.items[0];
                    let i1 = t.items[1];
                    let i2 = t.items[2];
                    match (i0, i1, i2) {
                        (ScriptItem::Byte(r), ScriptItem::Byte(g), ScriptItem::Byte(b)) => {
                            let a = if t.items.len() >= 4 {
                                match t.items[3] {
                                    ScriptItem::Byte(x) => x,
                                    ScriptItem::NotByte => OPAQUE_ALPHA,
                                }
                            } else {
                                OPAQUE_ALPHA
                            };
                            Ok(LuaColor { r, g, b, a })
                        },
                        _ => Err(shape_error("Expected table {r, g, b, a}")),
                    }
                } else {
                    Err(shape_error("Expected table {r, g, b, a}"))
                }
            },
            ScriptValue::ColorValue(c) => Ok(*c),
            _ => Err(shape_error("Expected table {r, g, b, a}")),
        }
    }

    /// Converts a colour back to a script value: a sequential table of all
    /// four channels and nothing else.
    pub fn to_dynamic(&self) -> (r: ScriptValue)
        ensures
            r matches ScriptValue::Table(t) && t.items@ == seq![
                ScriptItem::Byte(self.r),
                ScriptItem::Byte(self.g),
                ScriptItem::Byte(self.b),
                ScriptItem::Byte(self.a),
            ] && t.fields@ == Seq::<ScriptField>::empty(),
    {
        let mut items: Vec<ScriptItem> = Vec::new();
        items.push(ScriptItem::Byte(self.r));
        items.push(ScriptItem::Byte(self.g));
        items.push(ScriptItem::Byte(self.b));
        items.push(ScriptItem::Byte(self.a));
        let fields: Vec<ScriptField> = Vec::new();
        proof {
            assert(items@ =~= seq![
                ScriptItem::Byte(self.r),
                ScriptItem::Byte(self.g),
                ScriptItem::Byte(self.b),
                ScriptItem::Byte(self.a),
            ]);
            assert(fields@ =~= Seq::<ScriptField>::empty());
        }
        ScriptValue::Table(ScriptTable { items, fields })
    }
}

/// Law (colour round trip, explicit alpha): a 4-channel tuple converts to
/// the colour with exactly those channels — so converting that colour back
/// yields the tuple unchanged.
pub proof fn lemma_color_round_trip(t: ScriptTable, r: u8, g: u8, b: u8, a: u8)
    requires
        t.items@ == seq![
            ScriptItem::Byte(r),
            ScriptItem::Byte(g),
            ScriptItem::Byte(b),
            ScriptItem::Byte(a),
        ],
    ensures
        spec_color_accepts(ScriptValue::Table(t)),
        spec_color_value(ScriptValue::Table(t)) == (LuaColor { r, g, b, a }),
{
}

/// Law (colour round trip, omitted alpha): a 3-channel tuple converts to the
/// colour with those channels and a fully opaque alpha — so converting that
/// colour back yields the tuple with the alpha made explicit.
pub proof fn lemma_color_round_trip_default_alpha(t: ScriptTable, r: u8, g: u8, b: u8)
    requires
        t.items@ == seq![ScriptItem::Byte(r), ScriptItem::Byte(g), ScriptItem::Byte(b)],
    ensures
        spec_color_accepts(ScriptValue::Table(t)),
        spec_color_value(ScriptValue::Table(t)) == (LuaColor { r, g, b, a: OPAQUE_ALPHA }),
{
}

/// Whether a script value has one of the shapes a two-dimensional vector
/// accepts: a table with numeric `x` and `y` fields, or a pre-built vector.
pub open spec fn spec_vector2_accepts(v: ScriptValue) -> bool {
    match v {
        ScriptValue::Table(t) => spec_has_num_field(t.fields@, "x"@) && spec_has_num_field(
            t.fields@,
            "y"@,
        ),
        ScriptValue::Vector2Value(_) => true,
        _ => false,
    }
}

/// The vector an accepted script value converts to.
pub open spec fn spec_vector2_value(v: ScriptValue) -> LuaVector2
    recommends
        spec_vector2_accepts(v),
{
    match v {
        ScriptValue::Table(t) => LuaVector2 {
            x: spec_field_num(t.fields@, "x"@),
            y: spec_field_num(t.fields@, "y"@),
        },
        ScriptValue::Vector2Value(w) => w,
        _ => LuaVector2 { x: Scalar { bits: 0 }, y: Scalar { bits: 0 } },
    }
}

impl LuaVector2 {
    /// Converts a script value to a two-dimensional vector.
    ///
    /// Succeeds exactly on the shapes [`spec_vector2_accepts`] lists — a
    /// missing or non-numeric required field is an error, never a default.
    pub fn from_dynamic(v: &ScriptValue) -> (r: Result<LuaVector2, ConversionError>)
        ensures
            r is Ok <==> spec_vector2_accepts(*v),
            r matches Ok(w) ==> w == spec_vector2_value(*v),
            r matches Err(e) ==> e.expected@ == "expected table with x,y fields or Vector2 userdata"@,
    {
        match v {
            ScriptValue::Table(t) => {
                let fx = lookup_field(&t.fields, "x");
                let fy = lookup_field(&t.fields, "y");
                match (fx, fy) {
                    (Some(FieldValue::Num(x)), Some(FieldValue::Num(y))) => {
                        Ok(LuaVector2 { x, y })
                    },
                    _ => Err(shape_error("expected table with x,y fields or Vector2 userdata")),
                }
            },
            ScriptValue::Vector2Value(w) => Ok(*w),
            _ => Err(shape_error("expected table with x,y fields or Vector2 userdata")),
        }
    }

    /// Converts a vector back to a script value: a table with exactly the
    /// fields `x` and `y`.
    pub fn to_dynamic(&self) -> (r: ScriptValue)
        ensures
            r matches ScriptValue::Table(t) && t.items@ == Seq::<ScriptItem>::empty()
                && t.fields@.len() == 2 && t.fields@[0].name@ == "x"@ && t.fields@[0].value
                == FieldValue::Num(self.x) && t.fields@[1].name@ == "y"@ && t.fields@[1].value
                == FieldValue::Num(self.y),
    {
        let mut fields: Vec<ScriptField> = Vec::new();
        fields.push(ScriptField { name: String::from_str("x"), value: FieldValue::Num(self.x) });
        fields.push(ScriptField { name: String::from_str("y"), value: FieldValue::Num(self.y) });
        let items: Vec<ScriptItem> = Vec::new();
        proof {
            assert(items@ =~= Seq::<ScriptItem>::empty());
        }
        ScriptValue::Table(ScriptTable { items, fields })
    }
}

/// Whether a script value has one of the shapes a three-dimensional vector
/// accepts: a table with numeric `x`, `y` and `z` fields, or a pre-built
/// vector.
pub open spec fn spec_vector3_accepts(v: ScriptValue) -> bool {
    match v {
        ScriptValue::Table(t) => spec_has_num_field(t.fields@, "x"@) && spec_has_num_field(
            t.fields@,
            "y"@,
        ) && spec_has_num_field(t.fields@, "z"@),
        ScriptValue::Vector3Value(_) => true,
        _ => false,
    }
}

/// The vector an accepted script value converts to.
pub open spec fn spec_vector3_value(v: ScriptValue) -> LuaVector3
    recommends
        spec_vector3_accepts(v),
{
    match v {
        ScriptValue::Table(t) => LuaVector3 {
            x: spec_field_num(t.fields@, "x"@),
            y: spec_field_num(t.fields@, "y"@),
            z: spec_field_num(t.fields@, "z"@),
        },
        ScriptValue::Vector3Value(w) => w,
        _ => LuaVector3 {
            x: Scalar { bits: 0 },
            y: Scalar { bits: 0 },
            z: Scalar { bits: 0 },
        },
    }
}

impl LuaVector3 {
    /// Converts a script value to a three-dimensional vector.
    ///
    /// Succeeds exactly on the shapes [`spec_vector3_accepts`] lists — a
    /// missing or non-numeric required field is an error, never a default.
    pub fn from_dynamic(v: &ScriptValue) -> (r: Result<LuaVector3, ConversionError>)
        ensures
            r is Ok <==> spec_vector3_accepts(*v),
            r matches Ok(w) ==> w == spec_vector3_value(*v),
            r matches Err(e) ==> e.expected@
                == "expected table with x,y,z fields or Vector3 userdata"@,
    {
        match v {
            ScriptValue::Table(t) => {
                let fx = lookup_field(&t.fields, "x");
                let fy = lookup_field(&t.fields, "y");
                let fz = lookup_field(&t.fields, "z");
                match (fx, fy, fz) {
                    (
                        Some(FieldValue::Num(x)),
                        Some(FieldValue::Num(y)),
                        Some(FieldValue::Num(z)),
                    ) => Ok(LuaVector3 { x, y, z }),
                    _ => Err(shape_error("expected table with x,y,z fields or Vector3 userdata")),
                }
            },
            ScriptValue::Vector3Value(w) => Ok(*w),
            _ => Err(shape_error("expected table with x,y,z fields or Vector3 userdata")),
        }
    }

    /// Converts a vector back to a script value: a table with exactly the
    /// fields `x`, `y` and `z`.
    pub fn to_dynamic(&self) -> (r: ScriptValue)
        ensures
            r matches ScriptValue::Table(t) && t.items@ == Seq::<ScriptItem>::empty()
                && t.fields@.len() == 3 && t.fields@[0].name@ == "x"@ && t.fields@[0].value
                == FieldValue::Num(self.x) && t.fields@[1].name@ == "y"@ && t.fields@[1].value
                == FieldValue::Num(self.y) && t.fields@[2].name@ == "z"@ && t.fields@[2].value
                == FieldValue::Num(self.z),
    {
        let mut fields: Vec<ScriptField> = Vec::new();
        fields.push(ScriptField { name: String::from_str("x"), value: FieldValue::Num(self.x) });
        fields.push(ScriptField { name: String::from_str("y"), value: FieldValue::Num(self.y) });
        fields.push(ScriptField { name: String::from_str("z"), value: FieldValue::Num(self.z) });
        let items: Vec<ScriptItem> = Vec::new();
        proof {
            assert(items@ =~= Seq::<ScriptItem>::empty());
        }
        ScriptValue::Table(ScriptTable { items, fields })
    }
}

/// Whether a script value has one of the shapes a rectangle accepts: a table
/// with numeric `x`, `y`, `width` and `height` fields, or a pre-built
/// rectangle.
pub open spec fn spec_rectangle_accepts(v: ScriptValue) -> bool {
    match v {
        ScriptValue::Table(t) => spec_has_num_field(t.fields@, "x"@) && spec_has_num_field(
            t.fields@,
            "y"@,
        ) && spec_has_num_field(t.fields@, "width"@) && spec_has_num_field(t.fields@, "height"@),
        ScriptValue::RectangleValue(_) => true,
        _ => false,
    }
}

/// The rectangle an accepted script value converts to.
pub open spec fn spec_rectangle_value(v: ScriptValue) -> LuaRectangle
    recommends
        spec_rectangle_accepts(v),
{
    match v {
        ScriptValue::Table(t) => LuaRectangle {
            x: spec_field_num(t.fields@, "x"@),
            y: spec_field_num(t.fields@, "y"@),
            width: spec_field_num(t.fields@, "width"@),
            height: spec_field_num(t.fields@, "height"@),
        },
        ScriptValue::RectangleValue(w) => w,
        _ => LuaRectangle {
            x: Scalar { bits: 0 },
            y: Scalar { bits: 0 },
            width: Scalar { bits: 0 },
            height: Scalar { bits: 0 },
        },
    }
}

impl LuaRectangle {
    /// Converts a script value to a rectangle.
    ///
    /// Succeeds exactly on the shapes [`spec_rectangle_accepts`] lists — a
    /// missing or non-numeric required field is an error, never a zero fill.
    pub fn from_dynamic(v: &ScriptValue) -> (r: Result<LuaRectangle, ConversionError>)
        ensures
            r is Ok <==> spec_rectangle_accepts(*v),
            r matches Ok(w) ==> w == spec_rectangle_value(*v),
            r matches Err(e) ==> e.expected@
                == "expected table with x,y,width,height fields or Rectangle userdata"@,
    {
        match v {
            ScriptValue::Table(t) => {
                let fx = lookup_field(&t.fields, "x");
                let fy = lookup_field(&t.fields, "y");
                let fw = lookup_field(&t.fields, "width");
                let fh = lookup_field(&t.fields, "height");
                match (fx, fy, fw, fh) {
                    (
                        Some(FieldValue::Num(x)),
                        Some(FieldValue::Num(y)),
                        Some(FieldValue::Num(width)),
                        Some(FieldValue::Num(height)),
                    ) => Ok(LuaRectangle { x, y, width, height }),
                    _ => Err(
                        shape_error(
                            "expected table with x,y,width,height fields or Rectangle userdata",
                        ),
                    ),
                }
            },
            ScriptValue::RectangleValue(w) => Ok(*w),
            _ => Err(
                shape_error("expected table with x,y,width,height fields or Rectangle userdata"),
            ),
        }
    }

    /// Converts a rectangle back to a script value: a table with exactly the
    /// fields `x`, `y`, `width` and `height`.
    pub fn to_dynamic(&self) -> (r: ScriptValue)
        ensures
            r matches ScriptValue::Table(t) && t.items@ == Seq::<ScriptItem>::empty()
                && t.fields@.len() == 4 && t.fields@[0].name@ == "x"@ && t.fields@[0].value
                == FieldValue::Num(self.x) && t.fields@[1].name@ == "y"@ && t.fields@[1].value
                == FieldValue::Num(self.y) && t.fields@[2].name@ == "width"@ && t.fields@[2].value
                == FieldValue::Num(self.width) && t.fields@[3].name@ == "height"@
                && t.fields@[3].value == FieldValue::Num(self.height),
    {
        let mut fields: Vec<ScriptField> = Vec::new();
        fields.push(ScriptField { name: String::from_str("x"), value: FieldValue::Num(self.x) });
        fields.push(ScriptField { name: String::from_str("y"), value: FieldValue::Num(self.y) });
        fields.push(
            ScriptField { name: String::from_str("width"), value: FieldValue::Num(self.width) },
        );
        fields.push(
            ScriptField { name: String::from_str("height"), value: FieldValue::Num(self.height) },
        );
        let items: Vec<ScriptItem> = Vec::new();
        proof {
            assert(items@ =~= Seq::<ScriptItem>::empty());
        }
        ScriptValue::Table(ScriptTable { items, fields })
    }
}

/// Law: a table missing the `width` field is no rectangle — conversion
/// refuses it rather than filling a default.
pub proof fn lemma_rectangle_requires_width(t: ScriptTable)
    requires
        !spec_has_num_field(t.fields@, "width"@),
    ensures
        !spec_rectangle_accepts(ScriptValue::Table(t)),
{
}

/// Law: a table missing a coordinate field is no vector — conversion refuses
/// it rather than filling a default.
pub proof fn lemma_vector2_requires_fields(t: ScriptTable)
    requires
        !spec_has_num_field(t.fields@, "x"@) || !spec_has_num_field(t.fields@, "y"@),
    ensures
        !spec_vector2_accepts(ScriptValue::Table(t)),
{
}

} // verus!
