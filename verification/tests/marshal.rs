use raylib_lua::geometry::{color, rect, vector2, vector3, LuaColor, LuaRectangle, LuaVector2, LuaVector3, Scalar};
use raylib_lua::marshal::{FieldValue, ScriptField, ScriptItem, ScriptTable, ScriptValue};

fn s(x: f32) -> Scalar {
    Scalar { bits: x.to_bits() }
}

fn channel_table(channels: &[u8]) -> ScriptValue {
    ScriptValue::Table(ScriptTable {
        items: channels.iter().map(|&c| ScriptItem::Byte(c)).collect(),
        fields: Vec::new(),
    })
}

fn field_table(fields: &[(&str, f32)]) -> ScriptValue {
    ScriptValue::Table(ScriptTable {
        items: Vec::new(),
        fields: fields
            .iter()
            .map(|&(name, x)| ScriptField {
                name: String::from(name),
                value: FieldValue::Num(s(x)),
            })
            .collect(),
    })
}

#[test]
fn color_from_four_channels() {
    let v = channel_table(&[10, 20, 30, 40]);
    let c = LuaColor::from_dynamic(&v).unwrap();
    assert_eq!(c, LuaColor { r: 10, g: 20, b: 30, a: 40 });
}

#[test]
fn color_omitted_alpha_defaults_opaque() {
    let v = channel_table(&[10, 20, 30]);
    let c = LuaColor::from_dynamic(&v).unwrap();
    assert_eq!(c, LuaColor { r: 10, g: 20, b: 30, a: 255 });
}

#[test]
fn color_round_trip_four_channels() {
    let v = channel_table(&[10, 20, 30, 40]);
    let c = LuaColor::from_dynamic(&v).unwrap();
    // to_dynamic(from_dynamic(v)) == v
    assert_eq!(c.to_dynamic(), v);
}

#[test]
fn color_round_trip_three_channels_makes_alpha_explicit() {
    let v = channel_table(&[10, 20, 30]);
    let c = LuaColor::from_dynamic(&v).unwrap();
    // the omitted alpha converts to 255 and comes back explicit
    assert_eq!(c.to_dynamic(), channel_table(&[10, 20, 30, 255]));
}

#[test]
fn color_rejects_short_tuple() {
    let v = channel_table(&[10, 20]);
    let e = LuaColor::from_dynamic(&v).unwrap_err();
    assert_eq!(e.message(), "Expected table {r, g, b, a}");
}

#[test]
fn color_rejects_non_table() {
    let e = LuaColor::from_dynamic(&ScriptValue::Other).unwrap_err();
    assert_eq!(e.message(), "Expected table {r, g, b, a}");
}

#[test]
fn color_rejects_non_numeric_channel() {
    let v = ScriptValue::Table(ScriptTable {
        items: vec![ScriptItem::Byte(1), ScriptItem::NotByte, ScriptItem::Byte(3)],
        fields: Vec::new(),
    });
    assert!(LuaColor::from_dynamic(&v).is_err());
}

#[test]
fn color_bad_fourth_channel_reads_opaque() {
    let v = ScriptValue::Table(ScriptTable {
        items: vec![
            ScriptItem::Byte(1),
            ScriptItem::Byte(2),
            ScriptItem::Byte(3),
            ScriptItem::NotByte,
        ],
        fields: Vec::new(),
    });
    let c = LuaColor::from_dynamic(&v).unwrap();
    assert_eq!(c.a, 255);
}

#[test]
fn color_passes_prebuilt_value_through() {
    let c = LuaColor { r: 1, g: 2, b: 3, a: 4 };
    assert_eq!(LuaColor::from_dynamic(&ScriptValue::ColorValue(c)).unwrap(), c);
}

#[test]
fn vector2_from_fields() {
    let v = field_table(&[("x", 3.0), ("y", 4.0)]);
    let w = LuaVector2::from_dynamic(&v).unwrap();
    assert_eq!(w, LuaVector2 { x: s(3.0), y: s(4.0) });
}

#[test]
fn vector2_rejects_missing_field() {
    let v = field_table(&[("x", 3.0)]);
    let e = LuaVector2::from_dynamic(&v).unwrap_err();
    assert_eq!(e.message(), "expected table with x,y fields or Vector2 userdata");
}

#[test]
fn vector2_rejects_non_numeric_field() {
    let v = ScriptValue::Table(ScriptTable {
        items: Vec::new(),
        fields: vec![
            ScriptField { name: String::from("x"), value: FieldValue::Num(s(1.0)) },
            ScriptField { name: String::from("y"), value: FieldValue::NotNum },
        ],
    });
    assert!(LuaVector2::from_dynamic(&v).is_err());
}

#[test]
fn vector2_passes_prebuilt_value_through() {
    let w = vector2(s(1.5), s(2.5));
    assert_eq!(LuaVector2::from_dynamic(&ScriptValue::Vector2Value(w)).unwrap(), w);
}

#[test]
fn vector2_round_trip() {
    let v = field_table(&[("x", 3.0), ("y", 4.0)]);
    let w = LuaVector2::from_dynamic(&v).unwrap();
    assert_eq!(w.to_dynamic(), v);
}

#[test]
fn vector3_from_fields() {
    let v = field_table(&[("x", 1.0), ("y", 2.0), ("z", 3.0)]);
    let w = LuaVector3::from_dynamic(&v).unwrap();
    assert_eq!(w, vector3(s(1.0), s(2.0), s(3.0)));
}

#[test]
fn vector3_rejects_missing_z() {
    let v = field_table(&[("x", 1.0), ("y", 2.0)]);
    let e = LuaVector3::from_dynamic(&v).unwrap_err();
    assert_eq!(e.message(), "expected table with x,y,z fields or Vector3 userdata");
}

#[test]
fn vector3_round_trip() {
    let v = field_table(&[("x", 1.0), ("y", 2.0), ("z", 3.0)]);
    let w = LuaVector3::from_dynamic(&v).unwrap();
    assert_eq!(w.to_dynamic(), v);
}

#[test]
fn rectangle_from_fields() {
    let v = field_table(&[("x", 1.0), ("y", 2.0), ("width", 3.0), ("height", 4.0)]);
    let w = LuaRectangle::from_dynamic(&v).unwrap();
    assert_eq!(w, rect(s(1.0), s(2.0), s(3.0), s(4.0)));
}

#[test]
fn rectangle_rejects_missing_width() {
    // a table with x and y but no width is refused, not zero-filled
    let v = field_table(&[("x", 1.0), ("y", 2.0), ("height", 4.0)]);
    let e = LuaRectangle::from_dynamic(&v).unwrap_err();
    assert_eq!(
        e.message(),
        "expected table with x,y,width,height fields or Rectangle userdata"
    );
}

#[test]
fn rectangle_passes_prebuilt_value_through() {
    let w = LuaRectangle::new(s(0.0), s(0.0), s(10.0), s(20.0));
    assert_eq!(
        LuaRectangle::from_dynamic(&ScriptValue::RectangleValue(w)).unwrap(),
        w
    );
}

#[test]
fn rectangle_round_trip() {
    let v = field_table(&[("x", 1.0), ("y", 2.0), ("width", 3.0), ("height", 4.0)]);
    let w = LuaRectangle::from_dynamic(&v).unwrap();
    assert_eq!(w.to_dynamic(), v);
}

#[test]
fn field_lookup_takes_first_match() {
    let v = ScriptValue::Table(ScriptTable {
        items: Vec::new(),
        fields: vec![
            ScriptField { name: String::from("x"), value: FieldValue::Num(s(1.0)) },
            ScriptField { name: String::from("x"), value: FieldValue::Num(s(9.0)) },
            ScriptField { name: String::from("y"), value: FieldValue::Num(s(2.0)) },
        ],
    });
    let w = LuaVector2::from_dynamic(&v).unwrap();
    assert_eq!(w.x, s(1.0));
}

#[test]
fn color_constructor_defaults_alpha() {
    assert_eq!(color(1, 2, 3, None), LuaColor { r: 1, g: 2, b: 3, a: 255 });
    assert_eq!(color(1, 2, 3, Some(77)), LuaColor { r: 1, g: 2, b: 3, a: 77 });
}

#[test]
fn vec2_magnitude_is_five_for_three_four() {
    // the 3-4-5 triangle: build the vector through the library, then do the
    // floating-point arithmetic on the host side, as the binding itself does
    let w = vector2(s(3.0), s(4.0));
    let x = f32::from_bits(w.x.bits);
    let y = f32::from_bits(w.y.bits);
    let magnitude = x.hypot(y);
    assert!((magnitude - 5.0).abs() < f32::EPSILON);
}
