use raylib_lua::geometry::{named_colors, LuaColor};
use raylib_lua::symbols::{
    gesture, gesture_code, gesture_from_code, gesture_from_str, gesture_to_str,
    int_to_mouse_button, luagesture_to_str, str_to_gesture, str_to_key, str_to_luagesture,
    str_to_mouse_button, KeyCode, LuaGesture, MouseButton,
};
use raylib_lua::text::{str_eq, upper_eq};

#[test]
fn key_resolution_is_case_insensitive_and_alias_consistent() {
    assert_eq!(str_to_key("esc"), str_to_key("ESCAPE"));
    assert_eq!(str_to_key("esc"), KeyCode::Escape);
    assert_eq!(str_to_key("Esc"), KeyCode::Escape);
    assert_eq!(str_to_key("space"), KeyCode::Space);
    assert_eq!(str_to_key("ctrl"), str_to_key("LEFT_CONTROL"));
    assert_eq!(str_to_key("Control"), KeyCode::LeftControl);
    assert_eq!(str_to_key("return"), str_to_key("ENTER"));
    assert_eq!(str_to_key("shift"), KeyCode::LeftShift);
    assert_eq!(str_to_key("alt"), KeyCode::LeftAlt);
}

#[test]
fn key_resolution_covers_letters_digits_and_function_keys() {
    assert_eq!(str_to_key("a"), KeyCode::A);
    assert_eq!(str_to_key("Z"), KeyCode::Z);
    assert_eq!(str_to_key("0"), KeyCode::Zero);
    assert_eq!(str_to_key("9"), KeyCode::Nine);
    assert_eq!(str_to_key("f1"), KeyCode::F1);
    assert_eq!(str_to_key("F12"), KeyCode::F12);
    assert_eq!(str_to_key("page_up"), KeyCode::PageUp);
    assert_eq!(str_to_key("Page_Down"), KeyCode::PageDown);
}

#[test]
fn unknown_key_resolves_to_null() {
    assert_eq!(str_to_key("no such key"), KeyCode::Null);
    assert_eq!(str_to_key(""), KeyCode::Null);
    assert_eq!(str_to_key("F13"), KeyCode::Null);
}

#[test]
fn mouse_button_resolution_is_case_insensitive() {
    assert_eq!(str_to_mouse_button("left"), MouseButton::Left);
    assert_eq!(str_to_mouse_button("LEFT"), MouseButton::Left);
    assert_eq!(str_to_mouse_button("Right"), MouseButton::Right);
    assert_eq!(str_to_mouse_button("middle"), MouseButton::Middle);
    assert_eq!(str_to_mouse_button("side"), MouseButton::Side);
    assert_eq!(str_to_mouse_button("extra"), MouseButton::Extra);
    assert_eq!(str_to_mouse_button("forward"), MouseButton::Forward);
    assert_eq!(str_to_mouse_button("back"), MouseButton::Back);
}

#[test]
fn unknown_mouse_button_falls_back_to_left() {
    assert_eq!(str_to_mouse_button("wheel"), MouseButton::Left);
    assert_eq!(str_to_mouse_button(""), MouseButton::Left);
}

#[test]
fn integer_mouse_button_codes() {
    assert_eq!(int_to_mouse_button(0), MouseButton::Left);
    assert_eq!(int_to_mouse_button(1), MouseButton::Right);
    assert_eq!(int_to_mouse_button(2), MouseButton::Middle);
    assert_eq!(int_to_mouse_button(3), MouseButton::Side);
    assert_eq!(int_to_mouse_button(4), MouseButton::Extra);
    assert_eq!(int_to_mouse_button(5), MouseButton::Forward);
    assert_eq!(int_to_mouse_button(6), MouseButton::Back);
    assert_eq!(int_to_mouse_button(7), MouseButton::Left);
    assert_eq!(int_to_mouse_button(-1), MouseButton::Left);
}

#[test]
fn gesture_resolution_accepts_every_spelling() {
    assert_eq!(str_to_luagesture("TAP"), LuaGesture::Tap);
    assert_eq!(str_to_luagesture("tap"), LuaGesture::Tap);
    assert_eq!(str_to_luagesture("Tap"), LuaGesture::Tap);
    assert_eq!(str_to_luagesture("doubletap"), LuaGesture::DoubleTap);
    assert_eq!(str_to_luagesture("DoubleTap"), LuaGesture::DoubleTap);
    assert_eq!(str_to_luagesture("hold"), LuaGesture::Hold);
    assert_eq!(str_to_luagesture("drag"), LuaGesture::Drag);
    assert_eq!(str_to_luagesture("swipe_right"), LuaGesture::SwipeRight);
    assert_eq!(str_to_luagesture("SwipeRight"), LuaGesture::SwipeRight);
    assert_eq!(str_to_luagesture("swipe_left"), LuaGesture::SwipeLeft);
    assert_eq!(str_to_luagesture("SWIPE_UP"), LuaGesture::SwipeUp);
    assert_eq!(str_to_luagesture("SwipeDown"), LuaGesture::SwipeDown);
    assert_eq!(str_to_luagesture("pinch_in"), LuaGesture::PinchIn);
    assert_eq!(str_to_luagesture("PinchOut"), LuaGesture::PinchOut);
    assert_eq!(str_to_luagesture("none"), LuaGesture::NoGesture);
    assert_eq!(str_to_luagesture("not a gesture"), LuaGesture::NoGesture);
}

#[test]
fn gesture_helpers_share_the_table() {
    assert_eq!(gesture(String::from("double_tap")), LuaGesture::DoubleTap);
    assert_eq!(gesture_from_str("DOUBLE_TAP"), LuaGesture::DoubleTap);
    assert_eq!(gesture(String::from("unknown")), LuaGesture::NoGesture);
}

#[test]
fn gesture_label_round_trips_for_every_kind() {
    let all = [
        LuaGesture::Tap,
        LuaGesture::DoubleTap,
        LuaGesture::Hold,
        LuaGesture::Drag,
        LuaGesture::SwipeRight,
        LuaGesture::SwipeLeft,
        LuaGesture::SwipeUp,
        LuaGesture::SwipeDown,
        LuaGesture::PinchIn,
        LuaGesture::PinchOut,
        LuaGesture::NoGesture,
    ];
    for g in all {
        assert_eq!(str_to_luagesture(luagesture_to_str(g)), g);
    }
}

#[test]
fn gesture_native_codes_round_trip() {
    let all = [
        LuaGesture::Tap,
        LuaGesture::DoubleTap,
        LuaGesture::Hold,
        LuaGesture::Drag,
        LuaGesture::SwipeRight,
        LuaGesture::SwipeLeft,
        LuaGesture::SwipeUp,
        LuaGesture::SwipeDown,
        LuaGesture::PinchIn,
        LuaGesture::PinchOut,
        LuaGesture::NoGesture,
    ];
    for g in all {
        assert_eq!(gesture_from_code(gesture_code(g)), g);
    }
    assert_eq!(gesture_code(LuaGesture::NoGesture), 0);
    assert_eq!(gesture_code(LuaGesture::Tap), 1);
    assert_eq!(gesture_code(LuaGesture::SwipeRight), 16);
    assert_eq!(gesture_code(LuaGesture::PinchOut), 512);
    assert_eq!(gesture_from_code(3), LuaGesture::NoGesture);
}

#[test]
fn gesture_native_code_string_helpers() {
    assert_eq!(str_to_gesture("tap"), 1);
    assert_eq!(str_to_gesture("SWIPE_DOWN"), 128);
    assert_eq!(str_to_gesture("nothing"), 0);
    assert_eq!(gesture_to_str(16), "SWIPE_RIGHT");
    assert_eq!(gesture_to_str(0), "NONE");
    assert_eq!(gesture_to_str(999), "NONE");
}

#[test]
fn case_folding_compares() {
    assert!(upper_eq("AbC", "ABC"));
    assert!(upper_eq("abc", "ABC"));
    assert!(!upper_eq("abd", "ABC"));
    assert!(!upper_eq("ab", "ABC"));
    assert!(upper_eq("", ""));
    assert!(str_eq("width", "width"));
    assert!(!str_eq("width", "height"));
}

#[test]
fn named_color_table_has_the_constants() {
    let colors = named_colors();
    assert_eq!(colors.len(), 27);
    assert_eq!(colors[0].name, "WHITE");
    assert_eq!(colors[0].color, LuaColor { r: 255, g: 255, b: 255, a: 255 });
    let blank = colors.iter().find(|c| c.name == "BLANK").unwrap();
    assert_eq!(blank.color, LuaColor { r: 0, g: 0, b: 0, a: 0 });
    let maroon = colors.iter().find(|c| c.name == "MAROON").unwrap();
    assert_eq!(maroon.color, LuaColor { r: 190, g: 33, b: 55, a: 255 });
    let violet = colors.iter().find(|c| c.name == "VIOLET").unwrap();
    assert_eq!(violet.color, LuaColor { r: 135, g: 60, b: 190, a: 255 });
}
