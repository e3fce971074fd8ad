//! Symbol tables: case-insensitive resolution of key, mouse-button and
//! gesture names to their enumerations, and the bidirectional map between
//! gesture kinds and the rendering library's native gesture codes.
//!
//! Unknown names never fail: they resolve to a documented fallback value
//! (the null key, the left mouse button, the null gesture).  That leniency is
//! deliberate, if risky — a misspelt name in a script is silently absorbed.

use vstd::prelude::*;
use crate::text::{upper_chars, upper_eq, lemma_upper_chars_idempotent};

verus! {

/// A keyboard key, as the symbol table names them.
///
/// `Null` is the documented fallback for names the table does not know.
#[derive(Clone, Copy, Debug, PartialEq, Eq, Structural, Hash)]
pub enum KeyCode {
    Null,
    Space,
    Escape,
    Enter,
    Tab,
    Backspace,
    Insert,
    Delete,
    Right,
    Left,
    Down,
    Up,
    PageUp,
    PageDown,
    Home,
    End,
    A,
    B,
    C,
    D,
    E,
    F,
    G,
    H,
    I,
    J,
    K,
    L,
    M,
    N,
    O,
    P,
    Q,
    R,
    S,
    T,
    U,
    V,
    W,
    X,
    Y,
    Z,
    Zero,
    One,
    Two,
    Three,
    Four,
    Five,
    Six,
    Seven,
    Eight,
    Nine,
    F1,
    F2,
    F3,
    F4,
    F5,
    F6,
    F7,
    F8,
    F9,
    F10,
    F11,
    F12,
    LeftShift,
    RightShift,
    LeftControl,
    RightControl,
    LeftAlt,
    RightAlt,
}

/// The key a name resolves to, after case folding.
///
/// Aliases map to one key: the escape key answers to ESCAPE and ESC, the left
/// control key to CTRL, CONTROL and LEFT_CONTROL, and so on.  An unknown name
/// resolves to [`KeyCode::Null`].
pub open spec fn spec_str_to_key(s: Seq<char>) -> KeyCode {
    let u = upper_chars(s);
    if u == "SPACE"@ {
        KeyCode::Space
    } else if u == "ESCAPE"@ || u == "ESC"@ {
        KeyCode::Escape
    } else if u == "ENTER"@ || u == "RETURN"@ {
        KeyCode::Enter
    } else if u == "TAB"@ {
        KeyCode::Tab
    } else if u == "BACKSPACE"@ {
        KeyCode::Backspace
    } else if u == "INSERT"@ {
        KeyCode::Insert
    } else if u == "DELETE"@ {
        KeyCode::Delete
    } else if u == "RIGHT"@ {
        KeyCode::Right
    } else if u == "LEFT"@ {
        KeyCode::Left
    } else if u == "DOWN"@ {
        KeyCode::Down
    } else if u == "UP"@ {
        KeyCode::Up
    } else if u == "PAGE_UP"@ {
        KeyCode::PageUp
    } else if u == "PAGE_DOWN"@ {
        KeyCode::PageDown
    } else if u == "HOME"@ {
        KeyCode::Home
    } else if u == "END"@ {
        KeyCode::End
    } else if u == "A"@ {
        KeyCode::A
    } else if u == "B"@ {
        KeyCode::B
    } else if u == "C"@ {
        KeyCode::C
    } else if u == "D"@ {
        KeyCode::D
    } else if u == "E"@ {
        KeyCode::E
    } else if u == "F"@ {
        KeyCode::F
    } else if u == "G"@ {
        KeyCode::G
    } else if u == "H"@ {
        KeyCode::H
    } else if u == "I"@ {
        KeyCode::I
    } else if u == "J"@ {
        KeyCode::J
    } else if u == "K"@ {
        KeyCode::K
    } else if u == "L"@ {
        KeyCode::L
    } else if u == "M"@ {
        KeyCode::M
    } else if u == "N"@ {
        KeyCode::N
    } else if u == "O"@ {
        KeyCode::O
    } else if u == "P"@ {
        KeyCode::P
    } else if u == "Q"@ {
        KeyCode::Q
    } else if u == "R"@ {
        KeyCode::R
    } else if u == "S"@ {
        KeyCode::S
    } else if u == "T"@ {
        KeyCode::T
    } else if u == "U"@ {
        KeyCode::U
    } else if u == "V"@ {
        KeyCode::V
    } else if u == "W"@ {
        KeyCode::W
    } else if u == "X"@ {
        KeyCode::X
    } else if u == "Y"@ {
        KeyCode::Y
    } else if u == "Z"@ {
        KeyCode::Z
    } else if u == "0"@ {
        KeyCode::Zero
    } else if u == "1"@ {
        KeyCode::One
    } else if u == "2"@ {
        KeyCode::Two
    } else if u == "3"@ {
        KeyCode::Three
    } else if u == "4"@ {
        KeyCode::Four
    } else if u == "5"@ {
        KeyCode::Five
    } else if u == "6"@ {
        KeyCode::Six
    } else if u == "7"@ {
        KeyCode::Seven
    } else if u == "8"@ {
        KeyCode::Eight
    } else if u == "9"@ {
        KeyCode::Nine
    } else if u == "F1"@ {
        KeyCode::F1
    } else if u == "F2"@ {
        KeyCode::F2
    } else if u == "F3"@ {
        KeyCode::F3
    } else if u == "F4"@ {
        KeyCode::F4
    } else if u == "F5"@ {
        KeyCode::F5
    } else if u == "F6"@ {
        KeyCode::F6
    } else if u == "F7"@ {
        KeyCode::F7
    } else if u == "F8"@ {
        KeyCode::F8
    } else if u == "F9"@ {
        KeyCode::F9
    } else if u == "F10"@ {
        KeyCode::F10
    } else if u == "F11"@ {
        KeyCode::F11
    } else if u == "F12"@ {
        KeyCode::F12
    } else if u == "SHIFT"@ || u == "LEFT_SHIFT"@ {
        KeyCode::LeftShift
    } else if u == "RIGHT_SHIFT"@ {
        KeyCode::RightShift
    } else if u == "CTRL"@ || u == "CONTROL"@ || u == "LEFT_CONTROL"@ {
        KeyCode::LeftControl
    } else if u == "RIGHT_CONTROL"@ {
        KeyCode::RightControl
    } else if u == "ALT"@ || u == "LEFT_ALT"@ {
        KeyCode::LeftAlt
    } else if u == "RIGHT_ALT"@ {
        KeyCode::RightAlt
    } else {
        KeyCode::Null
    }
}

/// Resolves a key name, matched case-insensitively against the symbol table;
/// an unknown name resolves to [`KeyCode::Null`].
pub fn str_to_key(s: &str) -> (r: KeyCode)
    ensures
        r == spec_str_to_key(s@),
{
    if upper_eq(s, "SPACE") {
        KeyCode::Space
    } else if upper_eq(s, "ESCAPE") || upper_eq(s, "ESC") {
        KeyCode::Escape
    } else if upper_eq(s, "ENTER") || upper_eq(s, "RETURN") {
        KeyCode::Enter
    } else if upper_eq(s, "TAB") {
        KeyCode::Tab
    } else if upper_eq(s, "BACKSPACE") {
        KeyCode::Backspace
    } else if upper_eq(s, "INSERT") {
        KeyCode::Insert
    } else if upper_eq(s, "DELETE") {
        KeyCode::Delete
    } else if upper_eq(s, "RIGHT") {
        KeyCode::Right
    } else if upper_eq(s, "LEFT") {
        KeyCode::Left
    } else if upper_eq(s, "DOWN") {
        KeyCode::Down
    } else if upper_eq(s, "UP") {
        KeyCode::Up
    } else if upper_eq(s, "PAGE_UP") {
        KeyCode::PageUp
    } else if upper_eq(s, "PAGE_DOWN") {
        KeyCode::PageDown
    } else if upper_eq(s, "HOME") {
        KeyCode::Home
    } else if upper_eq(s, "END") {
        KeyCode::End
    } else if upper_eq(s, "A") {
        KeyCode::A
    } else if upper_eq(s, "B") {
        KeyCode::B
    } else if upper_eq(s, "C") {
        KeyCode::C
    } else if upper_eq(s, "D") {
        KeyCode::D
    } else if upper_eq(s, "E") {
        KeyCode::E
    } else if upper_eq(s, "F") {
        KeyCode::F
    } else if upper_eq(s, "G") {
        KeyCode::G
    } else if upper_eq(s, "H") {
        KeyCode::H
    } else if upper_eq(s, "I") {
        KeyCode::I
    } else if upper_eq(s, "J") {
        KeyCode::J
    } else if upper_eq(s, "K") {
        KeyCode::K
    } else if upper_eq(s, "L") {
        KeyCode::L
    } else if upper_eq(s, "M") {
        KeyCode::M
    } else if upper_eq(s, "N") {
        KeyCode::N
    } else if upper_eq(s, "O") {
        KeyCode::O
    } else if upper_eq(s, "P") {
        KeyCode::P
    } else if upper_eq(s, "Q") {
        KeyCode::Q
    } else if upper_eq(s, "R") {
        KeyCode::R
    } else if upper_eq(s, "S") {
        KeyCode::S
    } else if upper_eq(s, "T") {
        KeyCode::T
    } else if upper_eq(s, "U") {
        KeyCode::U
    } else if upper_eq(s, "V") {
        KeyCode::V
    } else if upper_eq(s, "W") {
        KeyCode::W
    } else if upper_eq(s, "X") {
        KeyCode::X
    } else if upper_eq(s, "Y") {
        KeyCode::Y
    } else if upper_eq(s, "Z") {
        KeyCode::Z
    } else if upper_eq(s, "0") {
        KeyCode::Zero
    } else if upper_eq(s, "1") {
        KeyCode::One
    } else if upper_eq(s, "2") {
        KeyCode::Two
    } else if upper_eq(s, "3") {
        KeyCode::Three
    } else if upper_eq(s, "4") {
        KeyCode::Four
    } else if upper_eq(s, "5") {
        KeyCode::Five
    } else if upper_eq(s, "6") {
        KeyCode::Six
    } else if upper_eq(s, "7") {
        KeyCode::Seven
    } else if upper_eq(s, "8") {
        KeyCode::Eight
    } else if upper_eq(s, "9") {
        KeyCode::Nine
    } else if upper_eq(s, "F1") {
        KeyCode::F1
    } else if upper_eq(s, "F2") {
        KeyCode::F2
    } else if upper_eq(s, "F3") {
        KeyCode::F3
    } else if upper_eq(s, "F4") {
        KeyCode::F4
    } else if upper_eq(s, "F5") {
        KeyCode::F5
    } else if upper_eq(s, "F6") {
        KeyCode::F6
    } else if upper_eq(s, "F7") {
        KeyCode::F7
    } else if upper_eq(s, "F8") {
        KeyCode::F8
    } else if upper_eq(s, "F9") {
        KeyCode::F9
    } else if upper_eq(s, "F10") {
        KeyCode::F10
    } else if upper_eq(s, "F11") {
        KeyCode::F11
    } else if upper_eq(s, "F12") {
        KeyCode::F12
    } else if upper_eq(s, "SHIFT") || upper_eq(s, "LEFT_SHIFT") {
        KeyCode::LeftShift
    } else if upper_eq(s, "RIGHT_SHIFT") {
        KeyCode::RightShift
    } else if upper_eq(s, "CTRL") || upper_eq(s, "CONTROL") || upper_eq(s, "LEFT_CONTROL") {
        KeyCode::LeftControl
    } else if upper_eq(s, "RIGHT_CONTROL") {
        KeyCode::RightControl
    } else if upper_eq(s, "ALT") || upper_eq(s, "LEFT_ALT") {
        KeyCode::LeftAlt
    } else if upper_eq(s, "RIGHT_ALT") {
        KeyCode::RightAlt
    } else {
        KeyCode::Null
    }
}

/// Law: key resolution is case-insensitive — two names with the same
/// case-folded spelling resolve to the same key.
pub proof fn lemma_key_resolution_case_insensitive(s: Seq<char>, t: Seq<char>)
    requires
        upper_chars(s) == upper_chars(t),
    ensures
        spec_str_to_key(s) == spec_str_to_key(t),
{
}

/// Law: folding a name before resolving it changes nothing — resolution only
/// ever sees the folded spelling.
pub proof fn lemma_key_resolution_folds(s: Seq<char>)
    ensures
        spec_str_to_key(upper_chars(s)) == spec_str_to_key(s),
{
    lemma_upper_chars_idempotent(s);
}

/// Law: the table's aliases agree — ESC (in any case) and ESCAPE name the same
/// key.
pub proof fn lemma_key_alias_escape()
    ensures
        spec_str_to_key("esc"@) == spec_str_to_key("ESCAPE"@),
        spec_str_to_key("esc"@) == KeyCode::Escape,
{
    reveal_strlit("esc");
    reveal_strlit("ESC");
    reveal_strlit("ESCAPE");
    reveal_strlit("SPACE");
    assert(upper_chars("esc"@) =~= "ESC"@);
    assert(upper_chars("ESCAPE"@) =~= "ESCAPE"@);
}

/// A mouse button, as the symbol table names them.
#[derive(Clone, Copy, Debug, PartialEq, Eq, Structural, Hash)]
pub enum MouseButton {
    Left,
    Right,
    Middle,
    Side,
    Extra,
    Forward,
    Back,
}

/// The button a name resolves to, after case folding; an unknown name falls
/// back to the left button.
pub open spec fn spec_str_to_mouse_button(s: Seq<char>) -> MouseButton {
    let u = upper_chars(s);
    if u == "LEFT"@ {
        MouseButton::Left
    } else if u == "RIGHT"@ {
        MouseButton::Right
    } else if u == "MIDDLE"@ {
        MouseButton::Middle
    } else if u == "SIDE"@ {
        MouseButton::Side
    } else if u == "EXTRA"@ {
        MouseButton::Extra
    } else if u == "FORWARD"@ {
        MouseButton::Forward
    } else if u == "BACK"@ {
        MouseButton::Back
    } else {
        MouseButton::Left
    }
}

/// Resolves a mouse-button name, matched case-insensitively; an unknown name
/// falls back to the left button.
pub fn str_to_mouse_button(s: &str) -> (r: MouseButton)
    ensures
        r == spec_str_to_mouse_button(s@),
{
    if upper_eq(s, "LEFT") {
        MouseButton::Left
    } else if upper_eq(s, "RIGHT") {
        MouseButton::Right
    } else if upper_eq(s, "MIDDLE") {
        MouseButton::Middle
    } else if upper_eq(s, "SIDE") {
        MouseButton::Side
    } else if upper_eq(s, "EXTRA") {
        MouseButton::Extra
    } else if upper_eq(s, "FORWARD") {
        MouseButton::Forward
    } else if upper_eq(s, "BACK") {
        MouseButton::Back
    } else {
        MouseButton::Left
    }
}

/// The button a legacy integer code names; an unknown code falls back to the
/// left button.
pub open spec fn spec_int_to_mouse_button(button: i32) -> MouseButton {
    if button == 0 {
        MouseButton::Left
    } else if button == 1 {
        MouseButton::Right
    } else if button == 2 {
        MouseButton::Middle
    } else if button == 3 {
        MouseButton::Side
    } else if button == 4 {
        MouseButton::Extra
    } else if button == 5 {
        MouseButton::Forward
    } else if button == 6 {
        MouseButton::Back
    } else {
        MouseButton::Left
    }
}

/// Resolves a legacy integer button code; an unknown code falls back to the
/// left button.
pub fn int_to_mouse_button(button: i32) -> (r: MouseButton)
    ensures
        r == spec_int_to_mouse_button(button),
{
    match button {
        0 => MouseButton::Left,
        1 => MouseButton::Right,
        2 => MouseButton::Middle,
        3 => MouseButton::Side,
        4 => MouseButton::Extra,
        5 => MouseButton::Forward,
        6 => MouseButton::Back,
        _ => MouseButton::Left,
    }
}

/// Law: mouse-button resolution is case-insensitive.
pub proof fn lemma_mouse_button_resolution_case_insensitive(s: Seq<char>, t: Seq<char>)
    requires
        upper_chars(s) == upper_chars(t),
    ensures
        spec_str_to_mouse_button(s) == spec_str_to_mouse_button(t),
{
}

/// A touch gesture, the closed set the rendering library can report.
///
/// `None` doubles as the fallback for gesture names the table does not know.
#[derive(Clone, Copy, Debug, PartialEq, Eq, Structural, Hash)]
pub enum LuaGesture {
    Tap,
    DoubleTap,
    Hold,
    Drag,
    SwipeRight,
    SwipeLeft,
    SwipeUp,
    SwipeDown,
    PinchIn,
    PinchOut,
    NoGesture,
}

/// The gesture a name resolves to, after case folding.
///
/// Both the underscored and the run-together spelling of each two-word
/// gesture are accepted (SWIPE_RIGHT and SWIPERIGHT, DOUBLE_TAP and
/// DOUBLETAP); an unknown name resolves to [`LuaGesture::NoGesture`].
pub open spec fn spec_str_to_luagesture(s: Seq<char>) -> LuaGesture {
    let u = upper_chars(s);
    if u == "TAP"@ {
        LuaGesture::Tap
    } else if u == "DOUBLETAP"@ || u == "DOUBLE_TAP"@ {
        LuaGesture::DoubleTap
    } else if u == "HOLD"@ {
        LuaGesture::Hold
    } else if u == "DRAG"@ {
        LuaGesture::Drag
    } else if u == "SWIPE_RIGHT"@ || u == "SWIPERIGHT"@ {
        LuaGesture::SwipeRight
    } else if u == "SWIPE_LEFT"@ || u == "SWIPELEFT"@ {
        LuaGesture::SwipeLeft
    } else if u == "SWIPE_UP"@ || u == "SWIPEUP"@ {
        LuaGesture::SwipeUp
    } else if u == "SWIPE_DOWN"@ || u == "SWIPEDOWN"@ {
        LuaGesture::SwipeDown
    } else if u == "PINCH_IN"@ || u == "PINCHIN"@ {
        LuaGesture::PinchIn
    } else if u == "PINCH_OUT"@ || u == "PINCHOUT"@ {
        LuaGesture::PinchOut
    } else {
        LuaGesture::NoGesture
    }
}

/// Resolves a gesture name to a gesture kind, matched case-insensitively; an
/// unknown name resolves to [`LuaGesture::NoGesture`].
pub fn str_to_luagesture(s: &str) -> (r: LuaGesture)
    ensures
        r == spec_str_to_luagesture(s@),
{
    if upper_eq(s, "TAP") {
        LuaGesture::Tap
    } else if upper_eq(s, "DOUBLETAP") || upper_eq(s, "DOUBLE_TAP") {
        LuaGesture::DoubleTap
    } else if upper_eq(s, "HOLD") {
        LuaGesture::Hold
    } else if upper_eq(s, "DRAG") {
        LuaGesture::Drag
    } else if upper_eq(s, "SWIPE_RIGHT") || upper_eq(s, "SWIPERIGHT") {
        LuaGesture::SwipeRight
    } else if upper_eq(s, "SWIPE_LEFT") || upper_eq(s, "SWIPELEFT") {
        LuaGesture::SwipeLeft
    } else if upper_eq(s, "SWIPE_UP") || upper_eq(s, "SWIPEUP") {
        LuaGesture::SwipeUp
    } else if upper_eq(s, "SWIPE_DOWN") || upper_eq(s, "SWIPEDOWN") {
        LuaGesture::SwipeDown
    } else if upper_eq(s, "PINCH_IN") || upper_eq(s, "PINCHIN") {
        LuaGesture::PinchIn
    } else if upper_eq(s, "PINCH_OUT") || upper_eq(s, "PINCHOUT") {
        LuaGesture::PinchOut
    } else {
        LuaGesture::NoGesture
    }
}

/// Resolves a gesture name to a gesture kind; same table as
/// [`str_to_luagesture`], offered where the caller hands the name over by
/// value.
pub fn gesture(name: String) -> (r: LuaGesture)
    ensures
        r == spec_str_to_luagesture(name@),
{
    str_to_luagesture(name.as_str())
}

/// Resolves a gesture name to a gesture kind; same table as
/// [`str_to_luagesture`].
pub fn gesture_from_str(name: &str) -> (r: LuaGesture)
    ensures
        r == spec_str_to_luagesture(name@),
{
    str_to_luagesture(name)
}

/// The canonical (underscored, upper-case) spelling of a gesture kind.
pub open spec fn spec_luagesture_label(g: LuaGesture) -> Seq<char> {
    match g {
        LuaGesture::Tap => "TAP"@,
        LuaGesture::DoubleTap => "DOUBLE_TAP"@,
        LuaGesture::Hold => "HOLD"@,
        LuaGesture::Drag => "DRAG"@,
        LuaGesture::SwipeRight => "SWIPE_RIGHT"@,
        LuaGesture::SwipeLeft => "SWIPE_LEFT"@,
        LuaGesture::SwipeUp => "SWIPE_UP"@,
        LuaGesture::SwipeDown => "SWIPE_DOWN"@,
        LuaGesture::PinchIn => "PINCH_IN"@,
        LuaGesture::PinchOut => "PINCH_OUT"@,
        LuaGesture::NoGesture => "NONE"@,
    }
}

/// Names a gesture kind with its canonical spelling.
pub fn luagesture_to_str(g: LuaGesture) -> (r: &'static str)
    ensures
        r@ == spec_luagesture_label(g),
{
    match g {
        LuaGesture::Tap => "TAP",
        LuaGesture::DoubleTap => "DOUBLE_TAP",
        LuaGesture::Hold => "HOLD",
        LuaGesture::Drag => "DRAG",
        LuaGesture::SwipeRight => "SWIPE_RIGHT",
        LuaGesture::SwipeLeft => "SWIPE_LEFT",
        LuaGesture::SwipeUp => "SWIPE_UP",
        LuaGesture::SwipeDown => "SWIPE_DOWN",
        LuaGesture::PinchIn => "PINCH_IN",
        LuaGesture::PinchOut => "PINCH_OUT",
        LuaGesture::NoGesture => "NONE",
    }
}

/// The rendering library's native code for a gesture kind.  The codes are
/// bit flags, one bit per gesture, with zero for no gesture.
pub open spec fn spec_gesture_code(g: LuaGesture) -> u32 {
    match g {
        LuaGesture::NoGesture => 0,
        LuaGesture::Tap => 1,
        LuaGesture::DoubleTap => 2,
        LuaGesture::Hold => 4,
        LuaGesture::Drag => 8,
        LuaGesture::SwipeRight => 16,
        LuaGesture::SwipeLeft => 32,
        LuaGesture::SwipeUp => 64,
        LuaGesture::SwipeDown => 128,
        LuaGesture::PinchIn => 256,
        LuaGesture::PinchOut => 512,
    }
}

/// Maps a gesture kind to the rendering library's native code.
pub fn gesture_code(g: LuaGesture) -> (r: u32)
    ensures
        r == spec_gesture_code(g),
{
    match g {
        LuaGesture::NoGesture => 0,
        LuaGesture::Tap => 1,
        LuaGesture::DoubleTap => 2,
        LuaGesture::Hold => 4,
        LuaGesture::Drag => 8,
        LuaGesture::SwipeRight => 16,
        LuaGesture::SwipeLeft => 32,
        LuaGesture::SwipeUp => 64,
        LuaGesture::SwipeDown => 128,
        LuaGesture::PinchIn => 256,
        LuaGesture::PinchOut => 512,
    }
}

/// The gesture kind behind a native code; an unknown code reads as no
/// gesture.
pub open spec fn spec_gesture_from_code(code: u32) -> LuaGesture {
    if code == 1 {
        LuaGesture::Tap
    } else if code == 2 {
        LuaGesture::DoubleTap
    } else if code == 4 {
        LuaGesture::Hold
    } else if code == 8 {
        LuaGesture::Drag
    } else if code == 16 {
        LuaGesture::SwipeRight
    } else if code == 32 {
        LuaGesture::SwipeLeft
    } else if code == 64 {
        LuaGesture::SwipeUp
    } else if code == 128 {
        LuaGesture::SwipeDown
    } else if code == 256 {
        LuaGesture::PinchIn
    } else if code == 512 {
        LuaGesture::PinchOut
    } else {
        LuaGesture::NoGesture
    }
}

/// Maps a native gesture code back to a gesture kind; an unknown code reads
/// as no gesture.
pub fn gesture_from_code(code: u32) -> (r: LuaGesture)
    ensures
        r == spec_gesture_from_code(code),
{
    match code {
        1 => LuaGesture::Tap,
        2 => LuaGesture::DoubleTap,
        4 => LuaGesture::Hold,
        8 => LuaGesture::Drag,
        16 => LuaGesture::SwipeRight,
        32 => LuaGesture::SwipeLeft,
        64 => LuaGesture::SwipeUp,
        128 => LuaGesture::SwipeDown,
        256 => LuaGesture::PinchIn,
        512 => LuaGesture::PinchOut,
        _ => LuaGesture::NoGesture,
    }
}

/// Resolves a gesture name straight to the rendering library's native code;
/// an unknown name resolves to the no-gesture code.
pub fn str_to_gesture(s: &str) -> (r: u32)
    ensures
        r == spec_gesture_code(spec_str_to_luagesture(s@)),
{
    gesture_code(str_to_luagesture(s))
}

/// Names a native gesture code with its canonical spelling; an unknown code
/// reads as no gesture.
pub fn gesture_to_str(code: u32) -> (r: &'static str)
    ensures
        r@ == spec_luagesture_label(spec_gesture_from_code(code)),
{
    luagesture_to_str(gesture_from_code(code))
}

/// Law: the native-code map is a bijection on the gesture kinds — decoding an
/// encoded gesture gives the gesture back.
pub proof fn lemma_gesture_code_round_trip(g: LuaGesture)
    ensures
        spec_gesture_from_code(spec_gesture_code(g)) == g,
{
}

/// Law: gesture resolution is case-insensitive.
pub proof fn lemma_gesture_resolution_case_insensitive(s: Seq<char>, t: Seq<char>)
    requires
        upper_chars(s) == upper_chars(t),
    ensures
        spec_str_to_luagesture(s) == spec_str_to_luagesture(t),
{
}

/// Law: naming a gesture and resolving the name gives the gesture back, for
/// every gesture kind.
#[verifier::rlimit(100)]
pub proof fn lemma_gesture_label_round_trip(g: LuaGesture)
    ensures
        spec_str_to_luagesture(spec_luagesture_label(g)) == g,
{
    broadcast use vstd::string::group_string_axioms;
    reveal_strlit("TAP");
    reveal_strlit("DOUBLETAP");
    reveal_strlit("DOUBLE_TAP");
    reveal_strlit("HOLD");
    reveal_strlit("DRAG");
    reveal_strlit("SWIPE_RIGHT");
    reveal_strlit("SWIPERIGHT");
    reveal_strlit("SWIPE_LEFT");
    reveal_strlit("SWIPELEFT");
    reveal_strlit("SWIPE_UP");
    reveal_strlit("SWIPEUP");
    reveal_strlit("SWIPE_DOWN");
    reveal_strlit("SWIPEDOWN");
    reveal_strlit("PINCH_IN");
    reveal_strlit("PINCHIN");
    reveal_strlit("PINCH_OUT");
    reveal_strlit("PINCHOUT");
    reveal_strlit("NONE");
    match g {
        LuaGesture::Tap => {
            assert(upper_chars("TAP"@) =~= "TAP"@);
        },
        LuaGesture::DoubleTap => {
            assert(upper_chars("DOUBLE_TAP"@) =~= "DOUBLE_TAP"@);
        },
        LuaGesture::Hold => {
            assert(upper_chars("HOLD"@) =~= "HOLD"@);
        },
        LuaGesture::Drag => {
            assert(upper_chars("DRAG"@) =~= "DRAG"@);
            assert("DRAG"@[0] == 'D' && "HOLD"@[0] == 'H');
            assert("DRAG"@ != "HOLD"@);
        },
        LuaGesture::SwipeRight => {
            assert(upper_chars("SWIPE_RIGHT"@) =~= "SWIPE_RIGHT"@);
        },
        LuaGesture::SwipeLeft => {
            assert(upper_chars("SWIPE_LEFT"@) =~= "SWIPE_LEFT"@);
            assert("SWIPE_LEFT"@[0] == 'S' && "DOUBLE_TAP"@[0] == 'D');
            assert("SWIPE_LEFT"@ != "DOUBLE_TAP"@);
            assert("SWIPE_LEFT"@[5] == '_' && "SWIPERIGHT"@[5] == 'R');
            assert("SWIPE_LEFT"@ != "SWIPERIGHT"@);
        },
        LuaGesture::SwipeUp => {
            assert(upper_chars("SWIPE_UP"@) =~= "SWIPE_UP"@);
        },
        LuaGesture::SwipeDown => {
            assert(upper_chars("SWIPE_DOWN"@) =~= "SWIPE_DOWN"@);
            assert("SWIPE_DOWN"@[0] == 'S' && "DOUBLE_TAP"@[0] == 'D');
            assert("SWIPE_DOWN"@ != "DOUBLE_TAP"@);
            assert("SWIPE_DOWN"@[5] == '_' && "SWIPERIGHT"@[5] == 'R');
            assert("SWIPE_DOWN"@ != "SWIPERIGHT"@);
            assert("SWIPE_DOWN"@[6] == 'D' && "SWIPE_LEFT"@[6] == 'L');
            assert("SWIPE_DOWN"@ != "SWIPE_LEFT"@);
        },
        LuaGesture::PinchIn => {
            assert(upper_chars("PINCH_IN"@) =~= "PINCH_IN"@);
            assert("PINCH_IN"@[0] == 'P' && "SWIPE_UP"@[0] == 'S');
            assert("PINCH_IN"@ != "SWIPE_UP"@);
        },
        LuaGesture::PinchOut => {
            assert(upper_chars("PINCH_OUT"@) =~= "PINCH_OUT"@);
            assert("PINCH_OUT"@[0] == 'P' && "DOUBLETAP"@[0] == 'D');
            assert("PINCH_OUT"@ != "DOUBLETAP"@);
            assert("PINCH_OUT"@[0] == 'P' && "SWIPELEFT"@[0] == 'S');
            assert("PINCH_OUT"@ != "SWIPELEFT"@);
            assert("PINCH_OUT"@[0] == 'P' && "SWIPEDOWN"@[0] == 'S');
            assert("PINCH_OUT"@ != "SWIPEDOWN"@);
        },
        LuaGesture::NoGesture => {
            assert(upper_chars("NONE"@) =~= "NONE"@);
            assert("NONE"@[0] == 'N' && "HOLD"@[0] == 'H');
            assert("NONE"@ != "HOLD"@);
            assert("NONE"@[0] == 'N' && "DRAG"@[0] == 'D');
            assert("NONE"@ != "DRAG"@);
        },
    }
}

} // verus!
