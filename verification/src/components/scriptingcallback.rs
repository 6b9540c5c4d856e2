use vstd::prelude::*;

verus! {

/// A key of the keyboard, one variant for each key the windowing layer reports.
#[derive(Debug, Clone, Copy, PartialEq, Eq, Structural)]
pub enum VirtualKeyCode {
    Key1,
    Key2,
    Key3,
    Key4,
    Key5,
    Key6,
    Key7,
    Key8,
    Key9,
    Key0,
    A,
    B,
    C,
    D,
    E,
    F,
    G,
    H,
    I,
    J,
    K,
    L,
    M,
    N,
    O,
    P,
    Q,
    R,
    S,
    T,
    U,
    V,
    W,
    X,
    Y,
    Z,
    Escape,
    F1,
    F2,
    F3,
    F4,
    F5,
    F6,
    F7,
    F8,
    F9,
    F10,
    F11,
    F12,
    F13,
    F14,
    F15,
    F16,
    F17,
    F18,
    F19,
    F20,
    F21,
    F22,
    F23,
    F24,
    Snapshot,
    Scroll,
    Pause,
    Insert,
    Home,
    Delete,
    End,
    PageDown,
    PageUp,
    Left,
    Up,
    Right,
    Down,
    Back,
    Return,
    Space,
    Compose,
    Caret,
    Numlock,
    Numpad0,
    Numpad1,
    Numpad2,
    Numpad3,
    Numpad4,
    Numpad5,
    Numpad6,
    Numpad7,
    Numpad8,
    Numpad9,
    NumpadAdd,
    NumpadDivide,
    NumpadDecimal,
    NumpadComma,
    NumpadEnter,
    NumpadEquals,
    NumpadMultiply,
    NumpadSubtract,
    AbntC1,
    AbntC2,
    Apostrophe,
    Apps,
    Asterisk,
    At,
    Ax,
    Backslash,
    Calculator,
    Capital,
    Colon,
    Comma,
    Convert,
    Equals,
    Grave,
    Kana,
    Kanji,
    LAlt,
    LBracket,
    LControl,
    LShift,
    LWin,
    Mail,
    MediaSelect,
    MediaStop,
    Minus,
    Mute,
    MyComputer,
    NavigateForward,
    NavigateBackward,
    NextTrack,
    NoConvert,
    OEM102,
    Period,
    PlayPause,
    Plus,
    Power,
    PrevTrack,
    RAlt,
    RBracket,
    RControl,
    RShift,
    RWin,
    Semicolon,
    Slash,
    Sleep,
    Stop,
    Sysrq,
    Tab,
    Underline,
    Unlabeled,
    VolumeDown,
    VolumeUp,
    Wake,
    WebBack,
    WebFavorites,
    WebForward,
    WebHome,
    WebRefresh,
    WebSearch,
    WebStop,
    Yen,
    Copy,
    Paste,
    Cut,
}

/// The key code that scripts receive for a key: the browser `keyCode` numbering for
/// most keys, except that PageUp shares End's code 35 (browsers give it 33); keys
/// without a code get 0.
pub open spec fn js_key_code(keycode: VirtualKeyCode) -> u32 {
    match keycode {
        VirtualKeyCode::Key1 => 49,
        VirtualKeyCode::Key2 => 50,
        VirtualKeyCode::Key3 => 51,
        VirtualKeyCode::Key4 => 52,
        VirtualKeyCode::Key5 => 53,
        VirtualKeyCode::Key6 => 54,
        VirtualKeyCode::Key7 => 55,
        VirtualKeyCode::Key8 => 56,
        VirtualKeyCode::Key9 => 57,
        VirtualKeyCode::Key0 => 48,
        VirtualKeyCode::A => 65,
        VirtualKeyCode::B => 66,
        VirtualKeyCode::C => 67,
        VirtualKeyCode::D => 68,
        VirtualKeyCode::E => 69,
        VirtualKeyCode::F => 70,
        VirtualKeyCode::G => 71,
        VirtualKeyCode::H => 72,
        VirtualKeyCode::I => 73,
        VirtualKeyCode::J => 74,
        VirtualKeyCode::K => 75,
        VirtualKeyCode::L => 76,
        VirtualKeyCode::M => 77,
        VirtualKeyCode::N => 78,
        VirtualKeyCode::O => 79,
        VirtualKeyCode::P => 80,
        VirtualKeyCode::Q => 81,
        VirtualKeyCode::R => 82,
        VirtualKeyCode::S => 83,
        VirtualKeyCode::T => 84,
        VirtualKeyCode::U => 85,
        VirtualKeyCode::V => 86,
        VirtualKeyCode::W => 87,
        VirtualKeyCode::X => 88,
        VirtualKeyCode::Y => 89,
        VirtualKeyCode::Z => 90,
        VirtualKeyCode::Escape => 27,
        VirtualKeyCode::F1 => 112,
        VirtualKeyCode::F2 => 113,
        VirtualKeyCode::F3 => 114,
        VirtualKeyCode::F4 => 115,
        VirtualKeyCode::F5 => 116,
        VirtualKeyCode::F6 => 117,
        VirtualKeyCode::F7 => 118,
        VirtualKeyCode::F8 => 119,
        VirtualKeyCode::F9 => 120,
        VirtualKeyCode::F10 => 121,
        VirtualKeyCode::F11 => 122,
        VirtualKeyCode::F12 => 123,
        VirtualKeyCode::F13 => 0,
        VirtualKeyCode::F14 => 0,
        VirtualKeyCode::F15 => 0,
        VirtualKeyCode::F16 => 0,
        VirtualKeyCode::F17 => 0,
        VirtualKeyCode::F18 => 0,
        VirtualKeyCode::F19 => 0,
        VirtualKeyCode::F20 => 0,
        VirtualKeyCode::F21 => 0,
        VirtualKeyCode::F22 => 0,
        VirtualKeyCode::F23 => 0,
        VirtualKeyCode::F24 => 0,
        VirtualKeyCode::Snapshot => 0,
        VirtualKeyCode::Scroll => 0,
        VirtualKeyCode::Pause => 19,
        VirtualKeyCode::Insert => 45,
        VirtualKeyCode::Home => 36,
        VirtualKeyCode::Delete => 46,
        VirtualKeyCode::End => 35,
        VirtualKeyCode::PageDown => 34,
        VirtualKeyCode::PageUp => 35,
        VirtualKeyCode::Left => 37,
        VirtualKeyCode::Up => 38,
        VirtualKeyCode::Right => 39,
        VirtualKeyCode::Down => 40,
        VirtualKeyCode::Back => 8,
        VirtualKeyCode::Return => 13,
        VirtualKeyCode::Space => 32,
        VirtualKeyCode::Compose => 0,
        VirtualKeyCode::Caret => 0,
        VirtualKeyCode::Numlock => 144,
        VirtualKeyCode::Numpad0 => 96,
        VirtualKeyCode::Numpad1 => 97,
        VirtualKeyCode::Numpad2 => 98,
        VirtualKeyCode::Numpad3 => 99,
        VirtualKeyCode::Numpad4 => 100,
        VirtualKeyCode::Numpad5 => 101,
        VirtualKeyCode::Numpad6 => 102,
        VirtualKeyCode::Numpad7 => 103,
        VirtualKeyCode::Numpad8 => 104,
        VirtualKeyCode::Numpad9 => 105,
        VirtualKeyCode::NumpadAdd => 107,
        VirtualKeyCode::NumpadDivide => 111,
        VirtualKeyCode::NumpadDecimal => 110,
        VirtualKeyCode::NumpadComma => 188,
        VirtualKeyCode::NumpadEnter => 0,
        VirtualKeyCode::NumpadEquals => 187,
        VirtualKeyCode::NumpadMultiply => 106,
        VirtualKeyCode::NumpadSubtract => 109,
        VirtualKeyCode::AbntC1 => 0,
        VirtualKeyCode::AbntC2 => 0,
        VirtualKeyCode::Apostrophe => 222,
        VirtualKeyCode::Apps => 0,
        VirtualKeyCode::Asterisk => 0,
        VirtualKeyCode::At => 0,
        VirtualKeyCode::Ax => 0,
        VirtualKeyCode::Backslash => 220,
        VirtualKeyCode::Calculator => 0,
        VirtualKeyCode::Capital => 0,
        VirtualKeyCode::Colon => 0,
        VirtualKeyCode::Comma => 188,
        VirtualKeyCode::Convert => 0,
        VirtualKeyCode::Equals => 187,
        VirtualKeyCode::Grave => 0,
        VirtualKeyCode::Kana => 0,
        VirtualKeyCode::Kanji => 0,
        VirtualKeyCode::LAlt => 18,
        VirtualKeyCode::LBracket => 0,
        VirtualKeyCode::LControl => 17,
        VirtualKeyCode::LShift => 16,
        VirtualKeyCode::LWin => 0,
        VirtualKeyCode::Mail => 0,
        VirtualKeyCode::MediaSelect => 0,
        VirtualKeyCode::MediaStop => 0,
        VirtualKeyCode::Minus => 0,
        VirtualKeyCode::Mute => 0,
        VirtualKeyCode::MyComputer => 0,
        VirtualKeyCode::NavigateForward => 0,
        VirtualKeyCode::NavigateBackward => 0,
        VirtualKeyCode::NextTrack => 0,
        VirtualKeyCode::NoConvert => 0,
        VirtualKeyCode::OEM102 => 0,
        VirtualKeyCode::Period => 0,
        VirtualKeyCode::PlayPause => 0,
        VirtualKeyCode::Plus => 0,
        VirtualKeyCode::Power => 0,
        VirtualKeyCode::PrevTrack => 0,
        VirtualKeyCode::RAlt => 18,
        VirtualKeyCode::RBracket => 0,
        VirtualKeyCode::RControl => 17,
        VirtualKeyCode::RShift => 16,
        VirtualKeyCode::RWin => 0,
        VirtualKeyCode::Semicolon => 186,
        VirtualKeyCode::Slash => 191,
        VirtualKeyCode::Sleep => 0,
        VirtualKeyCode::Stop => 0,
        VirtualKeyCode::Sysrq => 0,
        VirtualKeyCode::Tab => 9,
        VirtualKeyCode::Underline => 0,
        VirtualKeyCode::Unlabeled => 0,
        VirtualKeyCode::VolumeDown => 0,
        VirtualKeyCode::VolumeUp => 0,
        VirtualKeyCode::Wake => 0,
        VirtualKeyCode::WebBack => 0,
        VirtualKeyCode::WebFavorites => 0,
        VirtualKeyCode::WebForward => 0,
        VirtualKeyCode::WebHome => 0,
        VirtualKeyCode::WebRefresh => 0,
        VirtualKeyCode::WebSearch => 0,
        VirtualKeyCode::WebStop => 0,
        VirtualKeyCode::Yen => 0,
        VirtualKeyCode::Copy => 0,
        VirtualKeyCode::Paste => 0,
        VirtualKeyCode::Cut => 0,
    }
}

/// Translates a key into the code handed to a script's keyboard callback.
pub fn from_winit_keycode_to_js(keycode: VirtualKeyCode) -> (code: u32)
    ensures
        code == js_key_code(keycode),
{
    match keycode {
            VirtualKeyCode::Key1 => 49,
            VirtualKeyCode::Key2 => 50,
            VirtualKeyCode::Key3 => 51,
            VirtualKeyCode::Key4 => 52,
            VirtualKeyCode::Key5 => 53,
            VirtualKeyCode::Key6 => 54,
            VirtualKeyCode::Key7 => 55,
            VirtualKeyCode::Key8 => 56,
            VirtualKeyCode::Key9 => 57,
            VirtualKeyCode::Key0 => 48,
            VirtualKeyCode::A => 65,
            VirtualKeyCode::B => 66,
            VirtualKeyCode::C => 67,
            VirtualKeyCode::D => 68,
            VirtualKeyCode::E => 69,
            VirtualKeyCode::F => 70,
            VirtualKeyCode::G => 71,
            VirtualKeyCode::H => 72,
            VirtualKeyCode::I => 73,
            VirtualKeyCode::J => 74,
            VirtualKeyCode::K => 75,
            VirtualKeyCode::L => 76,
            VirtualKeyCode::M => 77,
            VirtualKeyCode::N => 78,
            VirtualKeyCode::O => 79,
            VirtualKeyCode::P => 80,
            VirtualKeyCode::Q => 81,
            VirtualKeyCode::R => 82,
            VirtualKeyCode::S => 83,
            VirtualKeyCode::T => 84,
            VirtualKeyCode::U => 85,
            VirtualKeyCode::V => 86,
            VirtualKeyCode::W => 87,
            VirtualKeyCode::X => 88,
            VirtualKeyCode::Y => 89,
            VirtualKeyCode::Z => 90,
            VirtualKeyCode::Escape => 27,
            VirtualKeyCode::F1 => 112,
            VirtualKeyCode::F2 => 113,
            VirtualKeyCode::F3 => 114,
            VirtualKeyCode::F4 => 115,
            VirtualKeyCode::F5 => 116,
            VirtualKeyCode::F6 => 117,
            VirtualKeyCode::F7 => 118,
            VirtualKeyCode::F8 => 119,
            VirtualKeyCode::F9 => 120,
            VirtualKeyCode::F10 => 121,
            VirtualKeyCode::F11 => 122,
            VirtualKeyCode::F12 => 123,
            VirtualKeyCode::F13 => 0,
            VirtualKeyCode::F14 => 0,
            VirtualKeyCode::F15 => 0,
            VirtualKeyCode::F16 => 0,
            VirtualKeyCode::F17 => 0,
            VirtualKeyCode::F18 => 0,
            VirtualKeyCode::F19 => 0,
            VirtualKeyCode::F20 => 0,
            VirtualKeyCode::F21 => 0,
            VirtualKeyCode::F22 => 0,
            VirtualKeyCode::F23 => 0,
            VirtualKeyCode::F24 => 0,
            VirtualKeyCode::Snapshot => 0,
            VirtualKeyCode::Scroll => 0,
            VirtualKeyCode::Pause => 19,
            VirtualKeyCode::Insert => 45,
            VirtualKeyCode::Home => 36,
            VirtualKeyCode::Delete => 46,
            VirtualKeyCode::End => 35,
            VirtualKeyCode::PageDown => 34,
            VirtualKeyCode::PageUp => 35,
            VirtualKeyCode::Left => 37,
            VirtualKeyCode::Up => 38,
            VirtualKeyCode::Right => 39,
            VirtualKeyCode::Down => 40,
            VirtualKeyCode::Back => 8,
            VirtualKeyCode::Return => 13,
            VirtualKeyCode::Space => 32,
            VirtualKeyCode::Compose => 0,
            VirtualKeyCode::Caret => 0,
            VirtualKeyCode::Numlock => 144,
            VirtualKeyCode::Numpad0 => 96,
            VirtualKeyCode::Numpad1 => 97,
            VirtualKeyCode::Numpad2 => 98,
            VirtualKeyCode::Numpad3 => 99,
            VirtualKeyCode::Numpad4 => 100,
            VirtualKeyCode::Numpad5 => 101,
            VirtualKeyCode::Numpad6 => 102,
            VirtualKeyCode::Numpad7 => 103,
            VirtualKeyCode::Numpad8 => 104,
            VirtualKeyCode::Numpad9 => 105,
            VirtualKeyCode::NumpadAdd => 107,
            VirtualKeyCode::NumpadDivide => 111,
            VirtualKeyCode::NumpadDecimal => 110,
            VirtualKeyCode::NumpadComma => 188,
            VirtualKeyCode::NumpadEnter => 0,
            VirtualKeyCode::NumpadEquals => 187,
            VirtualKeyCode::NumpadMultiply => 106,
            VirtualKeyCode::NumpadSubtract => 109,
            VirtualKeyCode::AbntC1 => 0,
            VirtualKeyCode::AbntC2 => 0,
            VirtualKeyCode::Apostrophe => 222,
            VirtualKeyCode::Apps => 0,
            VirtualKeyCode::Asterisk => 0,
            VirtualKeyCode::At => 0,
            VirtualKeyCode::Ax => 0,
            VirtualKeyCode::Backslash => 220,
            VirtualKeyCode::Calculator => 0,
            VirtualKeyCode::Capital => 0,
            VirtualKeyCode::Colon => 0,
            VirtualKeyCode::Comma => 188,
            VirtualKeyCode::Convert => 0,
            VirtualKeyCode::Equals => 187,
            VirtualKeyCode::Grave => 0,
            VirtualKeyCode::Kana => 0,
            VirtualKeyCode::Kanji => 0,
            VirtualKeyCode::LAlt => 18,
            VirtualKeyCode::LBracket => 0,
            VirtualKeyCode::LControl => 17,
            VirtualKeyCode::LShift => 16,
            VirtualKeyCode::LWin => 0,
            VirtualKeyCode::Mail => 0,
            VirtualKeyCode::MediaSelect => 0,
            VirtualKeyCode::MediaStop => 0,
            VirtualKeyCode::Minus => 0,
            VirtualKeyCode::Mute => 0,
            VirtualKeyCode::MyComputer => 0,
            VirtualKeyCode::NavigateForward => 0,
            VirtualKeyCode::NavigateBackward => 0,
            VirtualKeyCode::NextTrack => 0,
            VirtualKeyCode::NoConvert => 0,
            VirtualKeyCode::OEM102 => 0,
            VirtualKeyCode::Period => 0,
            VirtualKeyCode::PlayPause => 0,
            VirtualKeyCode::Plus => 0,
            VirtualKeyCode::Power => 0,
            VirtualKeyCode::PrevTrack => 0,
            VirtualKeyCode::RAlt => 18,
            VirtualKeyCode::RBracket => 0,
            VirtualKeyCode::RControl => 17,
            VirtualKeyCode::RShift => 16,
            VirtualKeyCode::RWin => 0,
            VirtualKeyCode::Semicolon => 186,
            VirtualKeyCode::Slash => 191,
            VirtualKeyCode::Sleep => 0,
            VirtualKeyCode::Stop => 0,
            VirtualKeyCode::Sysrq => 0,
            VirtualKeyCode::Tab => 9,
            VirtualKeyCode::Underline => 0,
            VirtualKeyCode::Unlabeled => 0,
            VirtualKeyCode::VolumeDown => 0,
            VirtualKeyCode::VolumeUp => 0,
            VirtualKeyCode::Wake => 0,
            VirtualKeyCode::WebBack => 0,
            VirtualKeyCode::WebFavorites => 0,
            VirtualKeyCode::WebForward => 0,
            VirtualKeyCode::WebHome => 0,
            VirtualKeyCode::WebRefresh => 0,
            VirtualKeyCode::WebSearch => 0,
            VirtualKeyCode::WebStop => 0,
            VirtualKeyCode::Yen => 0,
            VirtualKeyCode::Copy => 0,
            VirtualKeyCode::Paste => 0,
            VirtualKeyCode::Cut => 0,
    }
}

/// The key that a nonzero script key code stands for: for a code that two keys share,
/// the left modifier, End, or the main keyboard's comma and equals key.
pub open spec fn key_for_js_code(code: u32) -> VirtualKeyCode {
    match code {
        49 => VirtualKeyCode::Key1,
        50 => VirtualKeyCode::Key2,
        51 => VirtualKeyCode::Key3,
        52 => VirtualKeyCode::Key4,
        53 => VirtualKeyCode::Key5,
        54 => VirtualKeyCode::Key6,
        55 => VirtualKeyCode::Key7,
        56 => VirtualKeyCode::Key8,
        57 => VirtualKeyCode::Key9,
        48 => VirtualKeyCode::Key0,
        65 => VirtualKeyCode::A,
        66 => VirtualKeyCode::B,
        67 => VirtualKeyCode::C,
        68 => VirtualKeyCode::D,
        69 => VirtualKeyCode::E,
        70 => VirtualKeyCode::F,
        71 => VirtualKeyCode::G,
        72 => VirtualKeyCode::H,
        73 => VirtualKeyCode::I,
        74 => VirtualKeyCode::J,
        75 => VirtualKeyCode::K,
        76 => VirtualKeyCode::L,
        77 => VirtualKeyCode::M,
        78 => VirtualKeyCode::N,
        79 => VirtualKeyCode::O,
        80 => VirtualKeyCode::P,
        81 => VirtualKeyCode::Q,
        82 => VirtualKeyCode::R,
        83 => VirtualKeyCode::S,
        84 => VirtualKeyCode::T,
        85 => VirtualKeyCode::U,
        86 => VirtualKeyCode::V,
        87 => VirtualKeyCode::W,
        88 => VirtualKeyCode::X,
        89 => VirtualKeyCode::Y,
        90 => VirtualKeyCode::Z,
        27 => VirtualKeyCode::Escape,
        112 => VirtualKeyCode::F1,
        113 => VirtualKeyCode::F2,
        114 => VirtualKeyCode::F3,
        115 => VirtualKeyCode::F4,
        116 => VirtualKeyCode::F5,
        117 => VirtualKeyCode::F6,
        118 => VirtualKeyCode::F7,
        119 => VirtualKeyCode::F8,
        120 => VirtualKeyCode::F9,
        121 => VirtualKeyCode::F10,
        122 => VirtualKeyCode::F11,
        123 => VirtualKeyCode::F12,
        19 => VirtualKeyCode::Pause,
        45 => VirtualKeyCode::Insert,
        36 => VirtualKeyCode::Home,
        46 => VirtualKeyCode::Delete,
        35 => VirtualKeyCode::End,
        34 => VirtualKeyCode::PageDown,
        37 => VirtualKeyCode::Left,
        38 => VirtualKeyCode::Up,
        39 => VirtualKeyCode::Right,
        40 => VirtualKeyCode::Down,
        8 => VirtualKeyCode::Back,
        13 => VirtualKeyCode::Return,
        32 => VirtualKeyCode::Space,
        144 => VirtualKeyCode::Numlock,
        96 => VirtualKeyCode::Numpad0,
        97 => VirtualKeyCode::Numpad1,
        98 => VirtualKeyCode::Numpad2,
        99 => VirtualKeyCode::Numpad3,
        100 => VirtualKeyCode::Numpad4,
        101 => VirtualKeyCode::Numpad5,
        102 => VirtualKeyCode::Numpad6,
        103 => VirtualKeyCode::Numpad7,
        104 => VirtualKeyCode::Numpad8,
        105 => VirtualKeyCode::Numpad9,
        107 => VirtualKeyCode::NumpadAdd,
        111 => VirtualKeyCode::NumpadDivide,
        110 => VirtualKeyCode::NumpadDecimal,
        106 => VirtualKeyCode::NumpadMultiply,
        109 => VirtualKeyCode::NumpadSubtract,
        222 => VirtualKeyCode::Apostrophe,
        220 => VirtualKeyCode::Backslash,
        188 => VirtualKeyCode::Comma,
        187 => VirtualKeyCode::Equals,
        18 => VirtualKeyCode::LAlt,
        17 => VirtualKeyCode::LControl,
        16 => VirtualKeyCode::LShift,
        186 => VirtualKeyCode::Semicolon,
        191 => VirtualKeyCode::Slash,
        9 => VirtualKeyCode::Tab,
        _ => VirtualKeyCode::Unlabeled,
    }
}

/// The keys that share their script code with another key: the right modifiers
/// (with the left ones), PageUp (with End) and the numpad comma and equals keys (with
/// the main keyboard's).
pub open spec fn shares_js_code(keycode: VirtualKeyCode) -> bool {
    ||| keycode == VirtualKeyCode::RShift
    ||| keycode == VirtualKeyCode::RControl
    ||| keycode == VirtualKeyCode::RAlt
    ||| keycode == VirtualKeyCode::PageUp
    ||| keycode == VirtualKeyCode::NumpadComma
    ||| keycode == VirtualKeyCode::NumpadEquals
}

/// A key's code leads back to the key: every key with a nonzero code that shares it
/// with no other key is the key that code stands for.
pub proof fn js_key_code_leads_back(keycode: VirtualKeyCode)
    ensures
        js_key_code(keycode) != 0 && !shares_js_code(keycode) ==> key_for_js_code(
            js_key_code(keycode),
        ) == keycode,
{
}

/// Every code that stands for a key is that key's code, so no key loses its code.
pub proof fn js_code_names_its_key(code: u32)
    ensures
        key_for_js_code(code) != VirtualKeyCode::Unlabeled ==> js_key_code(key_for_js_code(code))
            == code,
{
}

/// The keys that share a code share it with their partner: right modifiers with the
/// left ones, PageUp with End, the numpad comma and equals keys with the main ones.
pub proof fn js_key_code_shared_with_partner()
    ensures
        js_key_code(VirtualKeyCode::RShift) == js_key_code(VirtualKeyCode::LShift),
        js_key_code(VirtualKeyCode::RControl) == js_key_code(VirtualKeyCode::LControl),
        js_key_code(VirtualKeyCode::RAlt) == js_key_code(VirtualKeyCode::LAlt),
        js_key_code(VirtualKeyCode::PageUp) == js_key_code(VirtualKeyCode::End),
        js_key_code(VirtualKeyCode::NumpadComma) == js_key_code(VirtualKeyCode::Comma),
        js_key_code(VirtualKeyCode::NumpadEquals) == js_key_code(VirtualKeyCode::Equals),
{
}

/// Distinct keys get distinct codes, except keys without a code and the keys that
/// share theirs on purpose.
pub proof fn js_key_code_distinct(a: VirtualKeyCode, b: VirtualKeyCode)
    requires
        a != b,
        js_key_code(a) != 0,
        !shares_js_code(a),
        !shares_js_code(b),
    ensures
        js_key_code(a) != js_key_code(b),
{
    js_key_code_leads_back(a);
    js_key_code_leads_back(b);
}

/// The arrow keys get the browser codes 37 to 40 in the order Left, Up, Right, Down.
pub proof fn js_key_code_arrows()
    ensures
        js_key_code(VirtualKeyCode::Left) == 37,
        js_key_code(VirtualKeyCode::Up) == js_key_code(VirtualKeyCode::Left) + 1,
        js_key_code(VirtualKeyCode::Right) == js_key_code(VirtualKeyCode::Up) + 1,
        js_key_code(VirtualKeyCode::Down) == js_key_code(VirtualKeyCode::Right) + 1,
{
}

/// Every key code handed to scripts lies in `0..=222`.
pub proof fn js_key_code_bounded(keycode: VirtualKeyCode)
    ensures
        js_key_code(keycode) <= 222,
{
}

/// The left and right variants of Shift, Control and Alt give scripts the same code.
pub proof fn js_key_code_modifier_sides_agree()
    ensures
        js_key_code(VirtualKeyCode::LShift) == js_key_code(VirtualKeyCode::RShift),
        js_key_code(VirtualKeyCode::LControl) == js_key_code(VirtualKeyCode::RControl),
        js_key_code(VirtualKeyCode::LAlt) == js_key_code(VirtualKeyCode::RAlt),
{
}

} // verus!
