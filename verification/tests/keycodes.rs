use horizon::components::scriptingcallback::{from_winit_keycode_to_js, VirtualKeyCode};

#[test]
fn letters_map_to_ascii_uppercase() {
    let letters = [
        VirtualKeyCode::A, VirtualKeyCode::B, VirtualKeyCode::C, VirtualKeyCode::D,
        VirtualKeyCode::E, VirtualKeyCode::F, VirtualKeyCode::G, VirtualKeyCode::H,
        VirtualKeyCode::I, VirtualKeyCode::J, VirtualKeyCode::K, VirtualKeyCode::L,
        VirtualKeyCode::M, VirtualKeyCode::N, VirtualKeyCode::O, VirtualKeyCode::P,
        VirtualKeyCode::Q, VirtualKeyCode::R, VirtualKeyCode::S, VirtualKeyCode::T,
        VirtualKeyCode::U, VirtualKeyCode::V, VirtualKeyCode::W, VirtualKeyCode::X,
        VirtualKeyCode::Y, VirtualKeyCode::Z,
    ];
    for (i, key) in letters.iter().enumerate() {
        assert_eq!(from_winit_keycode_to_js(*key), 65 + i as u32);
    }
}

#[test]
fn digits_map_to_ascii_digits() {
    let digits = [
        VirtualKeyCode::Key0, VirtualKeyCode::Key1, VirtualKeyCode::Key2, VirtualKeyCode::Key3,
        VirtualKeyCode::Key4, VirtualKeyCode::Key5, VirtualKeyCode::Key6, VirtualKeyCode::Key7,
        VirtualKeyCode::Key8, VirtualKeyCode::Key9,
    ];
    for (i, key) in digits.iter().enumerate() {
        assert_eq!(from_winit_keycode_to_js(*key), 48 + i as u32);
    }
}

#[test]
fn function_keys_and_numpad() {
    assert_eq!(from_winit_keycode_to_js(VirtualKeyCode::F1), 112);
    assert_eq!(from_winit_keycode_to_js(VirtualKeyCode::F12), 123);
    assert_eq!(from_winit_keycode_to_js(VirtualKeyCode::F13), 0);
    assert_eq!(from_winit_keycode_to_js(VirtualKeyCode::Numpad0), 96);
    assert_eq!(from_winit_keycode_to_js(VirtualKeyCode::Numpad9), 105);
    assert_eq!(from_winit_keycode_to_js(VirtualKeyCode::NumpadAdd), 107);
}

#[test]
fn navigation_and_control_keys() {
    assert_eq!(from_winit_keycode_to_js(VirtualKeyCode::Escape), 27);
    assert_eq!(from_winit_keycode_to_js(VirtualKeyCode::Return), 13);
    assert_eq!(from_winit_keycode_to_js(VirtualKeyCode::Space), 32);
    assert_eq!(from_winit_keycode_to_js(VirtualKeyCode::Back), 8);
    assert_eq!(from_winit_keycode_to_js(VirtualKeyCode::Tab), 9);
    assert_eq!(from_winit_keycode_to_js(VirtualKeyCode::Left), 37);
    assert_eq!(from_winit_keycode_to_js(VirtualKeyCode::Down), 40);
    assert_eq!(from_winit_keycode_to_js(VirtualKeyCode::End), 35);
    assert_eq!(from_winit_keycode_to_js(VirtualKeyCode::PageUp), 35);
    assert_eq!(from_winit_keycode_to_js(VirtualKeyCode::PageDown), 34);
    assert_eq!(from_winit_keycode_to_js(VirtualKeyCode::Apostrophe), 222);
}

#[test]
fn modifier_sides_share_codes() {
    assert_eq!(from_winit_keycode_to_js(VirtualKeyCode::LShift), 16);
    assert_eq!(from_winit_keycode_to_js(VirtualKeyCode::RShift), 16);
    assert_eq!(from_winit_keycode_to_js(VirtualKeyCode::LControl), 17);
    assert_eq!(from_winit_keycode_to_js(VirtualKeyCode::RControl), 17);
    assert_eq!(from_winit_keycode_to_js(VirtualKeyCode::LAlt), 18);
    assert_eq!(from_winit_keycode_to_js(VirtualKeyCode::RAlt), 18);
}

#[test]
fn keys_without_a_code_give_zero() {
    assert_eq!(from_winit_keycode_to_js(VirtualKeyCode::Mute), 0);
    assert_eq!(from_winit_keycode_to_js(VirtualKeyCode::Cut), 0);
    assert_eq!(from_winit_keycode_to_js(VirtualKeyCode::LWin), 0);
}
