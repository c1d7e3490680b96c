use vstd::prelude::*;

verus! {

/// A key or button code of the game's input system. The associated
/// constants name the codes; `InputSystem(InputSystem::KEY_A)` is the A key.
#[derive(Clone, Copy, Debug, PartialEq, Eq, Structural)]
pub struct InputSystem(pub u8);

#[allow(non_upper_case_globals)]
impl InputSystem {
    pub const KEY_NONE: u8 = 0;
    pub const KEY_0: u8 = 0;
    pub const KEY_1: u8 = 1;
    pub const KEY_2: u8 = 2;
    pub const KEY_3: u8 = 3;
    pub const KEY_4: u8 = 4;
    pub const KEY_5: u8 = 5;
    pub const KEY_6: u8 = 6;
    pub const KEY_7: u8 = 7;
    pub const KEY_8: u8 = 8;
    pub const KEY_9: u8 = 9;
    pub const KEY_A: u8 = 10;
    pub const KEY_B: u8 = 11;
    pub const KEY_C: u8 = 12;
    pub const KEY_D: u8 = 13;
    pub const KEY_E: u8 = 14;
    pub const KEY_F: u8 = 15;
    pub const KEY_G: u8 = 16;
    pub const KEY_H: u8 = 17;
    pub const KEY_I: u8 = 18;
    pub const KEY_J: u8 = 19;
    pub const KEY_K: u8 = 20;
    pub const KEY_L: u8 = 21;
    pub const KEY_M: u8 = 22;
    pub const KEY_N: u8 = 23;
    pub const KEY_O: u8 = 24;
    pub const KEY_P: u8 = 25;
    pub const KEY_Q: u8 = 26;
    pub const KEY_R: u8 = 27;
    pub const KEY_S: u8 = 28;
    pub const KEY_T: u8 = 29;
    pub const KEY_U: u8 = 30;
    pub const KEY_V: u8 = 31;
    pub const KEY_W: u8 = 32;
    pub const KEY_X: u8 = 33;
    pub const KEY_Y: u8 = 34;
    pub const KEY_Z: u8 = 35;
    pub const KEY_PAD_0: u8 = 36;
    pub const KEY_PAD_1: u8 = 37;
    pub const KEY_PAD_2: u8 = 38;
    pub const KEY_PAD_3: u8 = 39;
    pub const KEY_PAD_4: u8 = 40;
    pub const KEY_PAD_5: u8 = 41;
    pub const KEY_PAD_6: u8 = 42;
    pub const KEY_PAD_7: u8 = 43;
    pub const KEY_PAD_8: u8 = 44;
    pub const KEY_PAD_9: u8 = 45;
    pub const KEY_PAD_DIVIDE: u8 = 46;
    pub const KEY_PAD_MULTIPLY: u8 = 47;
    pub const KEY_PAD_MINUS: u8 = 48;
    pub const KEY_PAD_PLUS: u8 = 49;
    pub const KEY_PAD_ENTER: u8 = 50;
    pub const KEY_PAD_DECIMAL: u8 = 51;
    pub const KEY_LBRACKET: u8 = 52;
    pub const KEY_RBRACKET: u8 = 53;
    pub const KEY_SEMICOLON: u8 = 54;
    pub const KEY_APOSTROPHE: u8 = 55;
    pub const KEY_BACKQUOTE: u8 = 56;
    pub const KEY_COMMA: u8 = 57;
    pub const KEY_PERIOD: u8 = 58;
    pub const KEY_SLASH: u8 = 59;
    pub const KEY_BACKSLASH: u8 = 60;
    pub const KEY_MINUS: u8 = 61;
    pub const KEY_EQUAL: u8 = 62;
    pub const KEY_ENTER: u8 = 63;
    pub const KEY_SPACE: u8 = 64;
    pub const KEY_BACKSPACE: u8 = 65;
    pub const KEY_TAB: u8 = 66;
    pub const KEY_CAPSLOCK: u8 = 67;
    pub const KEY_NUMLOCK: u8 = 68;
    pub const KEY_ESCAPE: u8 = 69;
    pub const KEY_SCROLLLOCK: u8 = 70;
    pub const KEY_INSERT: u8 = 71;
    pub const KEY_DELETE: u8 = 72;
    pub const KEY_HOME: u8 = 73;
    pub const KEY_END: u8 = 74;
    pub const KEY_PAGEUP: u8 = 75;
    pub const KEY_PAGEDOWN: u8 = 76;
    pub const KEY_BREAK: u8 = 77;
    pub const KEY_LSHIFT: u8 = 78;
    pub const KEY_RSHIFT: u8 = 79;
    pub const KEY_LALT: u8 = 80;
    pub const KEY_RALT: u8 = 81;
    pub const KEY_LCONTROL: u8 = 82;
    pub const KEY_RCONTROL: u8 = 83;
    pub const KEY_LWIN: u8 = 84;
    pub const KEY_RWIN: u8 = 85;
    pub const KEY_APP: u8 = 86;
    pub const KEY_UP: u8 = 87;
    pub const KEY_LEFT: u8 = 88;
    pub const KEY_DOWN: u8 = 89;
    pub const KEY_RIGHT: u8 = 90;
    pub const KEY_F1: u8 = 91;
    pub const KEY_F2: u8 = 92;
    pub const KEY_F3: u8 = 93;
    pub const KEY_F4: u8 = 94;
    pub const KEY_F5: u8 = 95;
    pub const KEY_F6: u8 = 96;
    pub const KEY_F7: u8 = 97;
    pub const KEY_F8: u8 = 98;
    pub const KEY_F9: u8 = 99;
    pub const KEY_F10: u8 = 100;
    pub const KEY_F11: u8 = 101;
    pub const KEY_F12: u8 = 102;
    pub const KEY_CAPSLOCKTOGGLE: u8 = 103;
    pub const KEY_NUMLOCKTOGGLE: u8 = 104;
    pub const MOUSE_LEFT: u8 = 107;
    pub const MOUSE_RIGHT: u8 = 108;
    pub const MOUSE_MIDDLE: u8 = 109;
    pub const MOUSE_4: u8 = 110;
    pub const MOUSE_5: u8 = 111;
    pub const KEY_XBUTTON_UP: u8 = 242;
    pub const KEY_XBUTTON_RIGHT: u8 = 243;
    pub const KEY_XBUTTON_DOWN: u8 = 244;
    pub const KEY_XBUTTON_LEFT: u8 = 245;
    pub const KEY_XBUTTON_A: u8 = 114;
    pub const KEY_XBUTTON_B: u8 = 115;
    pub const KEY_XBUTTON_X: u8 = 116;
    pub const KEY_XBUTTON_Y: u8 = 117;
    pub const KEY_XBUTTON_LEFT_SHOULDER: u8 = 118;
    pub const KEY_XBUTTON_RIGHT_SHOULDER: u8 = 119;
    pub const KEY_XBUTTON_BACK: u8 = 120;
    pub const KEY_XBUTTON_START: u8 = 121;
    pub const KEY_XBUTTON_STICK1: u8 = 122;
    pub const KEY_XBUTTON_STICK2: u8 = 123;
    pub const KEY_XBUTTON_LTRIGGER: u8 = 125;
    pub const KEY_XBUTTON_RTRIGGER: u8 = 126;
}

} // verus!
