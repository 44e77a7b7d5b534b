use vstd::prelude::*;

verus! {

/// A keyboard key, by its SDL key code.
#[allow(non_camel_case_types)]
#[derive(Clone, Copy, Debug, PartialEq, Eq, Structural, Hash)]
pub enum KeyCode {
    SDLK_UNKNOWN,
    SDLK_RETURN,
    SDLK_ESCAPE,
    SDLK_BACKSPACE,
    SDLK_TAB,
    SDLK_SPACE,
    SDLK_EXCLAIM,
    SDLK_QUOTEDBL,
    SDLK_HASH,
    SDLK_PERCENT,
    SDLK_DOLLAR,
    SDLK_AMPERSAND,
    SDLK_QUOTE,
    SDLK_LEFTPAREN,
    SDLK_RIGHTPAREN,
    SDLK_ASTERISK,
    SDLK_PLUS,
    SDLK_COMMA,
    SDLK_MINUS,
    SDLK_PERIOD,
    SDLK_SLASH,
    SDLK_0,
    SDLK_1,
    SDLK_2,
    SDLK_3,
    SDLK_4,
    SDLK_5,
    SDLK_6,
    SDLK_7,
    SDLK_8,
    SDLK_9,
    SDLK_COLON,
    SDLK_SEMICOLON,
    SDLK_LESS,
    SDLK_EQUALS,
    SDLK_GREATER,
    SDLK_QUESTION,
    SDLK_AT,
    SDLK_LEFTBRACKET,
    SDLK_BACKSLASH,
    SDLK_RIGHTBRACKET,
    SDLK_CARET,
    SDLK_UNDERSCORE,
    SDLK_BACKQUOTE,
    SDLK_a,
    SDLK_b,
    SDLK_c,
    SDLK_d,
    SDLK_e,
    SDLK_f,
    SDLK_g,
    SDLK_h,
    SDLK_i,
    SDLK_j,
    SDLK_k,
    SDLK_l,
    SDLK_m,
    SDLK_n,
    SDLK_o,
    SDLK_p,
    SDLK_q,
    SDLK_r,
    SDLK_s,
    SDLK_t,
    SDLK_u,
    SDLK_v,
    SDLK_w,
    SDLK_x,
    SDLK_y,
    SDLK_z,
    SDLK_CAPSLOCK,
    SDLK_F1,
    SDLK_F2,
    SDLK_F3,
    SDLK_F4,
    SDLK_F5,
    SDLK_F6,
    SDLK_F7,
    SDLK_F8,
    SDLK_F9,
    SDLK_F10,
    SDLK_F11,
    SDLK_F12,
    SDLK_PRINTSCREEN,
    SDLK_SCROLLLOCK,
    SDLK_PAUSE,
    SDLK_INSERT,
    SDLK_HOME,
    SDLK_PAGEUP,
    SDLK_DELETE,
    SDLK_END,
    SDLK_PAGEDOWN,
    SDLK_RIGHT,
    SDLK_LEFT,
    SDLK_DOWN,
    SDLK_UP,
    SDLK_NUMLOCKCLEAR,
    SDLK_KP_DIVIDE,
    SDLK_KP_MULTIPLY,
    SDLK_KP_MINUS,
    SDLK_KP_PLUS,
    SDLK_KP_ENTER,
    SDLK_KP_1,
    SDLK_KP_2,
    SDLK_KP_3,
    SDLK_KP_4,
    SDLK_KP_5,
    SDLK_KP_6,
    SDLK_KP_7,
    SDLK_KP_8,
    SDLK_KP_9,
    SDLK_KP_0,
    SDLK_KP_PERIOD,
    SDLK_APPLICATION,
    SDLK_POWER,
    SDLK_KP_EQUALS,
    SDLK_F13,
    SDLK_F14,
    SDLK_F15,
    SDLK_F16,
    SDLK_F17,
    SDLK_F18,
    SDLK_F19,
    SDLK_F20,
    SDLK_F21,
    SDLK_F22,
    SDLK_F23,
    SDLK_F24,
    SDLK_EXECUTE,
    SDLK_HELP,
    SDLK_MENU,
    SDLK_SELECT,
    SDLK_STOP,
    SDLK_AGAIN,
    SDLK_UNDO,
    SDLK_CUT,
    SDLK_COPY,
    SDLK_PASTE,
    SDLK_FIND,
    SDLK_MUTE,
    SDLK_VOLUMEUP,
    SDLK_VOLUMEDOWN,
    SDLK_KP_COMMA,
    SDLK_KP_EQUALSAS400,
    SDLK_ALTERASE,
    SDLK_SYSREQ,
    SDLK_CANCEL,
    SDLK_CLEAR,
    SDLK_PRIOR,
    SDLK_RETURN2,
    SDLK_SEPARATOR,
    SDLK_OUT,
    SDLK_OPER,
    SDLK_CLEARAGAIN,
    SDLK_CRSEL,
    SDLK_EXSEL,
    SDLK_KP_00,
    SDLK_KP_000,
    SDLK_THOUSANDSSEPARATOR,
    SDLK_DECIMALSEPARATOR,
    SDLK_CURRENCYUNIT,
    SDLK_CURRENCYSUBUNIT,
    SDLK_KP_LEFTPAREN,
    SDLK_KP_RIGHTPAREN,
    SDLK_KP_LEFTBRACE,
    SDLK_KP_RIGHTBRACE,
    SDLK_KP_TAB,
    SDLK_KP_BACKSPACE,
    SDLK_KP_A,
    SDLK_KP_B,
    SDLK_KP_C,
    SDLK_KP_D,
    SDLK_KP_E,
    SDLK_KP_F,
    SDLK_KP_XOR,
    SDLK_KP_POWER,
    SDLK_KP_PERCENT,
    SDLK_KP_LESS,
    SDLK_KP_GREATER,
    SDLK_KP_AMPERSAND,
    SDLK_KP_DBLAMPERSAND,
    SDLK_KP_VERTICALBAR,
    SDLK_KP_DBLVERTICALBAR,
    SDLK_KP_COLON,
    SDLK_KP_HASH,
    SDLK_KP_SPACE,
    SDLK_KP_AT,
    SDLK_KP_EXCLAM,
    SDLK_KP_MEMSTORE,
    SDLK_KP_MEMRECALL,
    SDLK_KP_MEMCLEAR,
    SDLK_KP_MEMADD,
    SDLK_KP_MEMSUBTRACT,
    SDLK_KP_MEMMULTIPLY,
    SDLK_KP_MEMDIVIDE,
    SDLK_KP_PLUSMINUS,
    SDLK_KP_CLEAR,
    SDLK_KP_CLEARENTRY,
    SDLK_KP_BINARY,
    SDLK_KP_OCTAL,
    SDLK_KP_DECIMAL,
    SDLK_KP_HEXADECIMAL,
    SDLK_LCTRL,
    SDLK_LSHIFT,
    SDLK_LALT,
    SDLK_LGUI,
    SDLK_RCTRL,
    SDLK_RSHIFT,
    SDLK_RALT,
    SDLK_RGUI,
    SDLK_MODE,
    SDLK_AUDIONEXT,
    SDLK_AUDIOPREV,
    SDLK_AUDIOSTOP,
    SDLK_AUDIOPLAY,
    SDLK_AUDIOMUTE,
    SDLK_MEDIASELECT,
    SDLK_WWW,
    SDLK_MAIL,
    SDLK_CALCULATOR,
    SDLK_COMPUTER,
    SDLK_AC_SEARCH,
    SDLK_AC_HOME,
    SDLK_AC_BACK,
    SDLK_AC_FORWARD,
    SDLK_AC_STOP,
    SDLK_AC_REFRESH,
    SDLK_AC_BOOKMARKS,
    SDLK_BRIGHTNESSDOWN,
    SDLK_BRIGHTNESSUP,
    SDLK_DISPLAYSWITCH,
    SDLK_KBDILLUMTOGGLE,
    SDLK_KBDILLUMDOWN,
    SDLK_KBDILLUMUP,
    SDLK_EJECT,
    SDLK_SLEEP,
    SDLK_APP1,
    SDLK_APP2,
    SDLK_AUDIOREWIND,
    SDLK_AUDIOFASTFORWARD,
}

/// The SDL key code of a key.
pub open spec fn key_code(k: KeyCode) -> u32 {
    match k {
        KeyCode::SDLK_UNKNOWN => 0,
        KeyCode::SDLK_RETURN => 13,
        KeyCode::SDLK_ESCAPE => 27,
        KeyCode::SDLK_BACKSPACE => 8,
        KeyCode::SDLK_TAB => 9,
        KeyCode::SDLK_SPACE => 32,
        KeyCode::SDLK_EXCLAIM => 33,
        KeyCode::SDLK_QUOTEDBL => 34,
        KeyCode::SDLK_HASH => 35,
        KeyCode::SDLK_PERCENT => 37,
        KeyCode::SDLK_DOLLAR => 36,
        KeyCode::SDLK_AMPERSAND => 38,
        KeyCode::SDLK_QUOTE => 39,
        KeyCode::SDLK_LEFTPAREN => 40,
        KeyCode::SDLK_RIGHTPAREN => 41,
        KeyCode::SDLK_ASTERISK => 42,
        KeyCode::SDLK_PLUS => 43,
        KeyCode::SDLK_COMMA => 44,
        KeyCode::SDLK_MINUS => 45,
        KeyCode::SDLK_PERIOD => 46,
        KeyCode::SDLK_SLASH => 47,
        KeyCode::SDLK_0 => 48,
        KeyCode::SDLK_1 => 49,
        KeyCode::SDLK_2 => 50,
        KeyCode::SDLK_3 => 51,
        KeyCode::SDLK_4 => 52,
        KeyCode::SDLK_5 => 53,
        KeyCode::SDLK_6 => 54,
        KeyCode::SDLK_7 => 55,
        KeyCode::SDLK_8 => 56,
        KeyCode::SDLK_9 => 57,
        KeyCode::SDLK_COLON => 58,
        KeyCode::SDLK_SEMICOLON => 59,
        KeyCode::SDLK_LESS => 60,
        KeyCode::SDLK_EQUALS => 61,
        KeyCode::SDLK_GREATER => 62,
        KeyCode::SDLK_QUESTION => 63,
        KeyCode::SDLK_AT => 64,
        KeyCode::SDLK_LEFTBRACKET => 91,
        KeyCode::SDLK_BACKSLASH => 92,
        KeyCode::SDLK_RIGHTBRACKET => 93,
        KeyCode::SDLK_CARET => 94,
        KeyCode::SDLK_UNDERSCORE => 95,
        KeyCode::SDLK_BACKQUOTE => 96,
        KeyCode::SDLK_a => 97,
        KeyCode::SDLK_b => 98,
        KeyCode::SDLK_c => 99,
        KeyCode::SDLK_d => 100,
        KeyCode::SDLK_e => 101,
        KeyCode::SDLK_f => 102,
        KeyCode::SDLK_g => 103,
        KeyCode::SDLK_h => 104,
        KeyCode::SDLK_i => 105,
        KeyCode::SDLK_j => 106,
        KeyCode::SDLK_k => 107,
        KeyCode::SDLK_l => 108,
        KeyCode::SDLK_m => 109,
        KeyCode::SDLK_n => 110,
        KeyCode::SDLK_o => 111,
        KeyCode::SDLK_p => 112,
        KeyCode::SDLK_q => 113,
        KeyCode::SDLK_r => 114,
        KeyCode::SDLK_s => 115,
        KeyCode::SDLK_t => 116,
        KeyCode::SDLK_u => 117,
        KeyCode::SDLK_v => 118,
        KeyCode::SDLK_w => 119,
        KeyCode::SDLK_x => 120,
        KeyCode::SDLK_y => 121,
        KeyCode::SDLK_z => 122,
        KeyCode::SDLK_CAPSLOCK => 1073741881,
        KeyCode::SDLK_F1 => 1073741882,
        KeyCode::SDLK_F2 => 1073741883,
        KeyCode::SDLK_F3 => 1073741884,
        KeyCode::SDLK_F4 => 1073741885,
        KeyCode::SDLK_F5 => 1073741886,
        KeyCode::SDLK_F6 => 1073741887,
        KeyCode::SDLK_F7 => 1073741888,
        KeyCode::SDLK_F8 => 1073741889,
        KeyCode::SDLK_F9 => 1073741890,
        KeyCode::SDLK_F10 => 1073741891,
        KeyCode::SDLK_F11 => 1073741892,
        KeyCode::SDLK_F12 => 1073741893,
        KeyCode::SDLK_PRINTSCREEN => 1073741894,
        KeyCode::SDLK_SCROLLLOCK => 1073741895,
        KeyCode::SDLK_PAUSE => 1073741896,
        KeyCode::SDLK_INSERT => 1073741897,
        KeyCode::SDLK_HOME => 1073741898,
        KeyCode::SDLK_PAGEUP => 1073741899,
        KeyCode::SDLK_DELETE => 127,
        KeyCode::SDLK_END => 1073741901,
        KeyCode::SDLK_PAGEDOWN => 1073741902,
        KeyCode::SDLK_RIGHT => 1073741903,
        KeyCode::SDLK_LEFT => 1073741904,
        KeyCode::SDLK_DOWN => 1073741905,
        KeyCode::SDLK_UP => 1073741906,
        KeyCode::SDLK_NUMLOCKCLEAR => 1073741907,
        KeyCode::SDLK_KP_DIVIDE => 1073741908,
        KeyCode::SDLK_KP_MULTIPLY => 1073741909,
        KeyCode::SDLK_KP_MINUS => 1073741910,
        KeyCode::SDLK_KP_PLUS => 1073741911,
        KeyCode::SDLK_KP_ENTER => 1073741912,
        KeyCode::SDLK_KP_1 => 1073741913,
        KeyCode::SDLK_KP_2 => 1073741914,
        KeyCode::SDLK_KP_3 => 1073741915,
        KeyCode::SDLK_KP_4 => 1073741916,
        KeyCode::SDLK_KP_5 => 1073741917,
        KeyCode::SDLK_KP_6 => 1073741918,
        KeyCode::SDLK_KP_7 => 1073741919,
        KeyCode::SDLK_KP_8 => 1073741920,
        KeyCode::SDLK_KP_9 => 1073741921,
        KeyCode::SDLK_KP_0 => 1073741922,
        KeyCode::SDLK_KP_PERIOD => 1073741923,
        KeyCode::SDLK_APPLICATION => 1073741925,
        KeyCode::SDLK_POWER => 1073741926,
        KeyCode::SDLK_KP_EQUALS => 1073741927,
        KeyCode::SDLK_F13 => 1073741928,
        KeyCode::SDLK_F14 => 1073741929,
        KeyCode::SDLK_F15 => 1073741930,
        KeyCode::SDLK_F16 => 1073741931,
        KeyCode::SDLK_F17 => 1073741932,
        KeyCode::SDLK_F18 => 1073741933,
        KeyCode::SDLK_F19 => 1073741934,
        KeyCode::SDLK_F20 => 1073741935,
        KeyCode::SDLK_F21 => 1073741936,
        KeyCode::SDLK_F22 => 1073741937,
        KeyCode::SDLK_F23 => 1073741938,
        KeyCode::SDLK_F24 => 1073741939,
        KeyCode::SDLK_EXECUTE => 1073741940,
        KeyCode::SDLK_HELP => 1073741941,
        KeyCode::SDLK_MENU => 1073741942,
        KeyCode::SDLK_SELECT => 1073741943,
        KeyCode::SDLK_STOP => 1073741944,
        KeyCode::SDLK_AGAIN => 1073741945,
        KeyCode::SDLK_UNDO => 1073741946,
        KeyCode::SDLK_CUT => 1073741947,
        KeyCode::SDLK_COPY => 1073741948,
        KeyCode::SDLK_PASTE => 1073741949,
        KeyCode::SDLK_FIND => 1073741950,
        KeyCode::SDLK_MUTE => 1073741951,
        KeyCode::SDLK_VOLUMEUP => 1073741952,
        KeyCode::SDLK_VOLUMEDOWN => 1073741953,
        KeyCode::SDLK_KP_COMMA => 1073741957,
        KeyCode::SDLK_KP_EQUALSAS400 => 1073741958,
        KeyCode::SDLK_ALTERASE => 1073741977,
        KeyCode::SDLK_SYSREQ => 1073741978,
        KeyCode::SDLK_CANCEL => 1073741979,
        KeyCode::SDLK_CLEAR => 1073741980,
        KeyCode::SDLK_PRIOR => 1073741981,
        KeyCode::SDLK_RETURN2 => 1073741982,
        KeyCode::SDLK_SEPARATOR => 1073741983,
        KeyCode::SDLK_OUT => 1073741984,
        KeyCode::SDLK_OPER => 1073741985,
        KeyCode::SDLK_CLEARAGAIN => 1073741986,
        KeyCode::SDLK_CRSEL => 1073741987,
        KeyCode::SDLK_EXSEL => 1073741988,
        KeyCode::SDLK_KP_00 => 1073742000,
        KeyCode::SDLK_KP_000 => 1073742001,
        KeyCode::SDLK_THOUSANDSSEPARATOR => 1073742002,
        KeyCode::SDLK_DECIMALSEPARATOR => 1073742003,
        KeyCode::SDLK_CURRENCYUNIT => 1073742004,
        KeyCode::SDLK_CURRENCYSUBUNIT => 1073742005,
        KeyCode::SDLK_KP_LEFTPAREN => 1073742006,
        KeyCode::SDLK_KP_RIGHTPAREN => 1073742007,
        KeyCode::SDLK_KP_LEFTBRACE => 1073742008,
        KeyCode::SDLK_KP_RIGHTBRACE => 1073742009,
        KeyCode::SDLK_KP_TAB => 1073742010,
        KeyCode::SDLK_KP_BACKSPACE => 1073742011,
        KeyCode::SDLK_KP_A => 1073742012,
        KeyCode::SDLK_KP_B => 1073742013,
        KeyCode::SDLK_KP_C => 1073742014,
        KeyCode::SDLK_KP_D => 1073742015,
        KeyCode::SDLK_KP_E => 1073742016,
        KeyCode::SDLK_KP_F => 1073742017,
        KeyCode::SDLK_KP_XOR => 1073742018,
        KeyCode::SDLK_KP_POWER => 1073742019,
        KeyCode::SDLK_KP_PERCENT => 1073742020,
        KeyCode::SDLK_KP_LESS => 1073742021,
        KeyCode::SDLK_KP_GREATER => 1073742022,
        KeyCode::SDLK_KP_AMPERSAND => 1073742023,
        KeyCode::SDLK_KP_DBLAMPERSAND => 1073742024,
        KeyCode::SDLK_KP_VERTICALBAR => 1073742025,
        KeyCode::SDLK_KP_DBLVERTICALBAR => 1073742026,
        KeyCode::SDLK_KP_COLON => 1073742027,
        KeyCode::SDLK_KP_HASH => 1073742028,
        KeyCode::SDLK_KP_SPACE => 1073742029,
        KeyCode::SDLK_KP_AT => 1073742030,
        KeyCode::SDLK_KP_EXCLAM => 1073742031,
        KeyCode::SDLK_KP_MEMSTORE => 1073742032,
        KeyCode::SDLK_KP_MEMRECALL => 1073742033,
        KeyCode::SDLK_KP_MEMCLEAR => 1073742034,
        KeyCode::SDLK_KP_MEMADD => 1073742035,
        KeyCode::SDLK_KP_MEMSUBTRACT => 1073742036,
        KeyCode::SDLK_KP_MEMMULTIPLY => 1073742037,
        KeyCode::SDLK_KP_MEMDIVIDE => 1073742038,
        KeyCode::SDLK_KP_PLUSMINUS => 1073742039,
        KeyCode::SDLK_KP_CLEAR => 1073742040,
        KeyCode::SDLK_KP_CLEARENTRY => 1073742041,
        KeyCode::SDLK_KP_BINARY => 1073742042,
        KeyCode::SDLK_KP_OCTAL => 1073742043,
        KeyCode::SDLK_KP_DECIMAL => 1073742044,
        KeyCode::SDLK_KP_HEXADECIMAL => 1073742045,
        KeyCode::SDLK_LCTRL => 1073742048,
        KeyCode::SDLK_LSHIFT => 1073742049,
        KeyCode::SDLK_LALT => 1073742050,
        KeyCode::SDLK_LGUI => 1073742051,
        KeyCode::SDLK_RCTRL => 1073742052,
        KeyCode::SDLK_RSHIFT => 1073742053,
        KeyCode::SDLK_RALT => 1073742054,
        KeyCode::SDLK_RGUI => 1073742055,
        KeyCode::SDLK_MODE => 1073742081,
        KeyCode::SDLK_AUDIONEXT => 1073742082,
        KeyCode::SDLK_AUDIOPREV => 1073742083,
        KeyCode::SDLK_AUDIOSTOP => 1073742084,
        KeyCode::SDLK_AUDIOPLAY => 1073742085,
        KeyCode::SDLK_AUDIOMUTE => 1073742086,
        KeyCode::SDLK_MEDIASELECT => 1073742087,
        KeyCode::SDLK_WWW => 1073742088,
        KeyCode::SDLK_MAIL => 1073742089,
        KeyCode::SDLK_CALCULATOR => 1073742090,
        KeyCode::SDLK_COMPUTER => 1073742091,
        KeyCode::SDLK_AC_SEARCH => 1073742092,
        KeyCode::SDLK_AC_HOME => 1073742093,
        KeyCode::SDLK_AC_BACK => 1073742094,
        KeyCode::SDLK_AC_FORWARD => 1073742095,
        KeyCode::SDLK_AC_STOP => 1073742096,
        KeyCode::SDLK_AC_REFRESH => 1073742097,
        KeyCode::SDLK_AC_BOOKMARKS => 1073742098,
        KeyCode::SDLK_BRIGHTNESSDOWN => 1073742099,
        KeyCode::SDLK_BRIGHTNESSUP => 1073742100,
        KeyCode::SDLK_DISPLAYSWITCH => 1073742101,
        KeyCode::SDLK_KBDILLUMTOGGLE => 1073742102,
        KeyCode::SDLK_KBDILLUMDOWN => 1073742103,
        KeyCode::SDLK_KBDILLUMUP => 1073742104,
        KeyCode::SDLK_EJECT => 1073742105,
        KeyCode::SDLK_SLEEP => 1073742106,
        KeyCode::SDLK_APP1 => 1073742107,
        KeyCode::SDLK_APP2 => 1073742108,
        KeyCode::SDLK_AUDIOREWIND => 1073742109,
        KeyCode::SDLK_AUDIOFASTFORWARD => 1073742110,
    }
}

/// The key with SDL key code `c`; codes of no known key give `SDLK_UNKNOWN`.
pub open spec fn key_of_code(c: u32) -> KeyCode {
    if c == 0 {
        KeyCode::SDLK_UNKNOWN
    } else if c == 13 {
        KeyCode::SDLK_RETURN
    } else if c == 27 {
        KeyCode::SDLK_ESCAPE
    } else if c == 8 {
        KeyCode::SDLK_BACKSPACE
    } else if c == 9 {
        KeyCode::SDLK_TAB
    } else if c == 32 {
        KeyCode::SDLK_SPACE
    } else if c == 33 {
        KeyCode::SDLK_EXCLAIM
    } else if c == 34 {
        KeyCode::SDLK_QUOTEDBL
    } else if c == 35 {
        KeyCode::SDLK_HASH
    } else if c == 37 {
        KeyCode::SDLK_PERCENT
    } else if c == 36 {
        KeyCode::SDLK_DOLLAR
    } else if c == 38 {
        KeyCode::SDLK_AMPERSAND
    } else if c == 39 {
        KeyCode::SDLK_QUOTE
    } else if c == 40 {
        KeyCode::SDLK_LEFTPAREN
    } else if c == 41 {
        KeyCode::SDLK_RIGHTPAREN
    } else if c == 42 {
        KeyCode::SDLK_ASTERISK
    } else if c == 43 {
        KeyCode::SDLK_PLUS
    } else if c == 44 {
        KeyCode::SDLK_COMMA
    } else if c == 45 {
        KeyCode::SDLK_MINUS
    } else if c == 46 {
        KeyCode::SDLK_PERIOD
    } else if c == 47 {
        KeyCode::SDLK_SLASH
    } else if c == 48 {
        KeyCode::SDLK_0
    } else if c == 49 {
        KeyCode::SDLK_1
    } else if c == 50 {
        KeyCode::SDLK_2
    } else if c == 51 {
        KeyCode::SDLK_3
    } else if c == 52 {
        KeyCode::SDLK_4
    } else if c == 53 {
        KeyCode::SDLK_5
    } else if c == 54 {
        KeyCode::SDLK_6
    } else if c == 55 {
        KeyCode::SDLK_7
    } else if c == 56 {
        KeyCode::SDLK_8
    } else if c == 57 {
        KeyCode::SDLK_9
    } else if c == 58 {
        KeyCode::SDLK_COLON
    } else if c == 59 {
        KeyCode::SDLK_SEMICOLON
    } else if c == 60 {
        KeyCode::SDLK_LESS
    } else if c == 61 {
        KeyCode::SDLK_EQUALS
    } else if c == 62 {
        KeyCode::SDLK_GREATER
    } else if c == 63 {
        KeyCode::SDLK_QUESTION
    } else if c == 64 {
        KeyCode::SDLK_AT
    } else if c == 91 {
        KeyCode::SDLK_LEFTBRACKET
    } else if c == 92 {
        KeyCode::SDLK_BACKSLASH
    } else if c == 93 {
        KeyCode::SDLK_RIGHTBRACKET
    } else if c == 94 {
        KeyCode::SDLK_CARET
    } else if c == 95 {
        KeyCode::SDLK_UNDERSCORE
    } else if c == 96 {
        KeyCode::SDLK_BACKQUOTE
    } else if c == 97 {
        KeyCode::SDLK_a
    } else if c == 98 {
        KeyCode::SDLK_b
    } else if c == 99 {
        KeyCode::SDLK_c
    } else if c == 100 {
        KeyCode::SDLK_d
    } else if c == 101 {
        KeyCode::SDLK_e
    } else if c == 102 {
        KeyCode::SDLK_f
    } else if c == 103 {
        KeyCode::SDLK_g
    } else if c == 104 {
        KeyCode::SDLK_h
    } else if c == 105 {
        KeyCode::SDLK_i
    } else if c == 106 {
        KeyCode::SDLK_j
    } else if c == 107 {
        KeyCode::SDLK_k
    } else if c == 108 {
        KeyCode::SDLK_l
    } else if c == 109 {
        KeyCode::SDLK_m
    } else if c == 110 {
        KeyCode::SDLK_n
    } else if c == 111 {
        KeyCode::SDLK_o
    } else if c == 112 {
        KeyCode::SDLK_p
    } else if c == 113 {
        KeyCode::SDLK_q
    } else if c == 114 {
        KeyCode::SDLK_r
    } else if c == 115 {
        KeyCode::SDLK_s
    } else if c == 116 {
        KeyCode::SDLK_t
    } else if c == 117 {
        KeyCode::SDLK_u
    } else if c == 118 {
        KeyCode::SDLK_v
    } else if c == 119 {
        KeyCode::SDLK_w
    } else if c == 120 {
        KeyCode::SDLK_x
    } else if c == 121 {
        KeyCode::SDLK_y
    } else if c == 122 {
        KeyCode::SDLK_z
    } else if c == 1073741881 {
        KeyCode::SDLK_CAPSLOCK
    } else if c == 1073741882 {
        KeyCode::SDLK_F1
    } else if c == 1073741883 {
        KeyCode::SDLK_F2
    } else if c == 1073741884 {
        KeyCode::SDLK_F3
    } else if c == 1073741885 {
        KeyCode::SDLK_F4
    } else if c == 1073741886 {
        KeyCode::SDLK_F5
    } else if c == 1073741887 {
        KeyCode::SDLK_F6
    } else if c == 1073741888 {
        KeyCode::SDLK_F7
    } else if c == 1073741889 {
        KeyCode::SDLK_F8
    } else if c == 1073741890 {
        KeyCode::SDLK_F9
    } else if c == 1073741891 {
        KeyCode::SDLK_F10
    } else if c == 1073741892 {
        KeyCode::SDLK_F11
    } else if c == 1073741893 {
        KeyCode::SDLK_F12
    } else if c == 1073741894 {
        KeyCode::SDLK_PRINTSCREEN
    } else if c == 1073741895 {
        KeyCode::SDLK_SCROLLLOCK
    } else if c == 1073741896 {
        KeyCode::SDLK_PAUSE
    } else if c == 1073741897 {
        KeyCode::SDLK_INSERT
    } else if c == 1073741898 {
        KeyCode::SDLK_HOME
    } else if c == 1073741899 {
        KeyCode::SDLK_PAGEUP
    } else if c == 127 {
        KeyCode::SDLK_DELETE
    } else if c == 1073741901 {
        KeyCode::SDLK_END
    } else if c == 1073741902 {
        KeyCode::SDLK_PAGEDOWN
    } else if c == 1073741903 {
        KeyCode::SDLK_RIGHT
    } else if c == 1073741904 {
        KeyCode::SDLK_LEFT
    } else if c == 1073741905 {
        KeyCode::SDLK_DOWN
    } else if c == 1073741906 {
        KeyCode::SDLK_UP
    } else if c == 1073741907 {
        KeyCode::SDLK_NUMLOCKCLEAR
    } else if c == 1073741908 {
        KeyCode::SDLK_KP_DIVIDE
    } else if c == 1073741909 {
        KeyCode::SDLK_KP_MULTIPLY
    } else if c == 1073741910 {
        KeyCode::SDLK_KP_MINUS
    } else if c == 1073741911 {
        KeyCode::SDLK_KP_PLUS
    } else if c == 1073741912 {
        KeyCode::SDLK_KP_ENTER
    } else if c == 1073741913 {
        KeyCode::SDLK_KP_1
    } else if c == 1073741914 {
        KeyCode::SDLK_KP_2
    } else if c == 1073741915 {
        KeyCode::SDLK_KP_3
    } else if c == 1073741916 {
        KeyCode::SDLK_KP_4
    } else if c == 1073741917 {
        KeyCode::SDLK_KP_5
    } else if c == 1073741918 {
        KeyCode::SDLK_KP_6
    } else if c == 1073741919 {
        KeyCode::SDLK_KP_7
    } else if c == 1073741920 {
        KeyCode::SDLK_KP_8
    } else if c == 1073741921 {
        KeyCode::SDLK_KP_9
    } else if c == 1073741922 {
        KeyCode::SDLK_KP_0
    } else if c == 1073741923 {
        KeyCode::SDLK_KP_PERIOD
    } else if c == 1073741925 {
        KeyCode::SDLK_APPLICATION
    } else if c == 1073741926 {
        KeyCode::SDLK_POWER
    } else if c == 1073741927 {
        KeyCode::SDLK_KP_EQUALS
    } else if c == 1073741928 {
        KeyCode::SDLK_F13
    } else if c == 1073741929 {
        KeyCode::SDLK_F14
    } else if c == 1073741930 {
        KeyCode::SDLK_F15
    } else if c == 1073741931 {
        KeyCode::SDLK_F16
    } else if c == 1073741932 {
        KeyCode::SDLK_F17
    } else if c == 1073741933 {
        KeyCode::SDLK_F18
    } else if c == 1073741934 {
        KeyCode::SDLK_F19
    } else if c == 1073741935 {
        KeyCode::SDLK_F20
    } else if c == 1073741936 {
        KeyCode::SDLK_F21
    } else if c == 1073741937 {
        KeyCode::SDLK_F22
    } else if c == 1073741938 {
        KeyCode::SDLK_F23
    } else if c == 1073741939 {
        KeyCode::SDLK_F24
    } else if c == 1073741940 {
        KeyCode::SDLK_EXECUTE
    } else if c == 1073741941 {
        KeyCode::SDLK_HELP
    } else if c == 1073741942 {
        KeyCode::SDLK_MENU
    } else if c == 1073741943 {
        KeyCode::SDLK_SELECT
    } else if c == 1073741944 {
        KeyCode::SDLK_STOP
    } else if c == 1073741945 {
        KeyCode::SDLK_AGAIN
    } else if c == 1073741946 {
        KeyCode::SDLK_UNDO
    } else if c == 1073741947 {
        KeyCode::SDLK_CUT
    } else if c == 1073741948 {
        KeyCode::SDLK_COPY
    } else if c == 1073741949 {
        KeyCode::SDLK_PASTE
    } else if c == 1073741950 {
        KeyCode::SDLK_FIND
    } else if c == 1073741951 {
        KeyCode::SDLK_MUTE
    } else if c == 1073741952 {
        KeyCode::SDLK_VOLUMEUP
    } else if c == 1073741953 {
        KeyCode::SDLK_VOLUMEDOWN
    } else if c == 1073741957 {
        KeyCode::SDLK_KP_COMMA
    } else if c == 1073741958 {
        KeyCode::SDLK_KP_EQUALSAS400
    } else if c == 1073741977 {
        KeyCode::SDLK_ALTERASE
    } else if c == 1073741978 {
        KeyCode::SDLK_SYSREQ
    } else if c == 1073741979 {
        KeyCode::SDLK_CANCEL
    } else if c == 1073741980 {
        KeyCode::SDLK_CLEAR
    } else if c == 1073741981 {
        KeyCode::SDLK_PRIOR
    } else if c == 1073741982 {
        KeyCode::SDLK_RETURN2
    } else if c == 1073741983 {
        KeyCode::SDLK_SEPARATOR
    } else if c == 1073741984 {
        KeyCode::SDLK_OUT
    } else if c == 1073741985 {
        KeyCode::SDLK_OPER
    } else if c == 1073741986 {
        KeyCode::SDLK_CLEARAGAIN
    } else if c == 1073741987 {
        KeyCode::SDLK_CRSEL
    } else if c == 1073741988 {
        KeyCode::SDLK_EXSEL
    } else if c == 1073742000 {
        KeyCode::SDLK_KP_00
    } else if c == 1073742001 {
        KeyCode::SDLK_KP_000
    } else if c == 1073742002 {
        KeyCode::SDLK_THOUSANDSSEPARATOR
    } else if c == 1073742003 {
        KeyCode::SDLK_DECIMALSEPARATOR
    } else if c == 1073742004 {
        KeyCode::SDLK_CURRENCYUNIT
    } else if c == 1073742005 {
        KeyCode::SDLK_CURRENCYSUBUNIT
    } else if c == 1073742006 {
        KeyCode::SDLK_KP_LEFTPAREN
    } else if c == 1073742007 {
        KeyCode::SDLK_KP_RIGHTPAREN
    } else if c == 1073742008 {
        KeyCode::SDLK_KP_LEFTBRACE
    } else if c == 1073742009 {
        KeyCode::SDLK_KP_RIGHTBRACE
    } else if c == 1073742010 {
        KeyCode::SDLK_KP_TAB
    } else if c == 1073742011 {
        KeyCode::SDLK_KP_BACKSPACE
    } else if c == 1073742012 {
        KeyCode::SDLK_KP_A
    } else if c == 1073742013 {
        KeyCode::SDLK_KP_B
    } else if c == 1073742014 {
        KeyCode::SDLK_KP_C
    } else if c == 1073742015 {
        KeyCode::SDLK_KP_D
    } else if c == 1073742016 {
        KeyCode::SDLK_KP_E
    } else if c == 1073742017 {
        KeyCode::SDLK_KP_F
    } else if c == 1073742018 {
        KeyCode::SDLK_KP_XOR
    } else if c == 1073742019 {
        KeyCode::SDLK_KP_POWER
    } else if c == 1073742020 {
        KeyCode::SDLK_KP_PERCENT
    } else if c == 1073742021 {
        KeyCode::SDLK_KP_LESS
    } else if c == 1073742022 {
        KeyCode::SDLK_KP_GREATER
    } else if c == 1073742023 {
        KeyCode::SDLK_KP_AMPERSAND
    } else if c == 1073742024 {
        KeyCode::SDLK_KP_DBLAMPERSAND
    } else if c == 1073742025 {
        KeyCode::SDLK_KP_VERTICALBAR
    } else if c == 1073742026 {
        KeyCode::SDLK_KP_DBLVERTICALBAR
    } else if c == 1073742027 {
        KeyCode::SDLK_KP_COLON
    } else if c == 1073742028 {
        KeyCode::SDLK_KP_HASH
    } else if c == 1073742029 {
        KeyCode::SDLK_KP_SPACE
    } else if c == 1073742030 {
        KeyCode::SDLK_KP_AT
    } else if c == 1073742031 {
        KeyCode::SDLK_KP_EXCLAM
    } else if c == 1073742032 {
        KeyCode::SDLK_KP_MEMSTORE
    } else if c == 1073742033 {
        KeyCode::SDLK_KP_MEMRECALL
    } else if c == 1073742034 {
        KeyCode::SDLK_KP_MEMCLEAR
    } else if c == 1073742035 {
        KeyCode::SDLK_KP_MEMADD
    } else if c == 1073742036 {
        KeyCode::SDLK_KP_MEMSUBTRACT
    } else if c == 1073742037 {
        KeyCode::SDLK_KP_MEMMULTIPLY
    } else if c == 1073742038 {
        KeyCode::SDLK_KP_MEMDIVIDE
    } else if c == 1073742039 {
        KeyCode::SDLK_KP_PLUSMINUS
    } else if c == 1073742040 {
        KeyCode::SDLK_KP_CLEAR
    } else if c == 1073742041 {
        KeyCode::SDLK_KP_CLEARENTRY
    } else if c == 1073742042 {
        KeyCode::SDLK_KP_BINARY
    } else if c == 1073742043 {
        KeyCode::SDLK_KP_OCTAL
    } else if c == 1073742044 {
        KeyCode::SDLK_KP_DECIMAL
    } else if c == 1073742045 {
        KeyCode::SDLK_KP_HEXADECIMAL
    } else if c == 1073742048 {
        KeyCode::SDLK_LCTRL
    } else if c == 1073742049 {
        KeyCode::SDLK_LSHIFT
    } else if c == 1073742050 {
        KeyCode::SDLK_LALT
    } else if c == 1073742051 {
        KeyCode::SDLK_LGUI
    } else if c == 1073742052 {
        KeyCode::SDLK_RCTRL
    } else if c == 1073742053 {
        KeyCode::SDLK_RSHIFT
    } else if c == 1073742054 {
        KeyCode::SDLK_RALT
    } else if c == 1073742055 {
        KeyCode::SDLK_RGUI
    } else if c == 1073742081 {
        KeyCode::SDLK_MODE
    } else if c == 1073742082 {
        KeyCode::SDLK_AUDIONEXT
    } else if c == 1073742083 {
        KeyCode::SDLK_AUDIOPREV
    } else if c == 1073742084 {
        KeyCode::SDLK_AUDIOSTOP
    } else if c == 1073742085 {
        KeyCode::SDLK_AUDIOPLAY
    } else if c == 1073742086 {
        KeyCode::SDLK_AUDIOMUTE
    } else if c == 1073742087 {
        KeyCode::SDLK_MEDIASELECT
    } else if c == 1073742088 {
        KeyCode::SDLK_WWW
    } else if c == 1073742089 {
        KeyCode::SDLK_MAIL
    } else if c == 1073742090 {
        KeyCode::SDLK_CALCULATOR
    } else if c == 1073742091 {
        KeyCode::SDLK_COMPUTER
    } else if c == 1073742092 {
        KeyCode::SDLK_AC_SEARCH
    } else if c == 1073742093 {
        KeyCode::SDLK_AC_HOME
    } else if c == 1073742094 {
        KeyCode::SDLK_AC_BACK
    } else if c == 1073742095 {
        KeyCode::SDLK_AC_FORWARD
    } else if c == 1073742096 {
        KeyCode::SDLK_AC_STOP
    } else if c == 1073742097 {
        KeyCode::SDLK_AC_REFRESH
    } else if c == 1073742098 {
        KeyCode::SDLK_AC_BOOKMARKS
    } else if c == 1073742099 {
        KeyCode::SDLK_BRIGHTNESSDOWN
    } else if c == 1073742100 {
        KeyCode::SDLK_BRIGHTNESSUP
    } else if c == 1073742101 {
        KeyCode::SDLK_DISPLAYSWITCH
    } else if c == 1073742102 {
        KeyCode::SDLK_KBDILLUMTOGGLE
    } else if c == 1073742103 {
        KeyCode::SDLK_KBDILLUMDOWN
    } else if c == 1073742104 {
        KeyCode::SDLK_KBDILLUMUP
    } else if c == 1073742105 {
        KeyCode::SDLK_EJECT
    } else if c == 1073742106 {
        KeyCode::SDLK_SLEEP
    } else if c == 1073742107 {
        KeyCode::SDLK_APP1
    } else if c == 1073742108 {
        KeyCode::SDLK_APP2
    } else if c == 1073742109 {
        KeyCode::SDLK_AUDIOREWIND
    } else if c == 1073742110 {
        KeyCode::SDLK_AUDIOFASTFORWARD
    } else {
        KeyCode::SDLK_UNKNOWN
    }
}

impl KeyCode {
    /// The key with SDL key code `value`; unknown codes give `SDLK_UNKNOWN`.
    pub fn from_code(value: u32) -> (r: KeyCode)
        ensures
            r == key_of_code(value),
    {
        match value {
            0 => KeyCode::SDLK_UNKNOWN,
            13 => KeyCode::SDLK_RETURN,
            27 => KeyCode::SDLK_ESCAPE,
            8 => KeyCode::SDLK_BACKSPACE,
            9 => KeyCode::SDLK_TAB,
            32 => KeyCode::SDLK_SPACE,
            33 => KeyCode::SDLK_EXCLAIM,
            34 => KeyCode::SDLK_QUOTEDBL,
            35 => KeyCode::SDLK_HASH,
            37 => KeyCode::SDLK_PERCENT,
            36 => KeyCode::SDLK_DOLLAR,
            38 => KeyCode::SDLK_AMPERSAND,
            39 => KeyCode::SDLK_QUOTE,
            40 => KeyCode::SDLK_LEFTPAREN,
            41 => KeyCode::SDLK_RIGHTPAREN,
            42 => KeyCode::SDLK_ASTERISK,
            43 => KeyCode::SDLK_PLUS,
            44 => KeyCode::SDLK_COMMA,
            45 => KeyCode::SDLK_MINUS,
            46 => KeyCode::SDLK_PERIOD,
            47 => KeyCode::SDLK_SLASH,
            48 => KeyCode::SDLK_0,
            49 => KeyCode::SDLK_1,
            50 => KeyCode::SDLK_2,
            51 => KeyCode::SDLK_3,
            52 => KeyCode::SDLK_4,
            53 => KeyCode::SDLK_5,
            54 => KeyCode::SDLK_6,
            55 => KeyCode::SDLK_7,
            56 => KeyCode::SDLK_8,
            57 => KeyCode::SDLK_9,
            58 => KeyCode::SDLK_COLON,
            59 => KeyCode::SDLK_SEMICOLON,
            60 => KeyCode::SDLK_LESS,
            61 => KeyCode::SDLK_EQUALS,
            62 => KeyCode::SDLK_GREATER,
            63 => KeyCode::SDLK_QUESTION,
            64 => KeyCode::SDLK_AT,
            91 => KeyCode::SDLK_LEFTBRACKET,
            92 => KeyCode::SDLK_BACKSLASH,
            93 => KeyCode::SDLK_RIGHTBRACKET,
            94 => KeyCode::SDLK_CARET,
            95 => KeyCode::SDLK_UNDERSCORE,
            96 => KeyCode::SDLK_BACKQUOTE,
            97 => KeyCode::SDLK_a,
            98 => KeyCode::SDLK_b,
            99 => KeyCode::SDLK_c,
            100 => KeyCode::SDLK_d,
            101 => KeyCode::SDLK_e,
            102 => KeyCode::SDLK_f,
            103 => KeyCode::SDLK_g,
            104 => KeyCode::SDLK_h,
            105 => KeyCode::SDLK_i,
            106 => KeyCode::SDLK_j,
            107 => KeyCode::SDLK_k,
            108 => KeyCode::SDLK_l,
            109 => KeyCode::SDLK_m,
            110 => KeyCode::SDLK_n,
            111 => KeyCode::SDLK_o,
            112 => KeyCode::SDLK_p,
            113 => KeyCode::SDLK_q,
            114 => KeyCode::SDLK_r,
            115 => KeyCode::SDLK_s,
            116 => KeyCode::SDLK_t,
            117 => KeyCode::SDLK_u,
            118 => KeyCode::SDLK_v,
            119 => KeyCode::SDLK_w,
            120 => KeyCode::SDLK_x,
            121 => KeyCode::SDLK_y,
            122 => KeyCode::SDLK_z,
            1073741881 => KeyCode::SDLK_CAPSLOCK,
            1073741882 => KeyCode::SDLK_F1,
            1073741883 => KeyCode::SDLK_F2,
            1073741884 => KeyCode::SDLK_F3,
            1073741885 => KeyCode::SDLK_F4,
            1073741886 => KeyCode::SDLK_F5,
            1073741887 => KeyCode::SDLK_F6,
            1073741888 => KeyCode::SDLK_F7,
            1073741889 => KeyCode::SDLK_F8,
            1073741890 => KeyCode::SDLK_F9,
            1073741891 => KeyCode::SDLK_F10,
            1073741892 => KeyCode::SDLK_F11,
            1073741893 => KeyCode::SDLK_F12,
            1073741894 => KeyCode::SDLK_PRINTSCREEN,
            1073741895 => KeyCode::SDLK_SCROLLLOCK,
            1073741896 => KeyCode::SDLK_PAUSE,
            1073741897 => KeyCode::SDLK_INSERT,
            1073741898 => KeyCode::SDLK_HOME,
            1073741899 => KeyCode::SDLK_PAGEUP,
            127 => KeyCode::SDLK_DELETE,
            1073741901 => KeyCode::SDLK_END,
            1073741902 => KeyCode::SDLK_PAGEDOWN,
            1073741903 => KeyCode::SDLK_RIGHT,
            1073741904 => KeyCode::SDLK_LEFT,
            1073741905 => KeyCode::SDLK_DOWN,
            1073741906 => KeyCode::SDLK_UP,
            1073741907 => KeyCode::SDLK_NUMLOCKCLEAR,
            1073741908 => KeyCode::SDLK_KP_DIVIDE,
            1073741909 => KeyCode::SDLK_KP_MULTIPLY,
            1073741910 => KeyCode::SDLK_KP_MINUS,
            1073741911 => KeyCode::SDLK_KP_PLUS,
            1073741912 => KeyCode::SDLK_KP_ENTER,
            1073741913 => KeyCode::SDLK_KP_1,
            1073741914 => KeyCode::SDLK_KP_2,
            1073741915 => KeyCode::SDLK_KP_3,
            1073741916 => KeyCode::SDLK_KP_4,
            1073741917 => KeyCode::SDLK_KP_5,
            1073741918 => KeyCode::SDLK_KP_6,
            1073741919 => KeyCode::SDLK_KP_7,
            1073741920 => KeyCode::SDLK_KP_8,
            1073741921 => KeyCode::SDLK_KP_9,
            1073741922 => KeyCode::SDLK_KP_0,
            1073741923 => KeyCode::SDLK_KP_PERIOD,
            1073741925 => KeyCode::SDLK_APPLICATION,
            1073741926 => KeyCode::SDLK_POWER,
            1073741927 => KeyCode::SDLK_KP_EQUALS,
            1073741928 => KeyCode::SDLK_F13,
            1073741929 => KeyCode::SDLK_F14,
            1073741930 => KeyCode::SDLK_F15,
            1073741931 => KeyCode::SDLK_F16,
            1073741932 => KeyCode::SDLK_F17,
            1073741933 => KeyCode::SDLK_F18,
            1073741934 => KeyCode::SDLK_F19,
            1073741935 => KeyCode::SDLK_F20,
            1073741936 => KeyCode::SDLK_F21,
            1073741937 => KeyCode::SDLK_F22,
            1073741938 => KeyCode::SDLK_F23,
            1073741939 => KeyCode::SDLK_F24,
            1073741940 => KeyCode::SDLK_EXECUTE,
            1073741941 => KeyCode::SDLK_HELP,
            1073741942 => KeyCode::SDLK_MENU,
            1073741943 => KeyCode::SDLK_SELECT,
            1073741944 => KeyCode::SDLK_STOP,
            1073741945 => KeyCode::SDLK_AGAIN,
            1073741946 => KeyCode::SDLK_UNDO,
            1073741947 => KeyCode::SDLK_CUT,
            1073741948 => KeyCode::SDLK_COPY,
            1073741949 => KeyCode::SDLK_PASTE,
            1073741950 => KeyCode::SDLK_FIND,
            1073741951 => KeyCode::SDLK_MUTE,
            1073741952 => KeyCode::SDLK_VOLUMEUP,
            1073741953 => KeyCode::SDLK_VOLUMEDOWN,
            1073741957 => KeyCode::SDLK_KP_COMMA,
            1073741958 => KeyCode::SDLK_KP_EQUALSAS400,
            1073741977 => KeyCode::SDLK_ALTERASE,
            1073741978 => KeyCode::SDLK_SYSREQ,
            1073741979 => KeyCode::SDLK_CANCEL,
            1073741980 => KeyCode::SDLK_CLEAR,
            1073741981 => KeyCode::SDLK_PRIOR,
            1073741982 => KeyCode::SDLK_RETURN2,
            1073741983 => KeyCode::SDLK_SEPARATOR,
            1073741984 => KeyCode::SDLK_OUT,
            1073741985 => KeyCode::SDLK_OPER,
            1073741986 => KeyCode::SDLK_CLEARAGAIN,
            1073741987 => KeyCode::SDLK_CRSEL,
            1073741988 => KeyCode::SDLK_EXSEL,
            1073742000 => KeyCode::SDLK_KP_00,
            1073742001 => KeyCode::SDLK_KP_000,
            1073742002 => KeyCode::SDLK_THOUSANDSSEPARATOR,
            1073742003 => KeyCode::SDLK_DECIMALSEPARATOR,
            1073742004 => KeyCode::SDLK_CURRENCYUNIT,
            1073742005 => KeyCode::SDLK_CURRENCYSUBUNIT,
            1073742006 => KeyCode::SDLK_KP_LEFTPAREN,
            1073742007 => KeyCode::SDLK_KP_RIGHTPAREN,
            1073742008 => KeyCode::SDLK_KP_LEFTBRACE,
            1073742009 => KeyCode::SDLK_KP_RIGHTBRACE,
            1073742010 => KeyCode::SDLK_KP_TAB,
            1073742011 => KeyCode::SDLK_KP_BACKSPACE,
            1073742012 => KeyCode::SDLK_KP_A,
            1073742013 => KeyCode::SDLK_KP_B,
            1073742014 => KeyCode::SDLK_KP_C,
            1073742015 => KeyCode::SDLK_KP_D,
            1073742016 => KeyCode::SDLK_KP_E,
            1073742017 => KeyCode::SDLK_KP_F,
            1073742018 => KeyCode::SDLK_KP_XOR,
            1073742019 => KeyCode::SDLK_KP_POWER,
            1073742020 => KeyCode::SDLK_KP_PERCENT,
            1073742021 => KeyCode::SDLK_KP_LESS,
            1073742022 => KeyCode::SDLK_KP_GREATER,
            1073742023 => KeyCode::SDLK_KP_AMPERSAND,
            1073742024 => KeyCode::SDLK_KP_DBLAMPERSAND,
            1073742025 => KeyCode::SDLK_KP_VERTICALBAR,
            1073742026 => KeyCode::SDLK_KP_DBLVERTICALBAR,
            1073742027 => KeyCode::SDLK_KP_COLON,
            1073742028 => KeyCode::SDLK_KP_HASH,
            1073742029 => KeyCode::SDLK_KP_SPACE,
            1073742030 => KeyCode::SDLK_KP_AT,
            1073742031 => KeyCode::SDLK_KP_EXCLAM,
            1073742032 => KeyCode::SDLK_KP_MEMSTORE,
            1073742033 => KeyCode::SDLK_KP_MEMRECALL,
            1073742034 => KeyCode::SDLK_KP_MEMCLEAR,
            1073742035 => KeyCode::SDLK_KP_MEMADD,
            1073742036 => KeyCode::SDLK_KP_MEMSUBTRACT,
            1073742037 => KeyCode::SDLK_KP_MEMMULTIPLY,
            1073742038 => KeyCode::SDLK_KP_MEMDIVIDE,
            1073742039 => KeyCode::SDLK_KP_PLUSMINUS,
            1073742040 => KeyCode::SDLK_KP_CLEAR,
            1073742041 => KeyCode::SDLK_KP_CLEARENTRY,
            1073742042 => KeyCode::SDLK_KP_BINARY,
            1073742043 => KeyCode::SDLK_KP_OCTAL,
            1073742044 => KeyCode::SDLK_KP_DECIMAL,
            1073742045 => KeyCode::SDLK_KP_HEXADECIMAL,
            1073742048 => KeyCode::SDLK_LCTRL,
            1073742049 => KeyCode::SDLK_LSHIFT,
            1073742050 => KeyCode::SDLK_LALT,
            1073742051 => KeyCode::SDLK_LGUI,
            1073742052 => KeyCode::SDLK_RCTRL,
            1073742053 => KeyCode::SDLK_RSHIFT,
            1073742054 => KeyCode::SDLK_RALT,
            1073742055 => KeyCode::SDLK_RGUI,
            1073742081 => KeyCode::SDLK_MODE,
            1073742082 => KeyCode::SDLK_AUDIONEXT,
            1073742083 => KeyCode::SDLK_AUDIOPREV,
            1073742084 => KeyCode::SDLK_AUDIOSTOP,
            1073742085 => KeyCode::SDLK_AUDIOPLAY,
            1073742086 => KeyCode::SDLK_AUDIOMUTE,
            1073742087 => KeyCode::SDLK_MEDIASELECT,
            1073742088 => KeyCode::SDLK_WWW,
            1073742089 => KeyCode::SDLK_MAIL,
            1073742090 => KeyCode::SDLK_CALCULATOR,
            1073742091 => KeyCode::SDLK_COMPUTER,
            1073742092 => KeyCode::SDLK_AC_SEARCH,
            1073742093 => KeyCode::SDLK_AC_HOME,
            1073742094 => KeyCode::SDLK_AC_BACK,
            1073742095 => KeyCode::SDLK_AC_FORWARD,
            1073742096 => KeyCode::SDLK_AC_STOP,
            1073742097 => KeyCode::SDLK_AC_REFRESH,
            1073742098 => KeyCode::SDLK_AC_BOOKMARKS,
            1073742099 => KeyCode::SDLK_BRIGHTNESSDOWN,
            1073742100 => KeyCode::SDLK_BRIGHTNESSUP,
            1073742101 => KeyCode::SDLK_DISPLAYSWITCH,
            1073742102 => KeyCode::SDLK_KBDILLUMTOGGLE,
            1073742103 => KeyCode::SDLK_KBDILLUMDOWN,
            1073742104 => KeyCode::SDLK_KBDILLUMUP,
            1073742105 => KeyCode::SDLK_EJECT,
            1073742106 => KeyCode::SDLK_SLEEP,
            1073742107 => KeyCode::SDLK_APP1,
            1073742108 => KeyCode::SDLK_APP2,
            1073742109 => KeyCode::SDLK_AUDIOREWIND,
            1073742110 => KeyCode::SDLK_AUDIOFASTFORWARD,
            _ => KeyCode::SDLK_UNKNOWN,
        }
    }

    /// The SDL key code of this key.
    pub fn code(&self) -> (r: u32)
        ensures
            r == key_code(*self),
    {
        match self {
            KeyCode::SDLK_UNKNOWN => 0,
            KeyCode::SDLK_RETURN => 13,
            KeyCode::SDLK_ESCAPE => 27,
            KeyCode::SDLK_BACKSPACE => 8,
            KeyCode::SDLK_TAB => 9,
            KeyCode::SDLK_SPACE => 32,
            KeyCode::SDLK_EXCLAIM => 33,
            KeyCode::SDLK_QUOTEDBL => 34,
            KeyCode::SDLK_HASH => 35,
            KeyCode::SDLK_PERCENT => 37,
            KeyCode::SDLK_DOLLAR => 36,
            KeyCode::SDLK_AMPERSAND => 38,
            KeyCode::SDLK_QUOTE => 39,
            KeyCode::SDLK_LEFTPAREN => 40,
            KeyCode::SDLK_RIGHTPAREN => 41,
            KeyCode::SDLK_ASTERISK => 42,
            KeyCode::SDLK_PLUS => 43,
            KeyCode::SDLK_COMMA => 44,
            KeyCode::SDLK_MINUS => 45,
            KeyCode::SDLK_PERIOD => 46,
            KeyCode::SDLK_SLASH => 47,
            KeyCode::SDLK_0 => 48,
            KeyCode::SDLK_1 => 49,
            KeyCode::SDLK_2 => 50,
            KeyCode::SDLK_3 => 51,
            KeyCode::SDLK_4 => 52,
            KeyCode::SDLK_5 => 53,
            KeyCode::SDLK_6 => 54,
            KeyCode::SDLK_7 => 55,
            KeyCode::SDLK_8 => 56,
            KeyCode::SDLK_9 => 57,
            KeyCode::SDLK_COLON => 58,
            KeyCode::SDLK_SEMICOLON => 59,
            KeyCode::SDLK_LESS => 60,
            KeyCode::SDLK_EQUALS => 61,
            KeyCode::SDLK_GREATER => 62,
            KeyCode::SDLK_QUESTION => 63,
            KeyCode::SDLK_AT => 64,
            KeyCode::SDLK_LEFTBRACKET => 91,
            KeyCode::SDLK_BACKSLASH => 92,
            KeyCode::SDLK_RIGHTBRACKET => 93,
            KeyCode::SDLK_CARET => 94,
            KeyCode::SDLK_UNDERSCORE => 95,
            KeyCode::SDLK_BACKQUOTE => 96,
            KeyCode::SDLK_a => 97,
            KeyCode::SDLK_b => 98,
            KeyCode::SDLK_c => 99,
            KeyCode::SDLK_d => 100,
            KeyCode::SDLK_e => 101,
            KeyCode::SDLK_f => 102,
            KeyCode::SDLK_g => 103,
            KeyCode::SDLK_h => 104,
            KeyCode::SDLK_i => 105,
            KeyCode::SDLK_j => 106,
            KeyCode::SDLK_k => 107,
            KeyCode::SDLK_l => 108,
            KeyCode::SDLK_m => 109,
            KeyCode::SDLK_n => 110,
            KeyCode::SDLK_o => 111,
            KeyCode::SDLK_p => 112,
            KeyCode::SDLK_q => 113,
            KeyCode::SDLK_r => 114,
            KeyCode::SDLK_s => 115,
            KeyCode::SDLK_t => 116,
            KeyCode::SDLK_u => 117,
            KeyCode::SDLK_v => 118,
            KeyCode::SDLK_w => 119,
            KeyCode::SDLK_x => 120,
            KeyCode::SDLK_y => 121,
            KeyCode::SDLK_z => 122,
            KeyCode::SDLK_CAPSLOCK => 1073741881,
            KeyCode::SDLK_F1 => 1073741882,
            KeyCode::SDLK_F2 => 1073741883,
            KeyCode::SDLK_F3 => 1073741884,
            KeyCode::SDLK_F4 => 1073741885,
            KeyCode::SDLK_F5 => 1073741886,
            KeyCode::SDLK_F6 => 1073741887,
            KeyCode::SDLK_F7 => 1073741888,
            KeyCode::SDLK_F8 => 1073741889,
            KeyCode::SDLK_F9 => 1073741890,
            KeyCode::SDLK_F10 => 1073741891,
            KeyCode::SDLK_F11 => 1073741892,
            KeyCode::SDLK_F12 => 1073741893,
            KeyCode::SDLK_PRINTSCREEN => 1073741894,
            KeyCode::SDLK_SCROLLLOCK => 1073741895,
            KeyCode::SDLK_PAUSE => 1073741896,
            KeyCode::SDLK_INSERT => 1073741897,
            KeyCode::SDLK_HOME => 1073741898,
            KeyCode::SDLK_PAGEUP => 1073741899,
            KeyCode::SDLK_DELETE => 127,
            KeyCode::SDLK_END => 1073741901,
            KeyCode::SDLK_PAGEDOWN => 1073741902,
            KeyCode::SDLK_RIGHT => 1073741903,
            KeyCode::SDLK_LEFT => 1073741904,
            KeyCode::SDLK_DOWN => 1073741905,
            KeyCode::SDLK_UP => 1073741906,
            KeyCode::SDLK_NUMLOCKCLEAR => 1073741907,
            KeyCode::SDLK_KP_DIVIDE => 1073741908,
            KeyCode::SDLK_KP_MULTIPLY => 1073741909,
            KeyCode::SDLK_KP_MINUS => 1073741910,
            KeyCode::SDLK_KP_PLUS => 1073741911,
            KeyCode::SDLK_KP_ENTER => 1073741912,
            KeyCode::SDLK_KP_1 => 1073741913,
            KeyCode::SDLK_KP_2 => 1073741914,
            KeyCode::SDLK_KP_3 => 1073741915,
            KeyCode::SDLK_KP_4 => 1073741916,
            KeyCode::SDLK_KP_5 => 1073741917,
            KeyCode::SDLK_KP_6 => 1073741918,
            KeyCode::SDLK_KP_7 => 1073741919,
            KeyCode::SDLK_KP_8 => 1073741920,
            KeyCode::SDLK_KP_9 => 1073741921,
            KeyCode::SDLK_KP_0 => 1073741922,
            KeyCode::SDLK_KP_PERIOD => 1073741923,
            KeyCode::SDLK_APPLICATION => 1073741925,
            KeyCode::SDLK_POWER => 1073741926,
            KeyCode::SDLK_KP_EQUALS => 1073741927,
            KeyCode::SDLK_F13 => 1073741928,
            KeyCode::SDLK_F14 => 1073741929,
            KeyCode::SDLK_F15 => 1073741930,
            KeyCode::SDLK_F16 => 1073741931,
            KeyCode::SDLK_F17 => 1073741932,
            KeyCode::SDLK_F18 => 1073741933,
            KeyCode::SDLK_F19 => 1073741934,
            KeyCode::SDLK_F20 => 1073741935,
            KeyCode::SDLK_F21 => 1073741936,
            KeyCode::SDLK_F22 => 1073741937,
            KeyCode::SDLK_F23 => 1073741938,
            KeyCode::SDLK_F24 => 1073741939,
            KeyCode::SDLK_EXECUTE => 1073741940,
            KeyCode::SDLK_HELP => 1073741941,
            KeyCode::SDLK_MENU => 1073741942,
            KeyCode::SDLK_SELECT => 1073741943,
            KeyCode::SDLK_STOP => 1073741944,
            KeyCode::SDLK_AGAIN => 1073741945,
            KeyCode::SDLK_UNDO => 1073741946,
            KeyCode::SDLK_CUT => 1073741947,
            KeyCode::SDLK_COPY => 1073741948,
            KeyCode::SDLK_PASTE => 1073741949,
            KeyCode::SDLK_FIND => 1073741950,
            KeyCode::SDLK_MUTE => 1073741951,
            KeyCode::SDLK_VOLUMEUP => 1073741952,
            KeyCode::SDLK_VOLUMEDOWN => 1073741953,
            KeyCode::SDLK_KP_COMMA => 1073741957,
            KeyCode::SDLK_KP_EQUALSAS400 => 1073741958,
            KeyCode::SDLK_ALTERASE => 1073741977,
            KeyCode::SDLK_SYSREQ => 1073741978,
            KeyCode::SDLK_CANCEL => 1073741979,
            KeyCode::SDLK_CLEAR => 1073741980,
            KeyCode::SDLK_PRIOR => 1073741981,
            KeyCode::SDLK_RETURN2 => 1073741982,
            KeyCode::SDLK_SEPARATOR => 1073741983,
            KeyCode::SDLK_OUT => 1073741984,
            KeyCode::SDLK_OPER => 1073741985,
            KeyCode::SDLK_CLEARAGAIN => 1073741986,
            KeyCode::SDLK_CRSEL => 1073741987,
            KeyCode::SDLK_EXSEL => 1073741988,
            KeyCode::SDLK_KP_00 => 1073742000,
            KeyCode::SDLK_KP_000 => 1073742001,
            KeyCode::SDLK_THOUSANDSSEPARATOR => 1073742002,
            KeyCode::SDLK_DECIMALSEPARATOR => 1073742003,
            KeyCode::SDLK_CURRENCYUNIT => 1073742004,
            KeyCode::SDLK_CURRENCYSUBUNIT => 1073742005,
            KeyCode::SDLK_KP_LEFTPAREN => 1073742006,
            KeyCode::SDLK_KP_RIGHTPAREN => 1073742007,
            KeyCode::SDLK_KP_LEFTBRACE => 1073742008,
            KeyCode::SDLK_KP_RIGHTBRACE => 1073742009,
            KeyCode::SDLK_KP_TAB => 1073742010,
            KeyCode::SDLK_KP_BACKSPACE => 1073742011,
            KeyCode::SDLK_KP_A => 1073742012,
            KeyCode::SDLK_KP_B => 1073742013,
            KeyCode::SDLK_KP_C => 1073742014,
            KeyCode::SDLK_KP_D => 1073742015,
            KeyCode::SDLK_KP_E => 1073742016,
            KeyCode::SDLK_KP_F => 1073742017,
            KeyCode::SDLK_KP_XOR => 1073742018,
            KeyCode::SDLK_KP_POWER => 1073742019,
            KeyCode::SDLK_KP_PERCENT => 1073742020,
            KeyCode::SDLK_KP_LESS => 1073742021,
            KeyCode::SDLK_KP_GREATER => 1073742022,
            KeyCode::SDLK_KP_AMPERSAND => 1073742023,
            KeyCode::SDLK_KP_DBLAMPERSAND => 1073742024,
            KeyCode::SDLK_KP_VERTICALBAR => 1073742025,
            KeyCode::SDLK_KP_DBLVERTICALBAR => 1073742026,
            KeyCode::SDLK_KP_COLON => 1073742027,
            KeyCode::SDLK_KP_HASH => 1073742028,
            KeyCode::SDLK_KP_SPACE => 1073742029,
            KeyCode::SDLK_KP_AT => 1073742030,
            KeyCode::SDLK_KP_EXCLAM => 1073742031,
            KeyCode::SDLK_KP_MEMSTORE => 1073742032,
            KeyCode::SDLK_KP_MEMRECALL => 1073742033,
            KeyCode::SDLK_KP_MEMCLEAR => 1073742034,
            KeyCode::SDLK_KP_MEMADD => 1073742035,
            KeyCode::SDLK_KP_MEMSUBTRACT => 1073742036,
            KeyCode::SDLK_KP_MEMMULTIPLY => 1073742037,
            KeyCode::SDLK_KP_MEMDIVIDE => 1073742038,
            KeyCode::SDLK_KP_PLUSMINUS => 1073742039,
            KeyCode::SDLK_KP_CLEAR => 1073742040,
            KeyCode::SDLK_KP_CLEARENTRY => 1073742041,
            KeyCode::SDLK_KP_BINARY => 1073742042,
            KeyCode::SDLK_KP_OCTAL => 1073742043,
            KeyCode::SDLK_KP_DECIMAL => 1073742044,
            KeyCode::SDLK_KP_HEXADECIMAL => 1073742045,
            KeyCode::SDLK_LCTRL => 1073742048,
            KeyCode::SDLK_LSHIFT => 1073742049,
            KeyCode::SDLK_LALT => 1073742050,
            KeyCode::SDLK_LGUI => 1073742051,
            KeyCode::SDLK_RCTRL => 1073742052,
            KeyCode::SDLK_RSHIFT => 1073742053,
            KeyCode::SDLK_RALT => 1073742054,
            KeyCode::SDLK_RGUI => 1073742055,
            KeyCode::SDLK_MODE => 1073742081,
            KeyCode::SDLK_AUDIONEXT => 1073742082,
            KeyCode::SDLK_AUDIOPREV => 1073742083,
            KeyCode::SDLK_AUDIOSTOP => 1073742084,
            KeyCode::SDLK_AUDIOPLAY => 1073742085,
            KeyCode::SDLK_AUDIOMUTE => 1073742086,
            KeyCode::SDLK_MEDIASELECT => 1073742087,
            KeyCode::SDLK_WWW => 1073742088,
            KeyCode::SDLK_MAIL => 1073742089,
            KeyCode::SDLK_CALCULATOR => 1073742090,
            KeyCode::SDLK_COMPUTER => 1073742091,
            KeyCode::SDLK_AC_SEARCH => 1073742092,
            KeyCode::SDLK_AC_HOME => 1073742093,
            KeyCode::SDLK_AC_BACK => 1073742094,
            KeyCode::SDLK_AC_FORWARD => 1073742095,
            KeyCode::SDLK_AC_STOP => 1073742096,
            KeyCode::SDLK_AC_REFRESH => 1073742097,
            KeyCode::SDLK_AC_BOOKMARKS => 1073742098,
            KeyCode::SDLK_BRIGHTNESSDOWN => 1073742099,
            KeyCode::SDLK_BRIGHTNESSUP => 1073742100,
            KeyCode::SDLK_DISPLAYSWITCH => 1073742101,
            KeyCode::SDLK_KBDILLUMTOGGLE => 1073742102,
            KeyCode::SDLK_KBDILLUMDOWN => 1073742103,
            KeyCode::SDLK_KBDILLUMUP => 1073742104,
            KeyCode::SDLK_EJECT => 1073742105,
            KeyCode::SDLK_SLEEP => 1073742106,
            KeyCode::SDLK_APP1 => 1073742107,
            KeyCode::SDLK_APP2 => 1073742108,
            KeyCode::SDLK_AUDIOREWIND => 1073742109,
            KeyCode::SDLK_AUDIOFASTFORWARD => 1073742110,
        }
    }
}

/// Every key is recovered from its own key code.
pub proof fn lemma_key_code_round_trip(k: KeyCode)
    ensures
        key_of_code(key_code(k)) == k,
{
}

} // verus!
