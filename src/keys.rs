//! Key codes: Windows virtual-key codes, controller buttons, and the
//! names by which a configuration refers to them.
use vstd::prelude::*;
use vstd::string::{StrSliceExecFns, StringExecFns};

verus! {

/// Whether two strings hold the same characters.
pub(crate) fn str_eq(a: &str, b: &str) -> (r: bool)
    ensures
        r == (a@ == b@),
{
    let n = a.unicode_len();
    if n != b.unicode_len() {
        return false;
    }
    let mut i: usize = 0;
    while i < n
        invariant
            i <= n,
            n == a@.len(),
            n == b@.len(),
            forall|k: int| 0 <= k < i ==> a@[k] == b@[k],
        decreases n - i,
    {
        if a.get_char(i) != b.get_char(i) {
            return false;
        }
        i += 1;
    }
    assert(a@ =~= b@);
    true
}

/// The message of a failed parse of a key name.
pub open spec fn no_variant_message() -> Seq<char> {
    "Matching variant not found"@
}

fn no_variant() -> (r: String)
    ensures
        r@ == no_variant_message(),
{
    String::from_str("Matching variant not found")
}

/// A key as the game sees it: a keyboard or mouse key, or a controller button.
#[derive(Debug, Clone, Copy, PartialEq, Eq, Hash, Structural)]
pub enum GameKeyCode {
    KeyboardMouse(VKeyCode),
    Controller(ControllerCode),
}

/// Controller buttons, numbered in declaration order from 0.
#[derive(Debug, Clone, Copy, PartialEq, Eq, Hash, Structural)]
pub enum ControllerCode {
    LJoystickUp,
    LJoystickRight,
    LJoystickDown,
    LJoystickLeft,
    LJoystickPress,
    RJoystickUp,
    RJoystickRight,
    RJoystickDown,
    RJoystickLeft,
    RJoystickPress,
    LT,
    RT,
    LB,
    RB,
    Up,
    Right,
    Down,
    Left,
    Y,
    B,
    A,
    X,
    Window,
    Menu,
}

/// Windows virtual-key codes; `Other` holds any code without a name here.
#[derive(Debug, Clone, Copy, PartialEq, Eq, Hash, Structural)]
pub enum VKeyCode {
    LMouse,
    RMouse,
    Break,
    MMouse,
    BMouse,
    FMouse,
    Backspace,
    Tab,
    Enter,
    Shift,
    Ctrl,
    Alt,
    Pause,
    CapsLock,
    Esc,
    Space,
    PageUp,
    PageDown,
    End,
    Home,
    LeftArrow,
    UpArrow,
    RightArrow,
    DownArrow,
    PrintScreen,
    Insert,
    Delete,
    Num0,
    Num1,
    Num2,
    Num3,
    Num4,
    Num5,
    Num6,
    Num7,
    Num8,
    Num9,
    A,
    B,
    C,
    D,
    E,
    F,
    G,
    H,
    I,
    J,
    K,
    L,
    M,
    N,
    O,
    P,
    Q,
    R,
    S,
    T,
    U,
    V,
    W,
    X,
    Y,
    Z,
    LWin,
    RWin,
    SelectKey,
    Numpad0,
    Numpad1,
    Numpad2,
    Numpad3,
    Numpad4,
    Numpad5,
    Numpad6,
    Numpad7,
    Numpad8,
    Numpad9,
    Multiply,
    Add,
    Subtract,
    DecimalPoint,
    Divide,
    F1,
    F2,
    F3,
    F4,
    F5,
    F6,
    F7,
    F8,
    F9,
    F10,
    F11,
    F12,
    NumLock,
    ScrLk,
    Semicolon,
    EqualSign,
    Comma,
    Dash,
    Period,
    ForwardSlash,
    GraveAccent,
    OpenBracket,
    BackSlash,
    CloseBraket,
    SingleQuote,
    Other(i32),
}

/// The virtual-key code of a key.
pub open spec fn vkey_code(k: VKeyCode) -> i32 {
    match k {
        VKeyCode::LMouse => 1,
        VKeyCode::RMouse => 2,
        VKeyCode::Break => 3,
        VKeyCode::MMouse => 4,
        VKeyCode::BMouse => 5,
        VKeyCode::FMouse => 6,
        VKeyCode::Backspace => 8,
        VKeyCode::Tab => 9,
        VKeyCode::Enter => 13,
        VKeyCode::Shift => 16,
        VKeyCode::Ctrl => 17,
        VKeyCode::Alt => 18,
        VKeyCode::Pause => 19,
        VKeyCode::CapsLock => 20,
        VKeyCode::Esc => 27,
        VKeyCode::Space => 32,
        VKeyCode::PageUp => 33,
        VKeyCode::PageDown => 34,
        VKeyCode::End => 35,
        VKeyCode::Home => 36,
        VKeyCode::LeftArrow => 37,
        VKeyCode::UpArrow => 38,
        VKeyCode::RightArrow => 39,
        VKeyCode::DownArrow => 40,
        VKeyCode::PrintScreen => 44,
        VKeyCode::Insert => 45,
        VKeyCode::Delete => 46,
        VKeyCode::Num0 => 48,
        VKeyCode::Num1 => 49,
        VKeyCode::Num2 => 50,
        VKeyCode::Num3 => 51,
        VKeyCode::Num4 => 52,
        VKeyCode::Num5 => 53,
        VKeyCode::Num6 => 54,
        VKeyCode::Num7 => 55,
        VKeyCode::Num8 => 56,
        VKeyCode::Num9 => 57,
        VKeyCode::A => 65,
        VKeyCode::B => 66,
        VKeyCode::C => 67,
        VKeyCode::D => 68,
        VKeyCode::E => 69,
        VKeyCode::F => 70,
        VKeyCode::G => 71,
        VKeyCode::H => 72,
        VKeyCode::I => 73,
        VKeyCode::J => 74,
        VKeyCode::K => 75,
        VKeyCode::L => 76,
        VKeyCode::M => 77,
        VKeyCode::N => 78,
        VKeyCode::O => 79,
        VKeyCode::P => 80,
        VKeyCode::Q => 81,
        VKeyCode::R => 82,
        VKeyCode::S => 83,
        VKeyCode::T => 84,
        VKeyCode::U => 85,
        VKeyCode::V => 86,
        VKeyCode::W => 87,
        VKeyCode::X => 88,
        VKeyCode::Y => 89,
        VKeyCode::Z => 90,
        VKeyCode::LWin => 91,
        VKeyCode::RWin => 92,
        VKeyCode::SelectKey => 93,
        VKeyCode::Numpad0 => 96,
        VKeyCode::Numpad1 => 97,
        VKeyCode::Numpad2 => 98,
        VKeyCode::Numpad3 => 99,
        VKeyCode::Numpad4 => 100,
        VKeyCode::Numpad5 => 101,
        VKeyCode::Numpad6 => 102,
        VKeyCode::Numpad7 => 103,
        VKeyCode::Numpad8 => 104,
        VKeyCode::Numpad9 => 105,
        VKeyCode::Multiply => 106,
        VKeyCode::Add => 107,
        VKeyCode::Subtract => 109,
        VKeyCode::DecimalPoint => 110,
        VKeyCode::Divide => 111,
        VKeyCode::F1 => 112,
        VKeyCode::F2 => 113,
        VKeyCode::F3 => 114,
        VKeyCode::F4 => 115,
        VKeyCode::F5 => 116,
        VKeyCode::F6 => 117,
        VKeyCode::F7 => 118,
        VKeyCode::F8 => 119,
        VKeyCode::F9 => 120,
        VKeyCode::F10 => 121,
        VKeyCode::F11 => 122,
        VKeyCode::F12 => 123,
        VKeyCode::NumLock => 144,
        VKeyCode::ScrLk => 145,
        VKeyCode::Semicolon => 186,
        VKeyCode::EqualSign => 187,
        VKeyCode::Comma => 188,
        VKeyCode::Dash => 189,
        VKeyCode::Period => 190,
        VKeyCode::ForwardSlash => 191,
        VKeyCode::GraveAccent => 192,
        VKeyCode::OpenBracket => 219,
        VKeyCode::BackSlash => 220,
        VKeyCode::CloseBraket => 221,
        VKeyCode::SingleQuote => 222,
        VKeyCode::Other(c) => c,
    }
}

/// The name of a named key; `Other` has none.
pub open spec fn vkey_name(k: VKeyCode) -> Seq<char> {
    match k {
        VKeyCode::LMouse => "LMouse"@,
        VKeyCode::RMouse => "RMouse"@,
        VKeyCode::Break => "Break"@,
        VKeyCode::MMouse => "MMouse"@,
        VKeyCode::BMouse => "BMouse"@,
        VKeyCode::FMouse => "FMouse"@,
        VKeyCode::Backspace => "Backspace"@,
        VKeyCode::Tab => "Tab"@,
        VKeyCode::Enter => "Enter"@,
        VKeyCode::Shift => "Shift"@,
        VKeyCode::Ctrl => "Ctrl"@,
        VKeyCode::Alt => "Alt"@,
        VKeyCode::Pause => "Pause"@,
        VKeyCode::CapsLock => "CapsLock"@,
        VKeyCode::Esc => "Esc"@,
        VKeyCode::Space => "Space"@,
        VKeyCode::PageUp => "PageUp"@,
        VKeyCode::PageDown => "PageDown"@,
        VKeyCode::End => "End"@,
        VKeyCode::Home => "Home"@,
        VKeyCode::LeftArrow => "LeftArrow"@,
        VKeyCode::UpArrow => "UpArrow"@,
        VKeyCode::RightArrow => "RightArrow"@,
        VKeyCode::DownArrow => "DownArrow"@,
        VKeyCode::PrintScreen => "PrintScreen"@,
        VKeyCode::Insert => "Insert"@,
        VKeyCode::Delete => "Delete"@,
        VKeyCode::Num0 => "Num0"@,
        VKeyCode::Num1 => "Num1"@,
        VKeyCode::Num2 => "Num2"@,
        VKeyCode::Num3 => "Num3"@,
        VKeyCode::Num4 => "Num4"@,
        VKeyCode::Num5 => "Num5"@,
        VKeyCode::Num6 => "Num6"@,
        VKeyCode::Num7 => "Num7"@,
        VKeyCode::Num8 => "Num8"@,
        VKeyCode::Num9 => "Num9"@,
        VKeyCode::A => "A"@,
        VKeyCode::B => "B"@,
        VKeyCode::C => "C"@,
        VKeyCode::D => "D"@,
        VKeyCode::E => "E"@,
        VKeyCode::F => "F"@,
        VKeyCode::G => "G"@,
        VKeyCode::H => "H"@,
        VKeyCode::I => "I"@,
        VKeyCode::J => "J"@,
        VKeyCode::K => "K"@,
        VKeyCode::L => "L"@,
        VKeyCode::M => "M"@,
        VKeyCode::N => "N"@,
        VKeyCode::O => "O"@,
        VKeyCode::P => "P"@,
        VKeyCode::Q => "Q"@,
        VKeyCode::R => "R"@,
        VKeyCode::S => "S"@,
        VKeyCode::T => "T"@,
        VKeyCode::U => "U"@,
        VKeyCode::V => "V"@,
        VKeyCode::W => "W"@,
        VKeyCode::X => "X"@,
        VKeyCode::Y => "Y"@,
        VKeyCode::Z => "Z"@,
        VKeyCode::LWin => "LWin"@,
        VKeyCode::RWin => "RWin"@,
        VKeyCode::SelectKey => "SelectKey"@,
        VKeyCode::Numpad0 => "Numpad0"@,
        VKeyCode::Numpad1 => "Numpad1"@,
        VKeyCode::Numpad2 => "Numpad2"@,
        VKeyCode::Numpad3 => "Numpad3"@,
        VKeyCode::Numpad4 => "Numpad4"@,
        VKeyCode::Numpad5 => "Numpad5"@,
        VKeyCode::Numpad6 => "Numpad6"@,
        VKeyCode::Numpad7 => "Numpad7"@,
        VKeyCode::Numpad8 => "Numpad8"@,
        VKeyCode::Numpad9 => "Numpad9"@,
        VKeyCode::Multiply => "Multiply"@,
        VKeyCode::Add => "Add"@,
        VKeyCode::Subtract => "Subtract"@,
        VKeyCode::DecimalPoint => "DecimalPoint"@,
        VKeyCode::Divide => "Divide"@,
        VKeyCode::F1 => "F1"@,
        VKeyCode::F2 => "F2"@,
        VKeyCode::F3 => "F3"@,
        VKeyCode::F4 => "F4"@,
        VKeyCode::F5 => "F5"@,
        VKeyCode::F6 => "F6"@,
        VKeyCode::F7 => "F7"@,
        VKeyCode::F8 => "F8"@,
        VKeyCode::F9 => "F9"@,
        VKeyCode::F10 => "F10"@,
        VKeyCode::F11 => "F11"@,
        VKeyCode::F12 => "F12"@,
        VKeyCode::NumLock => "NumLock"@,
        VKeyCode::ScrLk => "ScrLk"@,
        VKeyCode::Semicolon => "Semicolon"@,
        VKeyCode::EqualSign => "EqualSign"@,
        VKeyCode::Comma => "Comma"@,
        VKeyCode::Dash => "Dash"@,
        VKeyCode::Period => "Period"@,
        VKeyCode::ForwardSlash => "ForwardSlash"@,
        VKeyCode::GraveAccent => "GraveAccent"@,
        VKeyCode::OpenBracket => "OpenBracket"@,
        VKeyCode::BackSlash => "BackSlash"@,
        VKeyCode::CloseBraket => "CloseBraket"@,
        VKeyCode::SingleQuote => "SingleQuote"@,
        VKeyCode::Other(_) => Seq::empty(),
    }
}

/// The number of a controller button.
pub open spec fn controller_index(k: ControllerCode) -> int {
    match k {
        ControllerCode::LJoystickUp => 0,
        ControllerCode::LJoystickRight => 1,
        ControllerCode::LJoystickDown => 2,
        ControllerCode::LJoystickLeft => 3,
        ControllerCode::LJoystickPress => 4,
        ControllerCode::RJoystickUp => 5,
        ControllerCode::RJoystickRight => 6,
        ControllerCode::RJoystickDown => 7,
        ControllerCode::RJoystickLeft => 8,
        ControllerCode::RJoystickPress => 9,
        ControllerCode::LT => 10,
        ControllerCode::RT => 11,
        ControllerCode::LB => 12,
        ControllerCode::RB => 13,
        ControllerCode::Up => 14,
        ControllerCode::Right => 15,
        ControllerCode::Down => 16,
        ControllerCode::Left => 17,
        ControllerCode::Y => 18,
        ControllerCode::B => 19,
        ControllerCode::A => 20,
        ControllerCode::X => 21,
        ControllerCode::Window => 22,
        ControllerCode::Menu => 23,
    }
}

/// The name of a controller button.
pub open spec fn controller_name(k: ControllerCode) -> Seq<char> {
    match k {
        ControllerCode::LJoystickUp => "LJoystickUp"@,
        ControllerCode::LJoystickRight => "LJoystickRight"@,
        ControllerCode::LJoystickDown => "LJoystickDown"@,
        ControllerCode::LJoystickLeft => "LJoystickLeft"@,
        ControllerCode::LJoystickPress => "LJoystickPress"@,
        ControllerCode::RJoystickUp => "RJoystickUp"@,
        ControllerCode::RJoystickRight => "RJoystickRight"@,
        ControllerCode::RJoystickDown => "RJoystickDown"@,
        ControllerCode::RJoystickLeft => "RJoystickLeft"@,
        ControllerCode::RJoystickPress => "RJoystickPress"@,
        ControllerCode::LT => "LT"@,
        ControllerCode::RT => "RT"@,
        ControllerCode::LB => "LB"@,
        ControllerCode::RB => "RB"@,
        ControllerCode::Up => "Up"@,
        ControllerCode::Right => "Right"@,
        ControllerCode::Down => "Down"@,
        ControllerCode::Left => "Left"@,
        ControllerCode::Y => "Y"@,
        ControllerCode::B => "B"@,
        ControllerCode::A => "A"@,
        ControllerCode::X => "X"@,
        ControllerCode::Window => "Window"@,
        ControllerCode::Menu => "Menu"@,
    }
}


/// The prefix that marks a controller button's name.
pub open spec fn controller_prefix() -> Seq<char> {
    "Controller:"@
}

impl GameKeyCode {
    /// A key from its configured name: `Controller:` and a button name, or
    /// a virtual-key name.
    pub fn from_str(code: &str) -> (r: Result<Self, String>)
        ensures
            code@.len() >= 11 && code@.subrange(0, 11) == controller_prefix() ==> match r {
                Ok(k) => k matches GameKeyCode::Controller(c) && controller_name(c) == code@.subrange(11, code@.len() as int),
                Err(e) => e@ == no_variant_message() && forall|c: ControllerCode|
                    controller_name(c) != code@.subrange(11, code@.len() as int),
            },
            !(code@.len() >= 11 && code@.subrange(0, 11) == controller_prefix()) ==> match r {
                Ok(k) => k matches GameKeyCode::KeyboardMouse(v) && !(v is Other) && vkey_name(v) == code@,
                Err(e) => e@ == no_variant_message() && forall|v: VKeyCode| !(v is Other) ==> vkey_name(v) != code@,
            },
    {
        let n = code.unicode_len();
        if n >= 11 {
            let head = code.substring_char(0, 11);
            if str_eq(head, "Controller:") {
                let rest = code.substring_char(11, n);
                return match ControllerCode::from_str(rest) {
                    Ok(c) => Ok(GameKeyCode::Controller(c)),
                    Err(e) => Err(e),
                };
            }
        }
        match VKeyCode::from_str(code) {
            Ok(v) => Ok(GameKeyCode::KeyboardMouse(v)),
            Err(e) => Err(e),
        }
    }
}

impl ControllerCode {
    /// The button numbered `code`; an unknown number gives `A`.
    pub fn from(code: usize) -> (r: Self)
        ensures
            code < 24 ==> controller_index(r) == code,
            code >= 24 ==> r == ControllerCode::A,
    {
        match code {
            0 => ControllerCode::LJoystickUp,
            1 => ControllerCode::LJoystickRight,
            2 => ControllerCode::LJoystickDown,
            3 => ControllerCode::LJoystickLeft,
            4 => ControllerCode::LJoystickPress,
            5 => ControllerCode::RJoystickUp,
            6 => ControllerCode::RJoystickRight,
            7 => ControllerCode::RJoystickDown,
            8 => ControllerCode::RJoystickLeft,
            9 => ControllerCode::RJoystickPress,
            10 => ControllerCode::LT,
            11 => ControllerCode::RT,
            12 => ControllerCode::LB,
            13 => ControllerCode::RB,
            14 => ControllerCode::Up,
            15 => ControllerCode::Right,
            16 => ControllerCode::Down,
            17 => ControllerCode::Left,
            18 => ControllerCode::Y,
            19 => ControllerCode::B,
            20 => ControllerCode::A,
            21 => ControllerCode::X,
            22 => ControllerCode::Window,
            23 => ControllerCode::Menu,
            _ => ControllerCode::A,
        }
    }

    /// The button of the given name.
    pub fn from_str(s: &str) -> (r: Result<Self, String>)
        ensures
            r matches Ok(k) ==> controller_name(k) == s@,
            r matches Err(e) ==> e@ == no_variant_message(),
            r is Err ==> forall|k: ControllerCode| controller_name(k) != s@,
    {
        if str_eq(s, "LJoystickUp") {
            return Ok(ControllerCode::LJoystickUp);
        }
        if str_eq(s, "LJoystickRight") {
            return Ok(ControllerCode::LJoystickRight);
        }
        if str_eq(s, "LJoystickDown") {
            return Ok(ControllerCode::LJoystickDown);
        }
        if str_eq(s, "LJoystickLeft") {
            return Ok(ControllerCode::LJoystickLeft);
        }
        if str_eq(s, "LJoystickPress") {
            return Ok(ControllerCode::LJoystickPress);
        }
        if str_eq(s, "RJoystickUp") {
            return Ok(ControllerCode::RJoystickUp);
        }
        if str_eq(s, "RJoystickRight") {
            return Ok(ControllerCode::RJoystickRight);
        }
        if str_eq(s, "RJoystickDown") {
            return Ok(ControllerCode::RJoystickDown);
        }
        if str_eq(s, "RJoystickLeft") {
            return Ok(ControllerCode::RJoystickLeft);
        }
        if str_eq(s, "RJoystickPress") {
            return Ok(ControllerCode::RJoystickPress);
        }
        if str_eq(s, "LT") {
            return Ok(ControllerCode::LT);
        }
        if str_eq(s, "RT") {
            return Ok(ControllerCode::RT);
        }
        if str_eq(s, "LB") {
            return Ok(ControllerCode::LB);
        }
        if str_eq(s, "RB") {
            return Ok(ControllerCode::RB);
        }
        if str_eq(s, "Up") {
            return Ok(ControllerCode::Up);
        }
        if str_eq(s, "Right") {
            return Ok(ControllerCode::Right);
        }
        if str_eq(s, "Down") {
            return Ok(ControllerCode::Down);
        }
        if str_eq(s, "Left") {
            return Ok(ControllerCode::Left);
        }
        if str_eq(s, "Y") {
            return Ok(ControllerCode::Y);
        }
        if str_eq(s, "B") {
            return Ok(ControllerCode::B);
        }
        if str_eq(s, "A") {
            return Ok(ControllerCode::A);
        }
        if str_eq(s, "X") {
            return Ok(ControllerCode::X);
        }
        if str_eq(s, "Window") {
            return Ok(ControllerCode::Window);
        }
        if str_eq(s, "Menu") {
            return Ok(ControllerCode::Menu);
        }
        Err(no_variant())
    }
}

impl VKeyCode {
    /// The key of virtual-key code `code`: the named key with that code, or
    /// else `Other(code)`.
    pub fn from(code: i32) -> (r: Self)
        ensures
            vkey_code(r) == code,
            r is Other ==> forall|k: VKeyCode| !(k is Other) ==> vkey_code(k) != code,
    {
        match code {
            1 => VKeyCode::LMouse,
            2 => VKeyCode::RMouse,
            3 => VKeyCode::Break,
            4 => VKeyCode::MMouse,
            5 => VKeyCode::BMouse,
            6 => VKeyCode::FMouse,
            8 => VKeyCode::Backspace,
            9 => VKeyCode::Tab,
            13 => VKeyCode::Enter,
            16 => VKeyCode::Shift,
            17 => VKeyCode::Ctrl,
            18 => VKeyCode::Alt,
            19 => VKeyCode::Pause,
            20 => VKeyCode::CapsLock,
            27 => VKeyCode::Esc,
            32 => VKeyCode::Space,
            33 => VKeyCode::PageUp,
            34 => VKeyCode::PageDown,
            35 => VKeyCode::End,
            36 => VKeyCode::Home,
            37 => VKeyCode::LeftArrow,
            38 => VKeyCode::UpArrow,
            39 => VKeyCode::RightArrow,
            40 => VKeyCode::DownArrow,
            44 => VKeyCode::PrintScreen,
            45 => VKeyCode::Insert,
            46 => VKeyCode::Delete,
            48 => VKeyCode::Num0,
            49 => VKeyCode::Num1,
            50 => VKeyCode::Num2,
            51 => VKeyCode::Num3,
            52 => VKeyCode::Num4,
            53 => VKeyCode::Num5,
            54 => VKeyCode::Num6,
            55 => VKeyCode::Num7,
            56 => VKeyCode::Num8,
            57 => VKeyCode::Num9,
            65 => VKeyCode::A,
            66 => VKeyCode::B,
            67 => VKeyCode::C,
            68 => VKeyCode::D,
            69 => VKeyCode::E,
            70 => VKeyCode::F,
            71 => VKeyCode::G,
            72 => VKeyCode::H,
            73 => VKeyCode::I,
            74 => VKeyCode::J,
            75 => VKeyCode::K,
            76 => VKeyCode::L,
            77 => VKeyCode::M,
            78 => VKeyCode::N,
            79 => VKeyCode::O,
            80 => VKeyCode::P,
            81 => VKeyCode::Q,
            82 => VKeyCode::R,
            83 => VKeyCode::S,
            84 => VKeyCode::T,
            85 => VKeyCode::U,
            86 => VKeyCode::V,
            87 => VKeyCode::W,
            88 => VKeyCode::X,
            89 => VKeyCode::Y,
            90 => VKeyCode::Z,
            91 => VKeyCode::LWin,
            92 => VKeyCode::RWin,
            93 => VKeyCode::SelectKey,
            96 => VKeyCode::Numpad0,
            97 => VKeyCode::Numpad1,
            98 => VKeyCode::Numpad2,
            99 => VKeyCode::Numpad3,
            100 => VKeyCode::Numpad4,
            101 => VKeyCode::Numpad5,
            102 => VKeyCode::Numpad6,
            103 => VKeyCode::Numpad7,
            104 => VKeyCode::Numpad8,
            105 => VKeyCode::Numpad9,
            106 => VKeyCode::Multiply,
            107 => VKeyCode::Add,
            109 => VKeyCode::Subtract,
            110 => VKeyCode::DecimalPoint,
            111 => VKeyCode::Divide,
            112 => VKeyCode::F1,
            113 => VKeyCode::F2,
            114 => VKeyCode::F3,
            115 => VKeyCode::F4,
            116 => VKeyCode::F5,
            117 => VKeyCode::F6,
            118 => VKeyCode::F7,
            119 => VKeyCode::F8,
            120 => VKeyCode::F9,
            121 => VKeyCode::F10,
            122 => VKeyCode::F11,
            123 => VKeyCode::F12,
            144 => VKeyCode::NumLock,
            145 => VKeyCode::ScrLk,
            186 => VKeyCode::Semicolon,
            187 => VKeyCode::EqualSign,
            188 => VKeyCode::Comma,
            189 => VKeyCode::Dash,
            190 => VKeyCode::Period,
            191 => VKeyCode::ForwardSlash,
            192 => VKeyCode::GraveAccent,
            219 => VKeyCode::OpenBracket,
            220 => VKeyCode::BackSlash,
            221 => VKeyCode::CloseBraket,
            222 => VKeyCode::SingleQuote,
            _ => VKeyCode::Other(code),
        }
    }

    /// The virtual-key code of this key.
    pub fn to_code(&self) -> (r: i32)
        ensures
            r == vkey_code(*self),
    {
        match self {
            VKeyCode::LMouse => 1,
            VKeyCode::RMouse => 2,
            VKeyCode::Break => 3,
            VKeyCode::MMouse => 4,
            VKeyCode::BMouse => 5,
            VKeyCode::FMouse => 6,
            VKeyCode::Backspace => 8,
            VKeyCode::Tab => 9,
            VKeyCode::Enter => 13,
            VKeyCode::Shift => 16,
            VKeyCode::Ctrl => 17,
            VKeyCode::Alt => 18,
            VKeyCode::Pause => 19,
            VKeyCode::CapsLock => 20,
            VKeyCode::Esc => 27,
            VKeyCode::Space => 32,
            VKeyCode::PageUp => 33,
            VKeyCode::PageDown => 34,
            VKeyCode::End => 35,
            VKeyCode::Home => 36,
            VKeyCode::LeftArrow => 37,
            VKeyCode::UpArrow => 38,
            VKeyCode::RightArrow => 39,
            VKeyCode::DownArrow => 40,
            VKeyCode::PrintScreen => 44,
            VKeyCode::Insert => 45,
            VKeyCode::Delete => 46,
            VKeyCode::Num0 => 48,
            VKeyCode::Num1 => 49,
            VKeyCode::Num2 => 50,
            VKeyCode::Num3 => 51,
            VKeyCode::Num4 => 52,
            VKeyCode::Num5 => 53,
            VKeyCode::Num6 => 54,
            VKeyCode::Num7 => 55,
            VKeyCode::Num8 => 56,
            VKeyCode::Num9 => 57,
            VKeyCode::A => 65,
            VKeyCode::B => 66,
            VKeyCode::C => 67,
            VKeyCode::D => 68,
            VKeyCode::E => 69,
            VKeyCode::F => 70,
            VKeyCode::G => 71,
            VKeyCode::H => 72,
            VKeyCode::I => 73,
            VKeyCode::J => 74,
            VKeyCode::K => 75,
            VKeyCode::L => 76,
            VKeyCode::M => 77,
            VKeyCode::N => 78,
            VKeyCode::O => 79,
            VKeyCode::P => 80,
            VKeyCode::Q => 81,
            VKeyCode::R => 82,
            VKeyCode::S => 83,
            VKeyCode::T => 84,
            VKeyCode::U => 85,
            VKeyCode::V => 86,
            VKeyCode::W => 87,
            VKeyCode::X => 88,
            VKeyCode::Y => 89,
            VKeyCode::Z => 90,
            VKeyCode::LWin => 91,
            VKeyCode::RWin => 92,
            VKeyCode::SelectKey => 93,
            VKeyCode::Numpad0 => 96,
            VKeyCode::Numpad1 => 97,
            VKeyCode::Numpad2 => 98,
            VKeyCode::Numpad3 => 99,
            VKeyCode::Numpad4 => 100,
            VKeyCode::Numpad5 => 101,
            VKeyCode::Numpad6 => 102,
            VKeyCode::Numpad7 => 103,
            VKeyCode::Numpad8 => 104,
            VKeyCode::Numpad9 => 105,
            VKeyCode::Multiply => 106,
            VKeyCode::Add => 107,
            VKeyCode::Subtract => 109,
            VKeyCode::DecimalPoint => 110,
            VKeyCode::Divide => 111,
            VKeyCode::F1 => 112,
            VKeyCode::F2 => 113,
            VKeyCode::F3 => 114,
            VKeyCode::F4 => 115,
            VKeyCode::F5 => 116,
            VKeyCode::F6 => 117,
            VKeyCode::F7 => 118,
            VKeyCode::F8 => 119,
            VKeyCode::F9 => 120,
            VKeyCode::F10 => 121,
            VKeyCode::F11 => 122,
            VKeyCode::F12 => 123,
            VKeyCode::NumLock => 144,
            VKeyCode::ScrLk => 145,
            VKeyCode::Semicolon => 186,
            VKeyCode::EqualSign => 187,
            VKeyCode::Comma => 188,
            VKeyCode::Dash => 189,
            VKeyCode::Period => 190,
            VKeyCode::ForwardSlash => 191,
            VKeyCode::GraveAccent => 192,
            VKeyCode::OpenBracket => 219,
            VKeyCode::BackSlash => 220,
            VKeyCode::CloseBraket => 221,
            VKeyCode::SingleQuote => 222,
            VKeyCode::Other(c) => *c,
        }
    }

    /// The named key of the given name.
    pub fn from_str(s: &str) -> (r: Result<Self, String>)
        ensures
            r matches Ok(k) ==> !(k is Other) && vkey_name(k) == s@,
            r matches Err(e) ==> e@ == no_variant_message(),
            r is Err ==> forall|k: VKeyCode| !(k is Other) ==> vkey_name(k) != s@,
    {
        if str_eq(s, "LMouse") {
            return Ok(VKeyCode::LMouse);
        }
        if str_eq(s, "RMouse") {
            return Ok(VKeyCode::RMouse);
        }
        if str_eq(s, "Break") {
            return Ok(VKeyCode::Break);
        }
        if str_eq(s, "MMouse") {
            return Ok(VKeyCode::MMouse);
        }
        if str_eq(s, "BMouse") {
            return Ok(VKeyCode::BMouse);
        }
        if str_eq(s, "FMouse") {
            return Ok(VKeyCode::FMouse);
        }
        if str_eq(s, "Backspace") {
            return Ok(VKeyCode::Backspace);
        }
        if str_eq(s, "Tab") {
            return Ok(VKeyCode::Tab);
        }
        if str_eq(s, "Enter") {
            return Ok(VKeyCode::Enter);
        }
        if str_eq(s, "Shift") {
            return Ok(VKeyCode::Shift);
        }
        if str_eq(s, "Ctrl") {
            return Ok(VKeyCode::Ctrl);
        }
        if str_eq(s, "Alt") {
            return Ok(VKeyCode::Alt);
        }
        if str_eq(s, "Pause") {
            return Ok(VKeyCode::Pause);
        }
        if str_eq(s, "CapsLock") {
            return Ok(VKeyCode::CapsLock);
        }
        if str_eq(s, "Esc") {
            return Ok(VKeyCode::Esc);
        }
        if str_eq(s, "Space") {
            return Ok(VKeyCode::Space);
        }
        if str_eq(s, "PageUp") {
            return Ok(VKeyCode::PageUp);
        }
        if str_eq(s, "PageDown") {
            return Ok(VKeyCode::PageDown);
        }
        if str_eq(s, "End") {
            return Ok(VKeyCode::End);
        }
        if str_eq(s, "Home") {
            return Ok(VKeyCode::Home);
        }
        if str_eq(s, "LeftArrow") {
            return Ok(VKeyCode::LeftArrow);
        }
        if str_eq(s, "UpArrow") {
            return Ok(VKeyCode::UpArrow);
        }
        if str_eq(s, "RightArrow") {
            return Ok(VKeyCode::RightArrow);
        }
        if str_eq(s, "DownArrow") {
            return Ok(VKeyCode::DownArrow);
        }
        if str_eq(s, "PrintScreen") {
            return Ok(VKeyCode::PrintScreen);
        }
        if str_eq(s, "Insert") {
            return Ok(VKeyCode::Insert);
        }
        if str_eq(s, "Delete") {
            return Ok(VKeyCode::Delete);
        }
        if str_eq(s, "Num0") {
            return Ok(VKeyCode::Num0);
        }
        if str_eq(s, "Num1") {
            return Ok(VKeyCode::Num1);
        }
        if str_eq(s, "Num2") {
            return Ok(VKeyCode::Num2);
        }
        if str_eq(s, "Num3") {
            return Ok(VKeyCode::Num3);
        }
        if str_eq(s, "Num4") {
            return Ok(VKeyCode::Num4);
        }
        if str_eq(s, "Num5") {
            return Ok(VKeyCode::Num5);
        }
        if str_eq(s, "Num6") {
            return Ok(VKeyCode::Num6);
        }
        if str_eq(s, "Num7") {
            return Ok(VKeyCode::Num7);
        }
        if str_eq(s, "Num8") {
            return Ok(VKeyCode::Num8);
        }
        if str_eq(s, "Num9") {
            return Ok(VKeyCode::Num9);
        }
        if str_eq(s, "A") {
            return Ok(VKeyCode::A);
        }
        if str_eq(s, "B") {
            return Ok(VKeyCode::B);
        }
        if str_eq(s, "C") {
            return Ok(VKeyCode::C);
        }
        if str_eq(s, "D") {
            return Ok(VKeyCode::D);
        }
        if str_eq(s, "E") {
            return Ok(VKeyCode::E);
        }
        if str_eq(s, "F") {
            return Ok(VKeyCode::F);
        }
        if str_eq(s, "G") {
            return Ok(VKeyCode::G);
        }
        if str_eq(s, "H") {
            return Ok(VKeyCode::H);
        }
        if str_eq(s, "I") {
            return Ok(VKeyCode::I);
        }
        if str_eq(s, "J") {
            return Ok(VKeyCode::J);
        }
        if str_eq(s, "K") {
            return Ok(VKeyCode::K);
        }
        if str_eq(s, "L") {
            return Ok(VKeyCode::L);
        }
        if str_eq(s, "M") {
            return Ok(VKeyCode::M);
        }
        if str_eq(s, "N") {
            return Ok(VKeyCode::N);
        }
        if str_eq(s, "O") {
            return Ok(VKeyCode::O);
        }
        if str_eq(s, "P") {
            return Ok(VKeyCode::P);
        }
        if str_eq(s, "Q") {
            return Ok(VKeyCode::Q);
        }
        if str_eq(s, "R") {
            return Ok(VKeyCode::R);
        }
        if str_eq(s, "S") {
            return Ok(VKeyCode::S);
        }
        if str_eq(s, "T") {
            return Ok(VKeyCode::T);
        }
        if str_eq(s, "U") {
            return Ok(VKeyCode::U);
        }
        if str_eq(s, "V") {
            return Ok(VKeyCode::V);
        }
        if str_eq(s, "W") {
            return Ok(VKeyCode::W);
        }
        if str_eq(s, "X") {
            return Ok(VKeyCode::X);
        }
        if str_eq(s, "Y") {
            return Ok(VKeyCode::Y);
        }
        if str_eq(s, "Z") {
            return Ok(VKeyCode::Z);
        }
        if str_eq(s, "LWin") {
            return Ok(VKeyCode::LWin);
        }
        if str_eq(s, "RWin") {
            return Ok(VKeyCode::RWin);
        }
        if str_eq(s, "SelectKey") {
            return Ok(VKeyCode::SelectKey);
        }
        if str_eq(s, "Numpad0") {
            return Ok(VKeyCode::Numpad0);
        }
        if str_eq(s, "Numpad1") {
            return Ok(VKeyCode::Numpad1);
        }
        if str_eq(s, "Numpad2") {
            return Ok(VKeyCode::Numpad2);
        }
        if str_eq(s, "Numpad3") {
            return Ok(VKeyCode::Numpad3);
        }
        if str_eq(s, "Numpad4") {
            return Ok(VKeyCode::Numpad4);
        }
        if str_eq(s, "Numpad5") {
            return Ok(VKeyCode::Numpad5);
        }
        if str_eq(s, "Numpad6") {
            return Ok(VKeyCode::Numpad6);
        }
        if str_eq(s, "Numpad7") {
            return Ok(VKeyCode::Numpad7);
        }
        if str_eq(s, "Numpad8") {
            return Ok(VKeyCode::Numpad8);
        }
        if str_eq(s, "Numpad9") {
            return Ok(VKeyCode::Numpad9);
        }
        if str_eq(s, "Multiply") {
            return Ok(VKeyCode::Multiply);
        }
        if str_eq(s, "Add") {
            return Ok(VKeyCode::Add);
        }
        if str_eq(s, "Subtract") {
            return Ok(VKeyCode::Subtract);
        }
        if str_eq(s, "DecimalPoint") {
            return Ok(VKeyCode::DecimalPoint);
        }
        if str_eq(s, "Divide") {
            return Ok(VKeyCode::Divide);
        }
        if str_eq(s, "F1") {
            return Ok(VKeyCode::F1);
        }
        if str_eq(s, "F2") {
            return Ok(VKeyCode::F2);
        }
        if str_eq(s, "F3") {
            return Ok(VKeyCode::F3);
        }
        if str_eq(s, "F4") {
            return Ok(VKeyCode::F4);
        }
        if str_eq(s, "F5") {
            return Ok(VKeyCode::F5);
        }
        if str_eq(s, "F6") {
            return Ok(VKeyCode::F6);
        }
        if str_eq(s, "F7") {
            return Ok(VKeyCode::F7);
        }
        if str_eq(s, "F8") {
            return Ok(VKeyCode::F8);
        }
        if str_eq(s, "F9") {
            return Ok(VKeyCode::F9);
        }
        if str_eq(s, "F10") {
            return Ok(VKeyCode::F10);
        }
        if str_eq(s, "F11") {
            return Ok(VKeyCode::F11);
        }
        if str_eq(s, "F12") {
            return Ok(VKeyCode::F12);
        }
        if str_eq(s, "NumLock") {
            return Ok(VKeyCode::NumLock);
        }
        if str_eq(s, "ScrLk") {
            return Ok(VKeyCode::ScrLk);
        }
        if str_eq(s, "Semicolon") {
            return Ok(VKeyCode::Semicolon);
        }
        if str_eq(s, "EqualSign") {
            return Ok(VKeyCode::EqualSign);
        }
        if str_eq(s, "Comma") {
            return Ok(VKeyCode::Comma);
        }
        if str_eq(s, "Dash") {
            return Ok(VKeyCode::Dash);
        }
        if str_eq(s, "Period") {
            return Ok(VKeyCode::Period);
        }
        if str_eq(s, "ForwardSlash") {
            return Ok(VKeyCode::ForwardSlash);
        }
        if str_eq(s, "GraveAccent") {
            return Ok(VKeyCode::GraveAccent);
        }
        if str_eq(s, "OpenBracket") {
            return Ok(VKeyCode::OpenBracket);
        }
        if str_eq(s, "BackSlash") {
            return Ok(VKeyCode::BackSlash);
        }
        if str_eq(s, "CloseBraket") {
            return Ok(VKeyCode::CloseBraket);
        }
        if str_eq(s, "SingleQuote") {
            return Ok(VKeyCode::SingleQuote);
        }
        Err(no_variant())
    }
}

} // verus!
