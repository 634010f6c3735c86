//! Names of keys for display, and queries that treat the left and the
//! right modifier key of a kind as one.
use vstd::prelude::*;
use vstd::string::StringExecFns;

verus! {

/// The platform's own code of a key that has no name.
#[derive(Clone, Copy, Debug, PartialEq, Eq, Structural, Hash)]
pub enum NativeKeyCode {
    Unidentified,
    Android(u32),
    MacOS(u16),
    Windows(u16),
    Xkb(u32),
}

/// The physical key of a keyboard event.
#[derive(Clone, Copy, Debug, PartialEq, Eq, Structural, Hash)]
pub enum KeyCode {
    Unidentified(NativeKeyCode),
    Backquote,
    Backslash,
    BracketLeft,
    BracketRight,
    Comma,
    Digit0,
    Digit1,
    Digit2,
    Digit3,
    Digit4,
    Digit5,
    Digit6,
    Digit7,
    Digit8,
    Digit9,
    Equal,
    IntlBackslash,
    IntlRo,
    IntlYen,
    KeyA,
    KeyB,
    KeyC,
    KeyD,
    KeyE,
    KeyF,
    KeyG,
    KeyH,
    KeyI,
    KeyJ,
    KeyK,
    KeyL,
    KeyM,
    KeyN,
    KeyO,
    KeyP,
    KeyQ,
    KeyR,
    KeyS,
    KeyT,
    KeyU,
    KeyV,
    KeyW,
    KeyX,
    KeyY,
    KeyZ,
    Minus,
    Period,
    Quote,
    Semicolon,
    Slash,
    AltLeft,
    AltRight,
    Backspace,
    CapsLock,
    ContextMenu,
    ControlLeft,
    ControlRight,
    Enter,
    SuperLeft,
    SuperRight,
    ShiftLeft,
    ShiftRight,
    Space,
    Tab,
    Convert,
    KanaMode,
    Lang1,
    Lang2,
    Lang3,
    Lang4,
    Lang5,
    NonConvert,
    Delete,
    End,
    Help,
    Home,
    Insert,
    PageDown,
    PageUp,
    ArrowDown,
    ArrowLeft,
    ArrowRight,
    ArrowUp,
    NumLock,
    Numpad0,
    Numpad1,
    Numpad2,
    Numpad3,
    Numpad4,
    Numpad5,
    Numpad6,
    Numpad7,
    Numpad8,
    Numpad9,
    NumpadAdd,
    NumpadBackspace,
    NumpadClear,
    NumpadClearEntry,
    NumpadComma,
    NumpadDecimal,
    NumpadDivide,
    NumpadEnter,
    NumpadEqual,
    NumpadHash,
    NumpadMemoryAdd,
    NumpadMemoryClear,
    NumpadMemoryRecall,
    NumpadMemoryStore,
    NumpadMemorySubtract,
    NumpadMultiply,
    NumpadParenLeft,
    NumpadParenRight,
    NumpadStar,
    NumpadSubtract,
    Escape,
    Fn,
    FnLock,
    PrintScreen,
    ScrollLock,
    Pause,
    BrowserBack,
    BrowserFavorites,
    BrowserForward,
    BrowserHome,
    BrowserRefresh,
    BrowserSearch,
    BrowserStop,
    Eject,
    LaunchApp1,
    LaunchApp2,
    LaunchMail,
    MediaPlayPause,
    MediaSelect,
    MediaStop,
    MediaTrackNext,
    MediaTrackPrevious,
    Power,
    Sleep,
    AudioVolumeDown,
    AudioVolumeMute,
    AudioVolumeUp,
    WakeUp,
    Meta,
    Hyper,
    Turbo,
    Abort,
    Resume,
    Suspend,
    Again,
    Copy,
    Cut,
    Find,
    Open,
    Paste,
    Props,
    Select,
    Undo,
    Hiragana,
    Katakana,
    F1,
    F2,
    F3,
    F4,
    F5,
    F6,
    F7,
    F8,
    F9,
    F10,
    F11,
    F12,
    F13,
    F14,
    F15,
    F16,
    F17,
    F18,
    F19,
    F20,
    F21,
    F22,
    F23,
    F24,
    F25,
    F26,
    F27,
    F28,
    F29,
    F30,
    F31,
    F32,
    F33,
    F34,
    F35,
}

/// The decimal digit `d`.
pub open spec fn digit(d: nat) -> Seq<char> {
    if d == 0 {
        "0"@
    } else if d == 1 {
        "1"@
    } else if d == 2 {
        "2"@
    } else if d == 3 {
        "3"@
    } else if d == 4 {
        "4"@
    } else if d == 5 {
        "5"@
    } else if d == 6 {
        "6"@
    } else if d == 7 {
        "7"@
    } else if d == 8 {
        "8"@
    } else {
        "9"@
    }
}

/// The number `n` in decimal notation.
pub open spec fn decimal(n: nat) -> Seq<char>
    decreases n,
{
    if n < 10 {
        digit(n)
    } else {
        decimal(n / 10) + digit(n % 10)
    }
}

fn digit_text(d: u32) -> (r: &'static str)
    requires
        d < 10,
    ensures
        r@ == digit(d as nat),
{
    if d == 0 {
        "0"
    } else if d == 1 {
        "1"
    } else if d == 2 {
        "2"
    } else if d == 3 {
        "3"
    } else if d == 4 {
        "4"
    } else if d == 5 {
        "5"
    } else if d == 6 {
        "6"
    } else if d == 7 {
        "7"
    } else if d == 8 {
        "8"
    } else {
        "9"
    }
}

/// Writes a number in decimal notation.
pub fn decimal_text(n: u32) -> (r: String)
    ensures
        r@ == decimal(n as nat),
    decreases n,
{
    if n < 10 {
        String::from_str(digit_text(n))
    } else {
        let mut text = decimal_text(n / 10);
        text.append(digit_text(n % 10));
        text
    }
}

impl NativeKeyCode {
    /// The name of the code as it is shown.
    pub open spec fn name_spec(self) -> Seq<char> {
        match self {
            NativeKeyCode::Unidentified => "Unidentified"@,
            NativeKeyCode::Android(code) => "Android("@ + decimal(code as nat) + ")"@,
            NativeKeyCode::MacOS(code) => "MacOS("@ + decimal(code as nat) + ")"@,
            NativeKeyCode::Windows(code) => "Windows("@ + decimal(code as nat) + ")"@,
            NativeKeyCode::Xkb(code) => "Xkb("@ + decimal(code as nat) + ")"@,
        }
    }

    /// The name of the code as it is shown.
    pub fn name(&self) -> (r: String)
        ensures
            r@ == self.name_spec(),
    {
        match self {
            NativeKeyCode::Unidentified => String::from_str("Unidentified"),
            NativeKeyCode::Android(code) => wrapped("Android(", *code),
            NativeKeyCode::MacOS(code) => wrapped("MacOS(", *code as u32),
            NativeKeyCode::Windows(code) => wrapped("Windows(", *code as u32),
            NativeKeyCode::Xkb(code) => wrapped("Xkb(", *code),
        }
    }
}

fn wrapped(open: &str, code: u32) -> (r: String)
    ensures
        r@ == open@ + decimal(code as nat) + ")"@,
{
    let mut text = String::from_str(open);
    let number = decimal_text(code);
    text.append(number.as_str());
    text.append(")");
    text
}

impl KeyCode {
    /// The name of the key: the name of its variant, with the platform's
    /// code in brackets for a key without a name.
    pub open spec fn name_spec(self) -> Seq<char> {
        match self {
            KeyCode::Unidentified(native) => "Unidentified("@ + native.name_spec() + ")"@,
            KeyCode::Backquote => "Backquote"@,
            KeyCode::Backslash => "Backslash"@,
            KeyCode::BracketLeft => "BracketLeft"@,
            KeyCode::BracketRight => "BracketRight"@,
            KeyCode::Comma => "Comma"@,
            KeyCode::Digit0 => "Digit0"@,
            KeyCode::Digit1 => "Digit1"@,
            KeyCode::Digit2 => "Digit2"@,
            KeyCode::Digit3 => "Digit3"@,
            KeyCode::Digit4 => "Digit4"@,
            KeyCode::Digit5 => "Digit5"@,
            KeyCode::Digit6 => "Digit6"@,
            KeyCode::Digit7 => "Digit7"@,
            KeyCode::Digit8 => "Digit8"@,
            KeyCode::Digit9 => "Digit9"@,
            KeyCode::Equal => "Equal"@,
            KeyCode::IntlBackslash => "IntlBackslash"@,
            KeyCode::IntlRo => "IntlRo"@,
            KeyCode::IntlYen => "IntlYen"@,
            KeyCode::KeyA => "KeyA"@,
            KeyCode::KeyB => "KeyB"@,
            KeyCode::KeyC => "KeyC"@,
            KeyCode::KeyD => "KeyD"@,
            KeyCode::KeyE => "KeyE"@,
            KeyCode::KeyF => "KeyF"@,
            KeyCode::KeyG => "KeyG"@,
            KeyCode::KeyH => "KeyH"@,
            KeyCode::KeyI => "KeyI"@,
            KeyCode::KeyJ => "KeyJ"@,
            KeyCode::KeyK => "KeyK"@,
            KeyCode::KeyL => "KeyL"@,
            KeyCode::KeyM => "KeyM"@,
            KeyCode::KeyN => "KeyN"@,
            KeyCode::KeyO => "KeyO"@,
            KeyCode::KeyP => "KeyP"@,
            KeyCode::KeyQ => "KeyQ"@,
            KeyCode::KeyR => "KeyR"@,
            KeyCode::KeyS => "KeyS"@,
            KeyCode::KeyT => "KeyT"@,
            KeyCode::KeyU => "KeyU"@,
            KeyCode::KeyV => "KeyV"@,
            KeyCode::KeyW => "KeyW"@,
            KeyCode::KeyX => "KeyX"@,
            KeyCode::KeyY => "KeyY"@,
            KeyCode::KeyZ => "KeyZ"@,
            KeyCode::Minus => "Minus"@,
            KeyCode::Period => "Period"@,
            KeyCode::Quote => "Quote"@,
            KeyCode::Semicolon => "Semicolon"@,
            KeyCode::Slash => "Slash"@,
            KeyCode::AltLeft => "AltLeft"@,
            KeyCode::AltRight => "AltRight"@,
            KeyCode::Backspace => "Backspace"@,
            KeyCode::CapsLock => "CapsLock"@,
            KeyCode::ContextMenu => "ContextMenu"@,
            KeyCode::ControlLeft => "ControlLeft"@,
            KeyCode::ControlRight => "ControlRight"@,
            KeyCode::Enter => "Enter"@,
            KeyCode::SuperLeft => "SuperLeft"@,
            KeyCode::SuperRight => "SuperRight"@,
            KeyCode::ShiftLeft => "ShiftLeft"@,
            KeyCode::ShiftRight => "ShiftRight"@,
            KeyCode::Space => "Space"@,
            KeyCode::Tab => "Tab"@,
            KeyCode::Convert => "Convert"@,
            KeyCode::KanaMode => "KanaMode"@,
            KeyCode::Lang1 => "Lang1"@,
            KeyCode::Lang2 => "Lang2"@,
            KeyCode::Lang3 => "Lang3"@,
            KeyCode::Lang4 => "Lang4"@,
            KeyCode::Lang5 => "Lang5"@,
            KeyCode::NonConvert => "NonConvert"@,
            KeyCode::Delete => "Delete"@,
            KeyCode::End => "End"@,
            KeyCode::Help => "Help"@,
            KeyCode::Home => "Home"@,
            KeyCode::Insert => "Insert"@,
            KeyCode::PageDown => "PageDown"@,
            KeyCode::PageUp => "PageUp"@,
            KeyCode::ArrowDown => "ArrowDown"@,
            KeyCode::ArrowLeft => "ArrowLeft"@,
            KeyCode::ArrowRight => "ArrowRight"@,
            KeyCode::ArrowUp => "ArrowUp"@,
            KeyCode::NumLock => "NumLock"@,
            KeyCode::Numpad0 => "Numpad0"@,
            KeyCode::Numpad1 => "Numpad1"@,
            KeyCode::Numpad2 => "Numpad2"@,
            KeyCode::Numpad3 => "Numpad3"@,
            KeyCode::Numpad4 => "Numpad4"@,
            KeyCode::Numpad5 => "Numpad5"@,
            KeyCode::Numpad6 => "Numpad6"@,
            KeyCode::Numpad7 => "Numpad7"@,
            KeyCode::Numpad8 => "Numpad8"@,
            KeyCode::Numpad9 => "Numpad9"@,
            KeyCode::NumpadAdd => "NumpadAdd"@,
            KeyCode::NumpadBackspace => "NumpadBackspace"@,
            KeyCode::NumpadClear => "NumpadClear"@,
            KeyCode::NumpadClearEntry => "NumpadClearEntry"@,
            KeyCode::NumpadComma => "NumpadComma"@,
            KeyCode::NumpadDecimal => "NumpadDecimal"@,
            KeyCode::NumpadDivide => "NumpadDivide"@,
            KeyCode::NumpadEnter => "NumpadEnter"@,
            KeyCode::NumpadEqual => "NumpadEqual"@,
            KeyCode::NumpadHash => "NumpadHash"@,
            KeyCode::NumpadMemoryAdd => "NumpadMemoryAdd"@,
            KeyCode::NumpadMemoryClear => "NumpadMemoryClear"@,
            KeyCode::NumpadMemoryRecall => "NumpadMemoryRecall"@,
            KeyCode::NumpadMemoryStore => "NumpadMemoryStore"@,
            KeyCode::NumpadMemorySubtract => "NumpadMemorySubtract"@,
            KeyCode::NumpadMultiply => "NumpadMultiply"@,
            KeyCode::NumpadParenLeft => "NumpadParenLeft"@,
            KeyCode::NumpadParenRight => "NumpadParenRight"@,
            KeyCode::NumpadStar => "NumpadStar"@,
            KeyCode::NumpadSubtract => "NumpadSubtract"@,
            KeyCode::Escape => "Escape"@,
            KeyCode::Fn => "Fn"@,
            KeyCode::FnLock => "FnLock"@,
            KeyCode::PrintScreen => "PrintScreen"@,
            KeyCode::ScrollLock => "ScrollLock"@,
            KeyCode::Pause => "Pause"@,
            KeyCode::BrowserBack => "BrowserBack"@,
            KeyCode::BrowserFavorites => "BrowserFavorites"@,
            KeyCode::BrowserForward => "BrowserForward"@,
            KeyCode::BrowserHome => "BrowserHome"@,
            KeyCode::BrowserRefresh => "BrowserRefresh"@,
            KeyCode::BrowserSearch => "BrowserSearch"@,
            KeyCode::BrowserStop => "BrowserStop"@,
            KeyCode::Eject => "Eject"@,
            KeyCode::LaunchApp1 => "LaunchApp1"@,
            KeyCode::LaunchApp2 => "LaunchApp2"@,
            KeyCode::LaunchMail => "LaunchMail"@,
            KeyCode::MediaPlayPause => "MediaPlayPause"@,
            KeyCode::MediaSelect => "MediaSelect"@,
            KeyCode::MediaStop => "MediaStop"@,
            KeyCode::MediaTrackNext => "MediaTrackNext"@,
            KeyCode::MediaTrackPrevious => "MediaTrackPrevious"@,
            KeyCode::Power => "Power"@,
            KeyCode::Sleep => "Sleep"@,
            KeyCode::AudioVolumeDown => "AudioVolumeDown"@,
            KeyCode::AudioVolumeMute => "AudioVolumeMute"@,
            KeyCode::AudioVolumeUp => "AudioVolumeUp"@,
            KeyCode::WakeUp => "WakeUp"@,
            KeyCode::Meta => "Meta"@,
            KeyCode::Hyper => "Hyper"@,
            KeyCode::Turbo => "Turbo"@,
            KeyCode::Abort => "Abort"@,
            KeyCode::Resume => "Resume"@,
            KeyCode::Suspend => "Suspend"@,
            KeyCode::Again => "Again"@,
            KeyCode::Copy => "Copy"@,
            KeyCode::Cut => "Cut"@,
            KeyCode::Find => "Find"@,
            KeyCode::Open => "Open"@,
            KeyCode::Paste => "Paste"@,
            KeyCode::Props => "Props"@,
            KeyCode::Select => "Select"@,
            KeyCode::Undo => "Undo"@,
            KeyCode::Hiragana => "Hiragana"@,
            KeyCode::Katakana => "Katakana"@,
            KeyCode::F1 => "F1"@,
            KeyCode::F2 => "F2"@,
            KeyCode::F3 => "F3"@,
            KeyCode::F4 => "F4"@,
            KeyCode::F5 => "F5"@,
            KeyCode::F6 => "F6"@,
            KeyCode::F7 => "F7"@,
            KeyCode::F8 => "F8"@,
            KeyCode::F9 => "F9"@,
            KeyCode::F10 => "F10"@,
            KeyCode::F11 => "F11"@,
            KeyCode::F12 => "F12"@,
            KeyCode::F13 => "F13"@,
            KeyCode::F14 => "F14"@,
            KeyCode::F15 => "F15"@,
            KeyCode::F16 => "F16"@,
            KeyCode::F17 => "F17"@,
            KeyCode::F18 => "F18"@,
            KeyCode::F19 => "F19"@,
            KeyCode::F20 => "F20"@,
            KeyCode::F21 => "F21"@,
            KeyCode::F22 => "F22"@,
            KeyCode::F23 => "F23"@,
            KeyCode::F24 => "F24"@,
            KeyCode::F25 => "F25"@,
            KeyCode::F26 => "F26"@,
            KeyCode::F27 => "F27"@,
            KeyCode::F28 => "F28"@,
            KeyCode::F29 => "F29"@,
            KeyCode::F30 => "F30"@,
            KeyCode::F31 => "F31"@,
            KeyCode::F32 => "F32"@,
            KeyCode::F33 => "F33"@,
            KeyCode::F34 => "F34"@,
            KeyCode::F35 => "F35"@,
        }
    }

    /// The name of the key.
    pub fn name(&self) -> (r: String)
        ensures
            r@ == self.name_spec(),
    {
        match self {
            KeyCode::Unidentified(native) => {
                let mut text = String::from_str("Unidentified(");
                let inner = native.name();
                text.append(inner.as_str());
                text.append(")");
                text
            },
            KeyCode::Backquote => String::from_str("Backquote"),
            KeyCode::Backslash => String::from_str("Backslash"),
            KeyCode::BracketLeft => String::from_str("BracketLeft"),
            KeyCode::BracketRight => String::from_str("BracketRight"),
            KeyCode::Comma => String::from_str("Comma"),
            KeyCode::Digit0 => String::from_str("Digit0"),
            KeyCode::Digit1 => String::from_str("Digit1"),
            KeyCode::Digit2 => String::from_str("Digit2"),
            KeyCode::Digit3 => String::from_str("Digit3"),
            KeyCode::Digit4 => String::from_str("Digit4"),
            KeyCode::Digit5 => String::from_str("Digit5"),
            KeyCode::Digit6 => String::from_str("Digit6"),
            KeyCode::Digit7 => String::from_str("Digit7"),
            KeyCode::Digit8 => String::from_str("Digit8"),
            KeyCode::Digit9 => String::from_str("Digit9"),
            KeyCode::Equal => String::from_str("Equal"),
            KeyCode::IntlBackslash => String::from_str("IntlBackslash"),
            KeyCode::IntlRo => String::from_str("IntlRo"),
            KeyCode::IntlYen => String::from_str("IntlYen"),
            KeyCode::KeyA => String::from_str("KeyA"),
            KeyCode::KeyB => String::from_str("KeyB"),
            KeyCode::KeyC => String::from_str("KeyC"),
            KeyCode::KeyD => String::from_str("KeyD"),
            KeyCode::KeyE => String::from_str("KeyE"),
            KeyCode::KeyF => String::from_str("KeyF"),
            KeyCode::KeyG => String::from_str("KeyG"),
            KeyCode::KeyH => String::from_str("KeyH"),
            KeyCode::KeyI => String::from_str("KeyI"),
            KeyCode::KeyJ => String::from_str("KeyJ"),
            KeyCode::KeyK => String::from_str("KeyK"),
            KeyCode::KeyL => String::from_str("KeyL"),
            KeyCode::KeyM => String::from_str("KeyM"),
            KeyCode::KeyN => String::from_str("KeyN"),
            KeyCode::KeyO => String::from_str("KeyO"),
            KeyCode::KeyP => String::from_str("KeyP"),
            KeyCode::KeyQ => String::from_str("KeyQ"),
            KeyCode::KeyR => String::from_str("KeyR"),
            KeyCode::KeyS => String::from_str("KeyS"),
            KeyCode::KeyT => String::from_str("KeyT"),
            KeyCode::KeyU => String::from_str("KeyU"),
            KeyCode::KeyV => String::from_str("KeyV"),
            KeyCode::KeyW => String::from_str("KeyW"),
            KeyCode::KeyX => String::from_str("KeyX"),
            KeyCode::KeyY => String::from_str("KeyY"),
            KeyCode::KeyZ => String::from_str("KeyZ"),
            KeyCode::Minus => String::from_str("Minus"),
            KeyCode::Period => String::from_str("Period"),
            KeyCode::Quote => String::from_str("Quote"),
            KeyCode::Semicolon => String::from_str("Semicolon"),
            KeyCode::Slash => String::from_str("Slash"),
            KeyCode::AltLeft => String::from_str("AltLeft"),
            KeyCode::AltRight => String::from_str("AltRight"),
            KeyCode::Backspace => String::from_str("Backspace"),
            KeyCode::CapsLock => String::from_str("CapsLock"),
            KeyCode::ContextMenu => String::from_str("ContextMenu"),
            KeyCode::ControlLeft => String::from_str("ControlLeft"),
            KeyCode::ControlRight => String::from_str("ControlRight"),
            KeyCode::Enter => String::from_str("Enter"),
            KeyCode::SuperLeft => String::from_str("SuperLeft"),
            KeyCode::SuperRight => String::from_str("SuperRight"),
            KeyCode::ShiftLeft => String::from_str("ShiftLeft"),
            KeyCode::ShiftRight => String::from_str("ShiftRight"),
            KeyCode::Space => String::from_str("Space"),
            KeyCode::Tab => String::from_str("Tab"),
            KeyCode::Convert => String::from_str("Convert"),
            KeyCode::KanaMode => String::from_str("KanaMode"),
            KeyCode::Lang1 => String::from_str("Lang1"),
            KeyCode::Lang2 => String::from_str("Lang2"),
            KeyCode::Lang3 => String::from_str("Lang3"),
            KeyCode::Lang4 => String::from_str("Lang4"),
            KeyCode::Lang5 => String::from_str("Lang5"),
            KeyCode::NonConvert => String::from_str("NonConvert"),
            KeyCode::Delete => String::from_str("Delete"),
            KeyCode::End => String::from_str("End"),
            KeyCode::Help => String::from_str("Help"),
            KeyCode::Home => String::from_str("Home"),
            KeyCode::Insert => String::from_str("Insert"),
            KeyCode::PageDown => String::from_str("PageDown"),
            KeyCode::PageUp => String::from_str("PageUp"),
            KeyCode::ArrowDown => String::from_str("ArrowDown"),
            KeyCode::ArrowLeft => String::from_str("ArrowLeft"),
            KeyCode::ArrowRight => String::from_str("ArrowRight"),
            KeyCode::ArrowUp => String::from_str("ArrowUp"),
            KeyCode::NumLock => String::from_str("NumLock"),
            KeyCode::Numpad0 => String::from_str("Numpad0"),
            KeyCode::Numpad1 => String::from_str("Numpad1"),
            KeyCode::Numpad2 => String::from_str("Numpad2"),
            KeyCode::Numpad3 => String::from_str("Numpad3"),
            KeyCode::Numpad4 => String::from_str("Numpad4"),
            KeyCode::Numpad5 => String::from_str("Numpad5"),
            KeyCode::Numpad6 => String::from_str("Numpad6"),
            KeyCode::Numpad7 => String::from_str("Numpad7"),
            KeyCode::Numpad8 => String::from_str("Numpad8"),
            KeyCode::Numpad9 => String::from_str("Numpad9"),
            KeyCode::NumpadAdd => String::from_str("NumpadAdd"),
            KeyCode::NumpadBackspace => String::from_str("NumpadBackspace"),
            KeyCode::NumpadClear => String::from_str("NumpadClear"),
            KeyCode::NumpadClearEntry => String::from_str("NumpadClearEntry"),
            KeyCode::NumpadComma => String::from_str("NumpadComma"),
            KeyCode::NumpadDecimal => String::from_str("NumpadDecimal"),
            KeyCode::NumpadDivide => String::from_str("NumpadDivide"),
            KeyCode::NumpadEnter => String::from_str("NumpadEnter"),
            KeyCode::NumpadEqual => String::from_str("NumpadEqual"),
            KeyCode::NumpadHash => String::from_str("NumpadHash"),
            KeyCode::NumpadMemoryAdd => String::from_str("NumpadMemoryAdd"),
            KeyCode::NumpadMemoryClear => String::from_str("NumpadMemoryClear"),
            KeyCode::NumpadMemoryRecall => String::from_str("NumpadMemoryRecall"),
            KeyCode::NumpadMemoryStore => String::from_str("NumpadMemoryStore"),
            KeyCode::NumpadMemorySubtract => String::from_str("NumpadMemorySubtract"),
            KeyCode::NumpadMultiply => String::from_str("NumpadMultiply"),
            KeyCode::NumpadParenLeft => String::from_str("NumpadParenLeft"),
            KeyCode::NumpadParenRight => String::from_str("NumpadParenRight"),
            KeyCode::NumpadStar => String::from_str("NumpadStar"),
            KeyCode::NumpadSubtract => String::from_str("NumpadSubtract"),
            KeyCode::Escape => String::from_str("Escape"),
            KeyCode::Fn => String::from_str("Fn"),
            KeyCode::FnLock => String::from_str("FnLock"),
            KeyCode::PrintScreen => String::from_str("PrintScreen"),
            KeyCode::ScrollLock => String::from_str("ScrollLock"),
            KeyCode::Pause => String::from_str("Pause"),
            KeyCode::BrowserBack => String::from_str("BrowserBack"),
            KeyCode::BrowserFavorites => String::from_str("BrowserFavorites"),
            KeyCode::BrowserForward => String::from_str("BrowserForward"),
            KeyCode::BrowserHome => String::from_str("BrowserHome"),
            KeyCode::BrowserRefresh => String::from_str("BrowserRefresh"),
            KeyCode::BrowserSearch => String::from_str("BrowserSearch"),
            KeyCode::BrowserStop => String::from_str("BrowserStop"),
            KeyCode::Eject => String::from_str("Eject"),
            KeyCode::LaunchApp1 => String::from_str("LaunchApp1"),
            KeyCode::LaunchApp2 => String::from_str("LaunchApp2"),
            KeyCode::LaunchMail => String::from_str("LaunchMail"),
            KeyCode::MediaPlayPause => String::from_str("MediaPlayPause"),
            KeyCode::MediaSelect => String::from_str("MediaSelect"),
            KeyCode::MediaStop => String::from_str("MediaStop"),
            KeyCode::MediaTrackNext => String::from_str("MediaTrackNext"),
            KeyCode::MediaTrackPrevious => String::from_str("MediaTrackPrevious"),
            KeyCode::Power => String::from_str("Power"),
            KeyCode::Sleep => String::from_str("Sleep"),
            KeyCode::AudioVolumeDown => String::from_str("AudioVolumeDown"),
            KeyCode::AudioVolumeMute => String::from_str("AudioVolumeMute"),
            KeyCode::AudioVolumeUp => String::from_str("AudioVolumeUp"),
            KeyCode::WakeUp => String::from_str("WakeUp"),
            KeyCode::Meta => String::from_str("Meta"),
            KeyCode::Hyper => String::from_str("Hyper"),
            KeyCode::Turbo => String::from_str("Turbo"),
            KeyCode::Abort => String::from_str("Abort"),
            KeyCode::Resume => String::from_str("Resume"),
            KeyCode::Suspend => String::from_str("Suspend"),
            KeyCode::Again => String::from_str("Again"),
            KeyCode::Copy => String::from_str("Copy"),
            KeyCode::Cut => String::from_str("Cut"),
            KeyCode::Find => String::from_str("Find"),
            KeyCode::Open => String::from_str("Open"),
            KeyCode::Paste => String::from_str("Paste"),
            KeyCode::Props => String::from_str("Props"),
            KeyCode::Select => String::from_str("Select"),
            KeyCode::Undo => String::from_str("Undo"),
            KeyCode::Hiragana => String::from_str("Hiragana"),
            KeyCode::Katakana => String::from_str("Katakana"),
            KeyCode::F1 => String::from_str("F1"),
            KeyCode::F2 => String::from_str("F2"),
            KeyCode::F3 => String::from_str("F3"),
            KeyCode::F4 => String::from_str("F4"),
            KeyCode::F5 => String::from_str("F5"),
            KeyCode::F6 => String::from_str("F6"),
            KeyCode::F7 => String::from_str("F7"),
            KeyCode::F8 => String::from_str("F8"),
            KeyCode::F9 => String::from_str("F9"),
            KeyCode::F10 => String::from_str("F10"),
            KeyCode::F11 => String::from_str("F11"),
            KeyCode::F12 => String::from_str("F12"),
            KeyCode::F13 => String::from_str("F13"),
            KeyCode::F14 => String::from_str("F14"),
            KeyCode::F15 => String::from_str("F15"),
            KeyCode::F16 => String::from_str("F16"),
            KeyCode::F17 => String::from_str("F17"),
            KeyCode::F18 => String::from_str("F18"),
            KeyCode::F19 => String::from_str("F19"),
            KeyCode::F20 => String::from_str("F20"),
            KeyCode::F21 => String::from_str("F21"),
            KeyCode::F22 => String::from_str("F22"),
            KeyCode::F23 => String::from_str("F23"),
            KeyCode::F24 => String::from_str("F24"),
            KeyCode::F25 => String::from_str("F25"),
            KeyCode::F26 => String::from_str("F26"),
            KeyCode::F27 => String::from_str("F27"),
            KeyCode::F28 => String::from_str("F28"),
            KeyCode::F29 => String::from_str("F29"),
            KeyCode::F30 => String::from_str("F30"),
            KeyCode::F31 => String::from_str("F31"),
            KeyCode::F32 => String::from_str("F32"),
            KeyCode::F33 => String::from_str("F33"),
            KeyCode::F34 => String::from_str("F34"),
            KeyCode::F35 => String::from_str("F35"),
        }
    }

    /// The short text of a key that has one: the character that it types,
    /// or the usual abbreviation of a modifier or an editing key.
    pub open spec fn short_text(self) -> Option<Seq<char>> {
        match self {
            KeyCode::Digit1 => Some("1"@),
            KeyCode::Digit2 => Some("2"@),
            KeyCode::Digit3 => Some("3"@),
            KeyCode::Digit4 => Some("4"@),
            KeyCode::Digit5 => Some("5"@),
            KeyCode::Digit6 => Some("6"@),
            KeyCode::Digit7 => Some("7"@),
            KeyCode::Digit8 => Some("8"@),
            KeyCode::Digit9 => Some("9"@),
            KeyCode::Digit0 => Some("0"@),
            KeyCode::Escape => Some("ESC"@),
            KeyCode::Insert => Some("Ins"@),
            KeyCode::Delete => Some("Del"@),
            KeyCode::Quote => Some("'"@),
            KeyCode::NumpadAdd => Some("+"@),
            KeyCode::Backslash => Some("\\"@),
            KeyCode::Comma => Some(","@),
            KeyCode::NumpadDecimal => Some("."@),
            KeyCode::NumpadDivide => Some("/"@),
            KeyCode::Equal => Some("="@),
            KeyCode::Backquote => Some("`"@),
            KeyCode::AltLeft => Some("Alt"@),
            KeyCode::BracketLeft => Some("["@),
            KeyCode::ControlLeft => Some("Ctrl"@),
            KeyCode::ShiftLeft => Some("Shift"@),
            KeyCode::Minus => Some("-"@),
            KeyCode::NumpadMultiply => Some("*"@),
            KeyCode::NumpadComma => Some(","@),
            KeyCode::NumpadEqual => Some("="@),
            KeyCode::Period => Some(","@),
            KeyCode::AltRight => Some("Alt"@),
            KeyCode::BracketRight => Some("]"@),
            KeyCode::ControlRight => Some("Ctrl"@),
            KeyCode::ShiftRight => Some("Shift"@),
            KeyCode::Semicolon => Some(";"@),
            KeyCode::Slash => Some("/"@),
            KeyCode::NumpadSubtract => Some("-"@),
            _ => None,
        }
    }

    /// The text that stands for the key in a shortcut: its short text, or
    /// its name where it has none.
    pub open spec fn text(self) -> Seq<char> {
        match self.short_text() {
            Some(t) => t,
            None => self.name_spec(),
        }
    }
}

/// Keys as they are shown to the user.
pub trait KeyCodeToStringExt {
    /// The text that stands for the key.
    spec fn text_spec(&self) -> Seq<char>;

    fn to_string(&self) -> (r: String)
        ensures
            r@ == self.text_spec(),
    ;
}

impl KeyCodeToStringExt for KeyCode {
    open spec fn text_spec(&self) -> Seq<char> {
        self.text()
    }

    fn to_string(&self) -> (r: String) {
        match self {
            KeyCode::Digit1 => String::from_str("1"),
            KeyCode::Digit2 => String::from_str("2"),
            KeyCode::Digit3 => String::from_str("3"),
            KeyCode::Digit4 => String::from_str("4"),
            KeyCode::Digit5 => String::from_str("5"),
            KeyCode::Digit6 => String::from_str("6"),
            KeyCode::Digit7 => String::from_str("7"),
            KeyCode::Digit8 => String::from_str("8"),
            KeyCode::Digit9 => String::from_str("9"),
            KeyCode::Digit0 => String::from_str("0"),
            KeyCode::Escape => String::from_str("ESC"),
            KeyCode::Insert => String::from_str("Ins"),
            KeyCode::Delete => String::from_str("Del"),
            KeyCode::Quote => String::from_str("'"),
            KeyCode::NumpadAdd => String::from_str("+"),
            KeyCode::Backslash => String::from_str("\\"),
            KeyCode::Comma => String::from_str(","),
            KeyCode::NumpadDecimal => String::from_str("."),
            KeyCode::NumpadDivide => String::from_str("/"),
            KeyCode::Equal => String::from_str("="),
            KeyCode::Backquote => String::from_str("`"),
            KeyCode::AltLeft => String::from_str("Alt"),
            KeyCode::BracketLeft => String::from_str("["),
            KeyCode::ControlLeft => String::from_str("Ctrl"),
            KeyCode::ShiftLeft => String::from_str("Shift"),
            KeyCode::Minus => String::from_str("-"),
            KeyCode::NumpadMultiply => String::from_str("*"),
            KeyCode::NumpadComma => String::from_str(","),
            KeyCode::NumpadEqual => String::from_str("="),
            KeyCode::Period => String::from_str(","),
            KeyCode::AltRight => String::from_str("Alt"),
            KeyCode::BracketRight => String::from_str("]"),
            KeyCode::ControlRight => String::from_str("Ctrl"),
            KeyCode::ShiftRight => String::from_str("Shift"),
            KeyCode::Semicolon => String::from_str(";"),
            KeyCode::Slash => String::from_str("/"),
            KeyCode::NumpadSubtract => String::from_str("-"),
            _ => self.name(),
        }
    }
}

/// The texts of the first `upto` keys, joined by a plus sign.
pub open spec fn joined(keys: Seq<KeyCode>, upto: nat) -> Seq<char>
    decreases upto,
{
    if upto == 0 {
        Seq::empty()
    } else if upto == 1 {
        keys[0].text()
    } else {
        joined(keys, (upto - 1) as nat) + "+"@ + keys[upto - 1].text()
    }
}

/// Key combinations as they are shown to the user.
pub trait ShortcutTextExt {
    /// The text of the combination.
    spec fn shortcut_spec(&self) -> Seq<char>;

    fn shortcut_text(&self) -> (r: String)
        ensures
            r@ == self.shortcut_spec(),
    ;
}

impl ShortcutTextExt for Vec<KeyCode> {
    /// The texts of the keys in order, joined by a plus sign.
    open spec fn shortcut_spec(&self) -> Seq<char> {
        joined(self@, self@.len())
    }

    fn shortcut_text(&self) -> (r: String) {
        let mut text = String::from_str("");
        proof {
            reveal_strlit("");
            assert(text@ =~= Seq::<char>::empty());
        }
        let mut i: usize = 0;
        while i < self.len()
            invariant
                i <= self.len(),
                text@ == joined(self@, i as nat),
            decreases self.len() - i,
        {
            if i > 0 {
                text.append("+");
            }
            let key = self[i].to_string();
            text.append(key.as_str());
            proof {
                if i == 0 {
                    assert(Seq::<char>::empty() + self@[0].text() =~= self@[0].text());
                }
            }
            i += 1;
        }
        text
    }
}

/// The two keys of a kind of modifier: the key itself and its other side.
/// `None` for a key that is no modifier.
pub open spec fn sides(keycode: KeyCode) -> Option<(KeyCode, KeyCode)> {
    match keycode {
        KeyCode::AltLeft | KeyCode::AltRight => Some((KeyCode::AltLeft, KeyCode::AltRight)),
        KeyCode::ControlLeft | KeyCode::ControlRight => Some(
            (KeyCode::ControlLeft, KeyCode::ControlRight),
        ),
        KeyCode::ShiftLeft | KeyCode::ShiftRight => Some((KeyCode::ShiftLeft, KeyCode::ShiftRight)),
        KeyCode::SuperLeft | KeyCode::SuperRight => Some((KeyCode::SuperLeft, KeyCode::SuperRight)),
        _ => None,
    }
}

/// Whether `keys` holds `keycode`, or its other side where it is a modifier.
pub open spec fn holds_either_side(keys: Seq<KeyCode>, keycode: KeyCode) -> bool {
    match sides(keycode) {
        Some((left, right)) => keys.contains(left) || keys.contains(right),
        None => keys.contains(keycode),
    }
}

/// The keys that are down in a frame, and those that went down or came up
/// in it.
pub struct ButtonInput {
    pub pressed: Vec<KeyCode>,
    pub just_pressed: Vec<KeyCode>,
    pub just_released: Vec<KeyCode>,
}

fn holds(keys: &Vec<KeyCode>, keycode: KeyCode) -> (r: bool)
    ensures
        r == keys@.contains(keycode),
{
    let mut i: usize = 0;
    while i < keys.len()
        invariant
            i <= keys.len(),
            forall|j: int| 0 <= j < i ==> keys@[j] != keycode,
        decreases keys.len() - i,
    {
        if keys[i] == keycode {
            return true;
        }
        i += 1;
    }
    false
}

fn holds_symmetric(keys: &Vec<KeyCode>, keycode: KeyCode) -> (r: bool)
    ensures
        r == holds_either_side(keys@, keycode),
{
    match keycode {
        KeyCode::AltLeft | KeyCode::AltRight => holds(keys, KeyCode::AltLeft) || holds(
            keys,
            KeyCode::AltRight,
        ),
        KeyCode::ControlLeft | KeyCode::ControlRight => holds(keys, KeyCode::ControlLeft) || holds(
            keys,
            KeyCode::ControlRight,
        ),
        KeyCode::ShiftLeft | KeyCode::ShiftRight => holds(keys, KeyCode::ShiftLeft) || holds(
            keys,
            KeyCode::ShiftRight,
        ),
        KeyCode::SuperLeft | KeyCode::SuperRight => holds(keys, KeyCode::SuperLeft) || holds(
            keys,
            KeyCode::SuperRight,
        ),
        _ => holds(keys, keycode),
    }
}

/// Queries for which the left and the right key of a modifier are one key.
pub trait SymmetricKeysExt {
    spec fn pressed_spec(&self, input: KeyCode) -> bool;

    spec fn just_pressed_spec(&self, input: KeyCode) -> bool;

    spec fn just_released_spec(&self, input: KeyCode) -> bool;

    fn symmetry_pressed(&self, input: KeyCode) -> (r: bool)
        ensures
            r == self.pressed_spec(input),
    ;

    fn symmetry_just_pressed(&self, input: KeyCode) -> (r: bool)
        ensures
            r == self.just_pressed_spec(input),
    ;

    fn symmetry_just_released(&self, input: KeyCode) -> (r: bool)
        ensures
            r == self.just_released_spec(input),
    ;
}

impl SymmetricKeysExt for ButtonInput {
    open spec fn pressed_spec(&self, input: KeyCode) -> bool {
        holds_either_side(self.pressed@, input)
    }

    open spec fn just_pressed_spec(&self, input: KeyCode) -> bool {
        holds_either_side(self.just_pressed@, input)
    }

    open spec fn just_released_spec(&self, input: KeyCode) -> bool {
        holds_either_side(self.just_released@, input)
    }

    fn symmetry_pressed(&self, input: KeyCode) -> (r: bool) {
        holds_symmetric(&self.pressed, input)
    }

    fn symmetry_just_pressed(&self, input: KeyCode) -> (r: bool) {
        holds_symmetric(&self.just_pressed, input)
    }

    fn symmetry_just_released(&self, input: KeyCode) -> (r: bool) {
        holds_symmetric(&self.just_released, input)
    }
}

} // verus!
