use vstd::prelude::*;

verus! {

/// Physical key codes, named after the key's position on a US keyboard
/// (the W3C `KeyboardEvent.code` names).
#[derive(Clone, Copy, Debug, PartialEq, Eq, Structural, Hash)]
pub enum KeyCode {
    Backquote,
    Backslash,
    BracketLeft,
    BracketRight,
    Comma,
    Digit0,
    Digit1,
    Digit2,
    Digit3,
    Digit4,
    Digit5,
    Digit6,
    Digit7,
    Digit8,
    Digit9,
    Equal,
    IntlBackslash,
    IntlRo,
    IntlYen,
    KeyA,
    KeyB,
    KeyC,
    KeyD,
    KeyE,
    KeyF,
    KeyG,
    KeyH,
    KeyI,
    KeyJ,
    KeyK,
    KeyL,
    KeyM,
    KeyN,
    KeyO,
    KeyP,
    KeyQ,
    KeyR,
    KeyS,
    KeyT,
    KeyU,
    KeyV,
    KeyW,
    KeyX,
    KeyY,
    KeyZ,
    Minus,
    Period,
    Quote,
    Semicolon,
    Slash,
    AltLeft,
    AltRight,
    Backspace,
    CapsLock,
    ContextMenu,
    ControlLeft,
    ControlRight,
    Enter,
    SuperLeft,
    SuperRight,
    ShiftLeft,
    ShiftRight,
    Space,
    Tab,
    Convert,
    KanaMode,
    Lang1,
    Lang2,
    Lang3,
    Lang4,
    Lang5,
    NonConvert,
    Delete,
    End,
    Help,
    Home,
    Insert,
    PageDown,
    PageUp,
    ArrowDown,
    ArrowLeft,
    ArrowRight,
    ArrowUp,
    NumLock,
    Numpad0,
    Numpad1,
    Numpad2,
    Numpad3,
    Numpad4,
    Numpad5,
    Numpad6,
    Numpad7,
    Numpad8,
    Numpad9,
    NumpadAdd,
    NumpadBackspace,
    NumpadClear,
    NumpadClearEntry,
    NumpadComma,
    NumpadDecimal,
    NumpadDivide,
    NumpadEnter,
    NumpadEqual,
    NumpadHash,
    NumpadMemoryAdd,
    NumpadMemoryClear,
    NumpadMemoryRecall,
    NumpadMemoryStore,
    NumpadMemorySubtract,
    NumpadMultiply,
    NumpadParenLeft,
    NumpadParenRight,
    NumpadStar,
    NumpadSubtract,
    Escape,
    Fn,
    FnLock,
    PrintScreen,
    ScrollLock,
    Pause,
    BrowserBack,
    BrowserFavorites,
    BrowserForward,
    BrowserHome,
    BrowserRefresh,
    BrowserSearch,
    BrowserStop,
    Eject,
    LaunchApp1,
    LaunchApp2,
    LaunchMail,
    MediaPlayPause,
    MediaSelect,
    MediaStop,
    MediaTrackNext,
    MediaTrackPrevious,
    Power,
    Sleep,
    AudioVolumeDown,
    AudioVolumeMute,
    AudioVolumeUp,
    WakeUp,
    Meta,
    Hyper,
    Turbo,
    Abort,
    Resume,
    Suspend,
    Again,
    Copy,
    Cut,
    Find,
    Open,
    Paste,
    Props,
    Select,
    Undo,
    Hiragana,
    Katakana,
    F1,
    F2,
    F3,
    F4,
    F5,
    F6,
    F7,
    F8,
    F9,
    F10,
    F11,
    F12,
    F13,
    F14,
    F15,
    F16,
    F17,
    F18,
    F19,
    F20,
    F21,
    F22,
    F23,
    F24,
    F25,
    F26,
    F27,
    F28,
    F29,
    F30,
    F31,
    F32,
    F33,
    F34,
    F35,
}

/// Number of distinct key codes.
pub const KEY_CODE_COUNT: u32 = 194;

impl KeyCode {
    /// The dense index of a key code: its position in declaration order.
    pub closed spec fn spec_index(self) -> u32 {
        match self {
            KeyCode::Backquote => 0,
            KeyCode::Backslash => 1,
            KeyCode::BracketLeft => 2,
            KeyCode::BracketRight => 3,
            KeyCode::Comma => 4,
            KeyCode::Digit0 => 5,
            KeyCode::Digit1 => 6,
            KeyCode::Digit2 => 7,
            KeyCode::Digit3 => 8,
            KeyCode::Digit4 => 9,
            KeyCode::Digit5 => 10,
            KeyCode::Digit6 => 11,
            KeyCode::Digit7 => 12,
            KeyCode::Digit8 => 13,
            KeyCode::Digit9 => 14,
            KeyCode::Equal => 15,
            KeyCode::IntlBackslash => 16,
            KeyCode::IntlRo => 17,
            KeyCode::IntlYen => 18,
            KeyCode::KeyA => 19,
            KeyCode::KeyB => 20,
            KeyCode::KeyC => 21,
            KeyCode::KeyD => 22,
            KeyCode::KeyE => 23,
            KeyCode::KeyF => 24,
            KeyCode::KeyG => 25,
            KeyCode::KeyH => 26,
            KeyCode::KeyI => 27,
            KeyCode::KeyJ => 28,
            KeyCode::KeyK => 29,
            KeyCode::KeyL => 30,
            KeyCode::KeyM => 31,
            KeyCode::KeyN => 32,
            KeyCode::KeyO => 33,
            KeyCode::KeyP => 34,
            KeyCode::KeyQ => 35,
            KeyCode::KeyR => 36,
            KeyCode::KeyS => 37,
            KeyCode::KeyT => 38,
            KeyCode::KeyU => 39,
            KeyCode::KeyV => 40,
            KeyCode::KeyW => 41,
            KeyCode::KeyX => 42,
            KeyCode::KeyY => 43,
            KeyCode::KeyZ => 44,
            KeyCode::Minus => 45,
            KeyCode::Period => 46,
            KeyCode::Quote => 47,
            KeyCode::Semicolon => 48,
            KeyCode::Slash => 49,
            KeyCode::AltLeft => 50,
            KeyCode::AltRight => 51,
            KeyCode::Backspace => 52,
            KeyCode::CapsLock => 53,
            KeyCode::ContextMenu => 54,
            KeyCode::ControlLeft => 55,
            KeyCode::ControlRight => 56,
            KeyCode::Enter => 57,
            KeyCode::SuperLeft => 58,
            KeyCode::SuperRight => 59,
            KeyCode::ShiftLeft => 60,
            KeyCode::ShiftRight => 61,
            KeyCode::Space => 62,
            KeyCode::Tab => 63,
            KeyCode::Convert => 64,
            KeyCode::KanaMode => 65,
            KeyCode::Lang1 => 66,
            KeyCode::Lang2 => 67,
            KeyCode::Lang3 => 68,
            KeyCode::Lang4 => 69,
            KeyCode::Lang5 => 70,
            KeyCode::NonConvert => 71,
            KeyCode::Delete => 72,
            KeyCode::End => 73,
            KeyCode::Help => 74,
            KeyCode::Home => 75,
            KeyCode::Insert => 76,
            KeyCode::PageDown => 77,
            KeyCode::PageUp => 78,
            KeyCode::ArrowDown => 79,
            KeyCode::ArrowLeft => 80,
            KeyCode::ArrowRight => 81,
            KeyCode::ArrowUp => 82,
            KeyCode::NumLock => 83,
            KeyCode::Numpad0 => 84,
            KeyCode::Numpad1 => 85,
            KeyCode::Numpad2 => 86,
            KeyCode::Numpad3 => 87,
            KeyCode::Numpad4 => 88,
            KeyCode::Numpad5 => 89,
            KeyCode::Numpad6 => 90,
            KeyCode::Numpad7 => 91,
            KeyCode::Numpad8 => 92,
            KeyCode::Numpad9 => 93,
            KeyCode::NumpadAdd => 94,
            KeyCode::NumpadBackspace => 95,
            KeyCode::NumpadClear => 96,
            KeyCode::NumpadClearEntry => 97,
            KeyCode::NumpadComma => 98,
            KeyCode::NumpadDecimal => 99,
            KeyCode::NumpadDivide => 100,
            KeyCode::NumpadEnter => 101,
            KeyCode::NumpadEqual => 102,
            KeyCode::NumpadHash => 103,
            KeyCode::NumpadMemoryAdd => 104,
            KeyCode::NumpadMemoryClear => 105,
            KeyCode::NumpadMemoryRecall => 106,
            KeyCode::NumpadMemoryStore => 107,
            KeyCode::NumpadMemorySubtract => 108,
            KeyCode::NumpadMultiply => 109,
            KeyCode::NumpadParenLeft => 110,
            KeyCode::NumpadParenRight => 111,
            KeyCode::NumpadStar => 112,
            KeyCode::NumpadSubtract => 113,
            KeyCode::Escape => 114,
            KeyCode::Fn => 115,
            KeyCode::FnLock => 116,
            KeyCode::PrintScreen => 117,
            KeyCode::ScrollLock => 118,
            KeyCode::Pause => 119,
            KeyCode::BrowserBack => 120,
            KeyCode::BrowserFavorites => 121,
            KeyCode::BrowserForward => 122,
            KeyCode::BrowserHome => 123,
            KeyCode::BrowserRefresh => 124,
            KeyCode::BrowserSearch => 125,
            KeyCode::BrowserStop => 126,
            KeyCode::Eject => 127,
            KeyCode::LaunchApp1 => 128,
            KeyCode::LaunchApp2 => 129,
            KeyCode::LaunchMail => 130,
            KeyCode::MediaPlayPause => 131,
            KeyCode::MediaSelect => 132,
            KeyCode::MediaStop => 133,
            KeyCode::MediaTrackNext => 134,
            KeyCode::MediaTrackPrevious => 135,
            KeyCode::Power => 136,
            KeyCode::Sleep => 137,
            KeyCode::AudioVolumeDown => 138,
            KeyCode::AudioVolumeMute => 139,
            KeyCode::AudioVolumeUp => 140,
            KeyCode::WakeUp => 141,
            KeyCode::Meta => 142,
            KeyCode::Hyper => 143,
            KeyCode::Turbo => 144,
            KeyCode::Abort => 145,
            KeyCode::Resume => 146,
            KeyCode::Suspend => 147,
            KeyCode::Again => 148,
            KeyCode::Copy => 149,
            KeyCode::Cut => 150,
            KeyCode::Find => 151,
            KeyCode::Open => 152,
            KeyCode::Paste => 153,
            KeyCode::Props => 154,
            KeyCode::Select => 155,
            KeyCode::Undo => 156,
            KeyCode::Hiragana => 157,
            KeyCode::Katakana => 158,
            KeyCode::F1 => 159,
            KeyCode::F2 => 160,
            KeyCode::F3 => 161,
            KeyCode::F4 => 162,
            KeyCode::F5 => 163,
            KeyCode::F6 => 164,
            KeyCode::F7 => 165,
            KeyCode::F8 => 166,
            KeyCode::F9 => 167,
            KeyCode::F10 => 168,
            KeyCode::F11 => 169,
            KeyCode::F12 => 170,
            KeyCode::F13 => 171,
            KeyCode::F14 => 172,
            KeyCode::F15 => 173,
            KeyCode::F16 => 174,
            KeyCode::F17 => 175,
            KeyCode::F18 => 176,
            KeyCode::F19 => 177,
            KeyCode::F20 => 178,
            KeyCode::F21 => 179,
            KeyCode::F22 => 180,
            KeyCode::F23 => 181,
            KeyCode::F24 => 182,
            KeyCode::F25 => 183,
            KeyCode::F26 => 184,
            KeyCode::F27 => 185,
            KeyCode::F28 => 186,
            KeyCode::F29 => 187,
            KeyCode::F30 => 188,
            KeyCode::F31 => 189,
            KeyCode::F32 => 190,
            KeyCode::F33 => 191,
            KeyCode::F34 => 192,
            KeyCode::F35 => 193,
        }
    }

    /// The key code with dense index `i`, if there is one.
    pub closed spec fn spec_from_index(i: u32) -> Option<KeyCode> {
        match i {
            0u32 => Some(KeyCode::Backquote),
            1u32 => Some(KeyCode::Backslash),
            2u32 => Some(KeyCode::BracketLeft),
            3u32 => Some(KeyCode::BracketRight),
            4u32 => Some(KeyCode::Comma),
            5u32 => Some(KeyCode::Digit0),
            6u32 => Some(KeyCode::Digit1),
            7u32 => Some(KeyCode::Digit2),
            8u32 => Some(KeyCode::Digit3),
            9u32 => Some(KeyCode::Digit4),
            10u32 => Some(KeyCode::Digit5),
            11u32 => Some(KeyCode::Digit6),
            12u32 => Some(KeyCode::Digit7),
            13u32 => Some(KeyCode::Digit8),
            14u32 => Some(KeyCode::Digit9),
            15u32 => Some(KeyCode::Equal),
            16u32 => Some(KeyCode::IntlBackslash),
            17u32 => Some(KeyCode::IntlRo),
            18u32 => Some(KeyCode::IntlYen),
            19u32 => Some(KeyCode::KeyA),
            20u32 => Some(KeyCode::KeyB),
            21u32 => Some(KeyCode::KeyC),
            22u32 => Some(KeyCode::KeyD),
            23u32 => Some(KeyCode::KeyE),
            24u32 => Some(KeyCode::KeyF),
            25u32 => Some(KeyCode::KeyG),
            26u32 => Some(KeyCode::KeyH),
            27u32 => Some(KeyCode::KeyI),
            28u32 => Some(KeyCode::KeyJ),
            29u32 => Some(KeyCode::KeyK),
            30u32 => Some(KeyCode::KeyL),
            31u32 => Some(KeyCode::KeyM),
            32u32 => Some(KeyCode::KeyN),
            33u32 => Some(KeyCode::KeyO),
            34u32 => Some(KeyCode::KeyP),
            35u32 => Some(KeyCode::KeyQ),
            36u32 => Some(KeyCode::KeyR),
            37u32 => Some(KeyCode::KeyS),
            38u32 => Some(KeyCode::KeyT),
            39u32 => Some(KeyCode::KeyU),
            40u32 => Some(KeyCode::KeyV),
            41u32 => Some(KeyCode::KeyW),
            42u32 => Some(KeyCode::KeyX),
            43u32 => Some(KeyCode::KeyY),
            44u32 => Some(KeyCode::KeyZ),
            45u32 => Some(KeyCode::Minus),
            46u32 => Some(KeyCode::Period),
            47u32 => Some(KeyCode::Quote),
            48u32 => Some(KeyCode::Semicolon),
            49u32 => Some(KeyCode::Slash),
            50u32 => Some(KeyCode::AltLeft),
            51u32 => Some(KeyCode::AltRight),
            52u32 => Some(KeyCode::Backspace),
            53u32 => Some(KeyCode::CapsLock),
            54u32 => Some(KeyCode::ContextMenu),
            55u32 => Some(KeyCode::ControlLeft),
            56u32 => Some(KeyCode::ControlRight),
            57u32 => Some(KeyCode::Enter),
            58u32 => Some(KeyCode::SuperLeft),
            59u32 => Some(KeyCode::SuperRight),
            60u32 => Some(KeyCode::ShiftLeft),
            61u32 => Some(KeyCode::ShiftRight),
            62u32 => Some(KeyCode::Space),
            63u32 => Some(KeyCode::Tab),
            64u32 => Some(KeyCode::Convert),
            65u32 => Some(KeyCode::KanaMode),
            66u32 => Some(KeyCode::Lang1),
            67u32 => Some(KeyCode::Lang2),
            68u32 => Some(KeyCode::Lang3),
            69u32 => Some(KeyCode::Lang4),
            70u32 => Some(KeyCode::Lang5),
            71u32 => Some(KeyCode::NonConvert),
            72u32 => Some(KeyCode::Delete),
            73u32 => Some(KeyCode::End),
            74u32 => Some(KeyCode::Help),
            75u32 => Some(KeyCode::Home),
            76u32 => Some(KeyCode::Insert),
            77u32 => Some(KeyCode::PageDown),
            78u32 => Some(KeyCode::PageUp),
            79u32 => Some(KeyCode::ArrowDown),
            80u32 => Some(KeyCode::ArrowLeft),
            81u32 => Some(KeyCode::ArrowRight),
            82u32 => Some(KeyCode::ArrowUp),
            83u32 => Some(KeyCode::NumLock),
            84u32 => Some(KeyCode::Numpad0),
            85u32 => Some(KeyCode::Numpad1),
            86u32 => Some(KeyCode::Numpad2),
            87u32 => Some(KeyCode::Numpad3),
            88u32 => Some(KeyCode::Numpad4),
            89u32 => Some(KeyCode::Numpad5),
            90u32 => Some(KeyCode::Numpad6),
            91u32 => Some(KeyCode::Numpad7),
            92u32 => Some(KeyCode::Numpad8),
            93u32 => Some(KeyCode::Numpad9),
            94u32 => Some(KeyCode::NumpadAdd),
            95u32 => Some(KeyCode::NumpadBackspace),
            96u32 => Some(KeyCode::NumpadClear),
            97u32 => Some(KeyCode::NumpadClearEntry),
            98u32 => Some(KeyCode::NumpadComma),
            99u32 => Some(KeyCode::NumpadDecimal),
            100u32 => Some(KeyCode::NumpadDivide),
            101u32 => Some(KeyCode::NumpadEnter),
            102u32 => Some(KeyCode::NumpadEqual),
            103u32 => Some(KeyCode::NumpadHash),
            104u32 => Some(KeyCode::NumpadMemoryAdd),
            105u32 => Some(KeyCode::NumpadMemoryClear),
            106u32 => Some(KeyCode::NumpadMemoryRecall),
            107u32 => Some(KeyCode::NumpadMemoryStore),
            108u32 => Some(KeyCode::NumpadMemorySubtract),
            109u32 => Some(KeyCode::NumpadMultiply),
            110u32 => Some(KeyCode::NumpadParenLeft),
            111u32 => Some(KeyCode::NumpadParenRight),
            112u32 => Some(KeyCode::NumpadStar),
            113u32 => Some(KeyCode::NumpadSubtract),
            114u32 => Some(KeyCode::Escape),
            115u32 => Some(KeyCode::Fn),
            116u32 => Some(KeyCode::FnLock),
            117u32 => Some(KeyCode::PrintScreen),
            118u32 => Some(KeyCode::ScrollLock),
            119u32 => Some(KeyCode::Pause),
            120u32 => Some(KeyCode::BrowserBack),
            121u32 => Some(KeyCode::BrowserFavorites),
            122u32 => Some(KeyCode::BrowserForward),
            123u32 => Some(KeyCode::BrowserHome),
            124u32 => Some(KeyCode::BrowserRefresh),
            125u32 => Some(KeyCode::BrowserSearch),
            126u32 => Some(KeyCode::BrowserStop),
            127u32 => Some(KeyCode::Eject),
            128u32 => Some(KeyCode::LaunchApp1),
            129u32 => Some(KeyCode::LaunchApp2),
            130u32 => Some(KeyCode::LaunchMail),
            131u32 => Some(KeyCode::MediaPlayPause),
            132u32 => Some(KeyCode::MediaSelect),
            133u32 => Some(KeyCode::MediaStop),
            134u32 => Some(KeyCode::MediaTrackNext),
            135u32 => Some(KeyCode::MediaTrackPrevious),
            136u32 => Some(KeyCode::Power),
            137u32 => Some(KeyCode::Sleep),
            138u32 => Some(KeyCode::AudioVolumeDown),
            139u32 => Some(KeyCode::AudioVolumeMute),
            140u32 => Some(KeyCode::AudioVolumeUp),
            141u32 => Some(KeyCode::WakeUp),
            142u32 => Some(KeyCode::Meta),
            143u32 => Some(KeyCode::Hyper),
            144u32 => Some(KeyCode::Turbo),
            145u32 => Some(KeyCode::Abort),
            146u32 => Some(KeyCode::Resume),
            147u32 => Some(KeyCode::Suspend),
            148u32 => Some(KeyCode::Again),
            149u32 => Some(KeyCode::Copy),
            150u32 => Some(KeyCode::Cut),
            151u32 => Some(KeyCode::Find),
            152u32 => Some(KeyCode::Open),
            153u32 => Some(KeyCode::Paste),
            154u32 => Some(KeyCode::Props),
            155u32 => Some(KeyCode::Select),
            156u32 => Some(KeyCode::Undo),
            157u32 => Some(KeyCode::Hiragana),
            158u32 => Some(KeyCode::Katakana),
            159u32 => Some(KeyCode::F1),
            160u32 => Some(KeyCode::F2),
            161u32 => Some(KeyCode::F3),
            162u32 => Some(KeyCode::F4),
            163u32 => Some(KeyCode::F5),
            164u32 => Some(KeyCode::F6),
            165u32 => Some(KeyCode::F7),
            166u32 => Some(KeyCode::F8),
            167u32 => Some(KeyCode::F9),
            168u32 => Some(KeyCode::F10),
            169u32 => Some(KeyCode::F11),
            170u32 => Some(KeyCode::F12),
            171u32 => Some(KeyCode::F13),
            172u32 => Some(KeyCode::F14),
            173u32 => Some(KeyCode::F15),
            174u32 => Some(KeyCode::F16),
            175u32 => Some(KeyCode::F17),
            176u32 => Some(KeyCode::F18),
            177u32 => Some(KeyCode::F19),
            178u32 => Some(KeyCode::F20),
            179u32 => Some(KeyCode::F21),
            180u32 => Some(KeyCode::F22),
            181u32 => Some(KeyCode::F23),
            182u32 => Some(KeyCode::F24),
            183u32 => Some(KeyCode::F25),
            184u32 => Some(KeyCode::F26),
            185u32 => Some(KeyCode::F27),
            186u32 => Some(KeyCode::F28),
            187u32 => Some(KeyCode::F29),
            188u32 => Some(KeyCode::F30),
            189u32 => Some(KeyCode::F31),
            190u32 => Some(KeyCode::F32),
            191u32 => Some(KeyCode::F33),
            192u32 => Some(KeyCode::F34),
            193u32 => Some(KeyCode::F35),
            _ => None,
        }
    }

    /// Indexing and decoding are inverse: each key code has its own index.
    pub proof fn lemma_index_round_trip(self)
        ensures
            self.spec_index() < KEY_CODE_COUNT,
            KeyCode::spec_from_index(self.spec_index()) == Some(self),
    {
    }

    /// Distinct key codes have distinct indices.
    pub proof fn lemma_index_injective(a: KeyCode, b: KeyCode)
        ensures
            a.spec_index() == b.spec_index() <==> a == b,
    {
        a.lemma_index_round_trip();
        b.lemma_index_round_trip();
    }

    /// The dense index of this key code (see [`KeyCode::spec_index`]).
    pub fn index(self) -> (r: u32)
        ensures
            r == self.spec_index(),
            r < KEY_CODE_COUNT,
    {
        match self {
            KeyCode::Backquote => 0,
            KeyCode::Backslash => 1,
            KeyCode::BracketLeft => 2,
            KeyCode::BracketRight => 3,
            KeyCode::Comma => 4,
            KeyCode::Digit0 => 5,
            KeyCode::Digit1 => 6,
            KeyCode::Digit2 => 7,
            KeyCode::Digit3 => 8,
            KeyCode::Digit4 => 9,
            KeyCode::Digit5 => 10,
            KeyCode::Digit6 => 11,
            KeyCode::Digit7 => 12,
            KeyCode::Digit8 => 13,
            KeyCode::Digit9 => 14,
            KeyCode::Equal => 15,
            KeyCode::IntlBackslash => 16,
            KeyCode::IntlRo => 17,
            KeyCode::IntlYen => 18,
            KeyCode::KeyA => 19,
            KeyCode::KeyB => 20,
            KeyCode::KeyC => 21,
            KeyCode::KeyD => 22,
            KeyCode::KeyE => 23,
            KeyCode::KeyF => 24,
            KeyCode::KeyG => 25,
            KeyCode::KeyH => 26,
            KeyCode::KeyI => 27,
            KeyCode::KeyJ => 28,
            KeyCode::KeyK => 29,
            KeyCode::KeyL => 30,
            KeyCode::KeyM => 31,
            KeyCode::KeyN => 32,
            KeyCode::KeyO => 33,
            KeyCode::KeyP => 34,
            KeyCode::KeyQ => 35,
            KeyCode::KeyR => 36,
            KeyCode::KeyS => 37,
            KeyCode::KeyT => 38,
            KeyCode::KeyU => 39,
            KeyCode::KeyV => 40,
            KeyCode::KeyW => 41,
            KeyCode::KeyX => 42,
            KeyCode::KeyY => 43,
            KeyCode::KeyZ => 44,
            KeyCode::Minus => 45,
            KeyCode::Period => 46,
            KeyCode::Quote => 47,
            KeyCode::Semicolon => 48,
            KeyCode::Slash => 49,
            KeyCode::AltLeft => 50,
            KeyCode::AltRight => 51,
            KeyCode::Backspace => 52,
            KeyCode::CapsLock => 53,
            KeyCode::ContextMenu => 54,
            KeyCode::ControlLeft => 55,
            KeyCode::ControlRight => 56,
            KeyCode::Enter => 57,
            KeyCode::SuperLeft => 58,
            KeyCode::SuperRight => 59,
            KeyCode::ShiftLeft => 60,
            KeyCode::ShiftRight => 61,
            KeyCode::Space => 62,
            KeyCode::Tab => 63,
            KeyCode::Convert => 64,
            KeyCode::KanaMode => 65,
            KeyCode::Lang1 => 66,
            KeyCode::Lang2 => 67,
            KeyCode::Lang3 => 68,
            KeyCode::Lang4 => 69,
            KeyCode::Lang5 => 70,
            KeyCode::NonConvert => 71,
            KeyCode::Delete => 72,
            KeyCode::End => 73,
            KeyCode::Help => 74,
            KeyCode::Home => 75,
            KeyCode::Insert => 76,
            KeyCode::PageDown => 77,
            KeyCode::PageUp => 78,
            KeyCode::ArrowDown => 79,
            KeyCode::ArrowLeft => 80,
            KeyCode::ArrowRight => 81,
            KeyCode::ArrowUp => 82,
            KeyCode::NumLock => 83,
            KeyCode::Numpad0 => 84,
            KeyCode::Numpad1 => 85,
            KeyCode::Numpad2 => 86,
            KeyCode::Numpad3 => 87,
            KeyCode::Numpad4 => 88,
            KeyCode::Numpad5 => 89,
            KeyCode::Numpad6 => 90,
            KeyCode::Numpad7 => 91,
            KeyCode::Numpad8 => 92,
            KeyCode::Numpad9 => 93,
            KeyCode::NumpadAdd => 94,
            KeyCode::NumpadBackspace => 95,
            KeyCode::NumpadClear => 96,
            KeyCode::NumpadClearEntry => 97,
            KeyCode::NumpadComma => 98,
            KeyCode::NumpadDecimal => 99,
            KeyCode::NumpadDivide => 100,
            KeyCode::NumpadEnter => 101,
            KeyCode::NumpadEqual => 102,
            KeyCode::NumpadHash => 103,
            KeyCode::NumpadMemoryAdd => 104,
            KeyCode::NumpadMemoryClear => 105,
            KeyCode::NumpadMemoryRecall => 106,
            KeyCode::NumpadMemoryStore => 107,
            KeyCode::NumpadMemorySubtract => 108,
            KeyCode::NumpadMultiply => 109,
            KeyCode::NumpadParenLeft => 110,
            KeyCode::NumpadParenRight => 111,
            KeyCode::NumpadStar => 112,
            KeyCode::NumpadSubtract => 113,
            KeyCode::Escape => 114,
            KeyCode::Fn => 115,
            KeyCode::FnLock => 116,
            KeyCode::PrintScreen => 117,
            KeyCode::ScrollLock => 118,
            KeyCode::Pause => 119,
            KeyCode::BrowserBack => 120,
            KeyCode::BrowserFavorites => 121,
            KeyCode::BrowserForward => 122,
            KeyCode::BrowserHome => 123,
            KeyCode::BrowserRefresh => 124,
            KeyCode::BrowserSearch => 125,
            KeyCode::BrowserStop => 126,
            KeyCode::Eject => 127,
            KeyCode::LaunchApp1 => 128,
            KeyCode::LaunchApp2 => 129,
            KeyCode::LaunchMail => 130,
            KeyCode::MediaPlayPause => 131,
            KeyCode::MediaSelect => 132,
            KeyCode::MediaStop => 133,
            KeyCode::MediaTrackNext => 134,
            KeyCode::MediaTrackPrevious => 135,
            KeyCode::Power => 136,
            KeyCode::Sleep => 137,
            KeyCode::AudioVolumeDown => 138,
            KeyCode::AudioVolumeMute => 139,
            KeyCode::AudioVolumeUp => 140,
            KeyCode::WakeUp => 141,
            KeyCode::Meta => 142,
            KeyCode::Hyper => 143,
            KeyCode::Turbo => 144,
            KeyCode::Abort => 145,
            KeyCode::Resume => 146,
            KeyCode::Suspend => 147,
            KeyCode::Again => 148,
            KeyCode::Copy => 149,
            KeyCode::Cut => 150,
            KeyCode::Find => 151,
            KeyCode::Open => 152,
            KeyCode::Paste => 153,
            KeyCode::Props => 154,
            KeyCode::Select => 155,
            KeyCode::Undo => 156,
            KeyCode::Hiragana => 157,
            KeyCode::Katakana => 158,
            KeyCode::F1 => 159,
            KeyCode::F2 => 160,
            KeyCode::F3 => 161,
            KeyCode::F4 => 162,
            KeyCode::F5 => 163,
            KeyCode::F6 => 164,
            KeyCode::F7 => 165,
            KeyCode::F8 => 166,
            KeyCode::F9 => 167,
            KeyCode::F10 => 168,
            KeyCode::F11 => 169,
            KeyCode::F12 => 170,
            KeyCode::F13 => 171,
            KeyCode::F14 => 172,
            KeyCode::F15 => 173,
            KeyCode::F16 => 174,
            KeyCode::F17 => 175,
            KeyCode::F18 => 176,
            KeyCode::F19 => 177,
            KeyCode::F20 => 178,
            KeyCode::F21 => 179,
            KeyCode::F22 => 180,
            KeyCode::F23 => 181,
            KeyCode::F24 => 182,
            KeyCode::F25 => 183,
            KeyCode::F26 => 184,
            KeyCode::F27 => 185,
            KeyCode::F28 => 186,
            KeyCode::F29 => 187,
            KeyCode::F30 => 188,
            KeyCode::F31 => 189,
            KeyCode::F32 => 190,
            KeyCode::F33 => 191,
            KeyCode::F34 => 192,
            KeyCode::F35 => 193,
        }
    }
}

} // verus!
