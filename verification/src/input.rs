use vstd::prelude::*;

use crate::library_entry::TrackFile;

verus! {

/// Inputs whose meaning depends on what the cursor rests on.
#[derive(Clone, Copy, Debug, PartialEq, Eq, Structural)]
pub enum InputLocal {
    Up,
    Down,
    Left,
    Right,
    PgUp,
    PgDown,
    Home,
    End,
    Tab,
    RevTab,
    Select,
    SelectAlt,
}

/// Inputs that act on playback wherever the cursor is.
#[derive(Clone, Copy, Debug, PartialEq, Eq, Structural)]
pub enum InputGlobal {
    PlayPause,
    Stop,
    Next,
    Previous,
    SkipForward { sec: u16 },
    SkipBackward { sec: u16 },
}

/// What a local input does to the library.
#[derive(Clone, Copy, Debug, PartialEq, Eq, Structural)]
pub enum InputLocalEffect {
    Up(usize),
    Down(usize),
    Left,
    Right,
    Home,
    End,
    NextTab,
    PrevTab,
}

/// What a local input does to the playlist.
#[derive(Clone, Debug, PartialEq, Eq)]
pub enum InputGlobalEffect {
    ReplaceTracksAndPlay { tracks: Vec<TrackFile>, index: usize },
    AppendTracks(Vec<TrackFile>),
}

/// The resolved effect of a local input.
#[derive(Clone, Debug, PartialEq, Eq)]
pub enum InputEffect {
    Local(InputLocalEffect),
    Global(InputGlobalEffect),
    Ignored,
}

/// A terminal key, as the input thread hands it over.
#[derive(Clone, Copy, Debug, PartialEq, Eq, Structural)]
pub enum Key {
    Char(char),
    Up,
    Down,
    Left,
    Right,
    Enter,
    PgUp,
    PgDown,
    Home,
    End,
    Tab,
    BackTab,
    Esc,
}

/// What a key resolves to before the library gives it meaning.
#[derive(Clone, Copy, Debug, PartialEq, Eq, Structural)]
pub enum KeyAction {
    Local(InputLocal),
    Global(InputGlobal),
    Quit,
    Ignored,
}

/// The key bindings: wasd, hjkl and the arrows move; c/u toggle play,
/// x/y step back, b/o step forward, v/i stop; f/n and g/m skip by ten
/// seconds, their uppercase forms by sixty; Enter/e select, Space appends;
/// q and Esc quit.
pub open spec fn spec_map_key(key: Key) -> KeyAction {
    match key {
        Key::Char(c) => {
            if c == 'w' || c == 'k' {
                KeyAction::Local(InputLocal::Up)
            } else if c == 'a' || c == 'j' {
                KeyAction::Local(InputLocal::Down)
            } else if c == 's' || c == 'h' {
                KeyAction::Local(InputLocal::Left)
            } else if c == 'd' || c == 'l' {
                KeyAction::Local(InputLocal::Right)
            } else if c == 'x' || c == 'y' {
                KeyAction::Global(InputGlobal::Previous)
            } else if c == 'c' || c == 'u' {
                KeyAction::Global(InputGlobal::PlayPause)
            } else if c == 'v' || c == 'i' {
                KeyAction::Global(InputGlobal::Stop)
            } else if c == 'b' || c == 'o' {
                KeyAction::Global(InputGlobal::Next)
            } else if c == 'f' || c == 'n' {
                KeyAction::Global(InputGlobal::SkipBackward { sec: 10 })
            } else if c == 'F' || c == 'N' {
                KeyAction::Global(InputGlobal::SkipBackward { sec: 60 })
            } else if c == 'g' || c == 'm' {
                KeyAction::Global(InputGlobal::SkipForward { sec: 10 })
            } else if c == 'G' || c == 'M' {
                KeyAction::Global(InputGlobal::SkipForward { sec: 60 })
            } else if c == 'e' {
                KeyAction::Local(InputLocal::Select)
            } else if c == ' ' {
                KeyAction::Local(InputLocal::SelectAlt)
            } else if c == 'q' {
                KeyAction::Quit
            } else {
                KeyAction::Ignored
            }
        },
        Key::Up => KeyAction::Local(InputLocal::Up),
        Key::Down => KeyAction::Local(InputLocal::Down),
        Key::Left => KeyAction::Local(InputLocal::Left),
        Key::Right => KeyAction::Local(InputLocal::Right),
        Key::Enter => KeyAction::Local(InputLocal::Select),
        Key::PgUp => KeyAction::Local(InputLocal::PgUp),
        Key::PgDown => KeyAction::Local(InputLocal::PgDown),
        Key::Home => KeyAction::Local(InputLocal::Home),
        Key::End => KeyAction::Local(InputLocal::End),
        Key::Tab => KeyAction::Local(InputLocal::Tab),
        Key::BackTab => KeyAction::Local(InputLocal::RevTab),
        Key::Esc => KeyAction::Quit,
    }
}

/// Resolve one key press per the key bindings.
pub fn map_key(key: Key) -> (r: KeyAction)
    ensures
        r == spec_map_key(key),
{
    match key {
        Key::Char(c) => {
            if c == 'w' || c == 'k' {
                KeyAction::Local(InputLocal::Up)
            } else if c == 'a' || c == 'j' {
                KeyAction::Local(InputLocal::Down)
            } else if c == 's' || c == 'h' {
                KeyAction::Local(InputLocal::Left)
            } else if c == 'd' || c == 'l' {
                KeyAction::Local(InputLocal::Right)
            } else if c == 'x' || c == 'y' {
                KeyAction::Global(InputGlobal::Previous)
            } else if c == 'c' || c == 'u' {
                KeyAction::Global(InputGlobal::PlayPause)
            } else if c == 'v' || c == 'i' {
                KeyAction::Global(InputGlobal::Stop)
            } else if c == 'b' || c == 'o' {
                KeyAction::Global(InputGlobal::Next)
            } else if c == 'f' || c == 'n' {
                KeyAction::Global(InputGlobal::SkipBackward { sec: 10 })
            } else if c == 'F' || c == 'N' {
                KeyAction::Global(InputGlobal::SkipBackward { sec: 60 })
            } else if c == 'g' || c == 'm' {
                KeyAction::Global(InputGlobal::SkipForward { sec: 10 })
            } else if c == 'G' || c == 'M' {
                KeyAction::Global(InputGlobal::SkipForward { sec: 60 })
            } else if c == 'e' {
                KeyAction::Local(InputLocal::Select)
            } else if c == ' ' {
                KeyAction::Local(InputLocal::SelectAlt)
            } else if c == 'q' {
                KeyAction::Quit
            } else {
                KeyAction::Ignored
            }
        },
        Key::Up => KeyAction::Local(InputLocal::Up),
        Key::Down => KeyAction::Local(InputLocal::Down),
        Key::Left => KeyAction::Local(InputLocal::Left),
        Key::Right => KeyAction::Local(InputLocal::Right),
        Key::Enter => KeyAction::Local(InputLocal::Select),
        Key::PgUp => KeyAction::Local(InputLocal::PgUp),
        Key::PgDown => KeyAction::Local(InputLocal::PgDown),
        Key::Home => KeyAction::Local(InputLocal::Home),
        Key::End => KeyAction::Local(InputLocal::End),
        Key::Tab => KeyAction::Local(InputLocal::Tab),
        Key::BackTab => KeyAction::Local(InputLocal::RevTab),
        Key::Esc => KeyAction::Quit,
    }
}

} // verus!
