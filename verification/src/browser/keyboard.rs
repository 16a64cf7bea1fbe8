use vstd::prelude::*;

verus! {

/// Keys that the browser binds to commands.
#[derive(Debug, Clone, Copy, PartialEq, Eq, Structural)]
pub enum KeyCode {
    ArrowLeft,
    ArrowRight,
    KeyT,
    KeyW,
    Digit1,
    Digit9,
}

/// State of the modifier keys when a key is pressed.
#[derive(Debug, Clone, Copy, PartialEq, Eq, Structural)]
pub struct ModifiersState {
    pub alt: bool,
    pub ctrl: bool,
    pub shift: bool,
    pub meta: bool,
}

impl ModifiersState {
    /// Only the Alt modifier is held.
    #[allow(non_snake_case)]
    pub fn ALT() -> (m: ModifiersState)
        ensures
            m == (ModifiersState { alt: true, ctrl: false, shift: false, meta: false }),
    {
        ModifiersState { alt: true, ctrl: false, shift: false, meta: false }
    }

    /// Only the Control modifier is held.
    #[allow(non_snake_case)]
    pub fn CONTROL() -> (m: ModifiersState)
        ensures
            m == (ModifiersState { alt: false, ctrl: true, shift: false, meta: false }),
    {
        ModifiersState { alt: false, ctrl: true, shift: false, meta: false }
    }
}

/// Browser commands that keyboard shortcuts trigger.
#[derive(Debug, Clone, Copy, PartialEq, Eq, Structural)]
pub enum KeyCommand {
    Back,
    Forward,
    NewTab,
    CloseTab,
    SwitchTab(usize),
}

/// The command bound to `key` under `modifiers`: Alt+Left goes back, Alt+Right
/// goes forward, Ctrl+T opens a tab, Ctrl+W closes one, Ctrl+1 and Ctrl+9
/// switch to the first and ninth tab.
pub open spec fn key_binding(key: KeyCode, modifiers: ModifiersState) -> Option<KeyCommand> {
    match key {
        KeyCode::ArrowLeft => if modifiers.alt { Some(KeyCommand::Back) } else { None },
        KeyCode::ArrowRight => if modifiers.alt { Some(KeyCommand::Forward) } else { None },
        KeyCode::KeyT => if modifiers.ctrl { Some(KeyCommand::NewTab) } else { None },
        KeyCode::KeyW => if modifiers.ctrl { Some(KeyCommand::CloseTab) } else { None },
        KeyCode::Digit1 => if modifiers.ctrl { Some(KeyCommand::SwitchTab(0)) } else { None },
        KeyCode::Digit9 => if modifiers.ctrl { Some(KeyCommand::SwitchTab(8)) } else { None },
    }
}

/// Maps a key press to the browser command bound to it, if any.
pub fn handle_keyboard_input(key: KeyCode, modifiers: ModifiersState) -> (res: Option<KeyCommand>)
    ensures
        res == key_binding(key, modifiers),
{
    match key {
        KeyCode::ArrowLeft if modifiers.alt => Some(KeyCommand::Back),
        KeyCode::ArrowRight if modifiers.alt => Some(KeyCommand::Forward),
        KeyCode::KeyT if modifiers.ctrl => Some(KeyCommand::NewTab),
        KeyCode::KeyW if modifiers.ctrl => Some(KeyCommand::CloseTab),
        KeyCode::Digit1 if modifiers.ctrl => Some(KeyCommand::SwitchTab(0)),
        KeyCode::Digit9 if modifiers.ctrl => Some(KeyCommand::SwitchTab(8)),
        _ => None,
    }
}

} // verus!
