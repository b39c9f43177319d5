//! The actions the dispatch loop consumes, and the mapping from terminal
//! events to actions. Raw terminal input is decoded outside the library
//! into the plain [`Event`] and [`KeyEvent`] values modeled here; the
//! functions in this module decide, without side effects, which action an
//! event asks for.

use vstd::prelude::*;

use crate::app::{ActionState, ApiQueryResponseState, App, CurrentFocus};
use crate::port_check::PortState;

verus! {

/// The keys the dashboard reacts to. Every other key is `Other`.
#[derive(Debug, PartialEq, Eq, Clone, Copy, Structural)]
pub enum KeyCode {
    Esc,
    Enter,
    Tab,
    BackTab,
    Char(char),
    Other,
}

/// The modifier keys held together with a key press.
#[derive(Debug, PartialEq, Eq, Clone, Copy, Structural)]
pub struct KeyMods {
    pub ctrl: bool,
    pub alt: bool,
    pub shift: bool,
}

/// One key press: the key and the modifiers held with it.
#[derive(Debug, PartialEq, Eq, Clone, Copy, Structural)]
pub struct KeyEvent {
    pub code: KeyCode,
    pub mods: KeyMods,
}

/// One event of the terminal layer, already decoded into plain values.
#[derive(Debug, PartialEq, Eq, Clone)]
pub enum Event {
    Init,
    Quit,
    Error,
    Closed,
    Render,
    FocusGained,
    FocusLost,
    Paste(String),
    Key(KeyEvent),
    Mouse,
    Resize(u16, u16),
}

/// The closed set of operations the dispatch loop can receive. Created by
/// the input layer or by probe tasks, consumed exactly once by the
/// dispatch loop, never mutated after creation.
#[derive(Debug, PartialEq, Eq, Clone, Copy, Structural)]
pub enum Action {
    Init,
    /// Move focus to the next tile.
    CycleFocusUp,
    /// Move focus to the previous tile.
    CycleFocusDown,
    JumpToTile(u8),
    EnableDNSBlocking,
    DisableDNSBlocking,
    SubmitDNSQuery,
    /// Refresh the blocking lists.
    RefreshLists,
    /// Trigger one DNS-health probe round.
    UpdateTile,
    ClearDNSCache,
    /// A key press handed through to an editing text field.
    Key(KeyEvent),
    SetDNSStatus(ApiQueryResponseState),
    SetUDPPortState(PortState),
    SetTCPPortState(PortState),
    SetRefreshListState(ActionState),
    SetDNSCacheClearState(ActionState),
    Render,
    /// Quit the application.
    Quit,
}

/// Whether a key press carries exactly the control modifier.
pub open spec fn spec_ctrl_only(mods: KeyMods) -> bool {
    mods == (KeyMods { ctrl: true, alt: false, shift: false })
}

/// Whether a character is a decimal digit key.
pub open spec fn spec_is_digit(c: char) -> bool {
    48 <= c as u32 <= 57
}

/// The ordinal a digit key selects.
pub open spec fn spec_digit_value(c: char) -> u8 {
    (c as u32 - 48) as u8
}

/// The action one key press asks for, if any.
///
/// `Esc` always quits. `q` quits unless the user is editing. `Ctrl-c`
/// quits whatever the editing state. `Enter` triggers the command of the
/// focused tile: refreshing the lists, flushing the cache, or probing.
/// A digit jumps to the tile with that ordinal. `Tab` and `BackTab` cycle
/// the focus. While editing, printable keys are handed through unchanged.
pub open spec fn spec_handle_key(app: App, key: KeyEvent) -> Option<Action> {
    match key.code {
        KeyCode::Esc => Some(Action::Quit),
        KeyCode::Char(c) => if c == 'q' {
            if !app.is_currently_editing {
                Some(Action::Quit)
            } else {
                Some(Action::Key(key))
            }
        } else if c == 'c' {
            if spec_ctrl_only(key.mods) {
                Some(Action::Quit)
            } else {
                Some(Action::Key(key))
            }
        } else if !app.is_currently_editing && spec_is_digit(c) {
            Some(Action::JumpToTile(spec_digit_value(c)))
        } else {
            Some(Action::Key(key))
        },
        KeyCode::Enter => if !app.is_currently_editing {
            if app.current_focus == CurrentFocus::RefreshLists {
                Some(Action::RefreshLists)
            } else if app.current_focus == CurrentFocus::DeleteCache {
                Some(Action::ClearDNSCache)
            } else {
                Some(Action::UpdateTile)
            }
        } else {
            Some(Action::Key(key))
        },
        KeyCode::Tab => Some(Action::CycleFocusUp),
        KeyCode::BackTab => Some(Action::CycleFocusDown),
        KeyCode::Other => None,
    }
}

/// The action one terminal event asks for, if any. Key presses go through
/// [`spec_handle_key`]; the init, quit and render events map to their
/// actions; everything else is ignored.
pub open spec fn spec_handle_event(app: App, event: Event) -> Option<Action> {
    match event {
        Event::Init => Some(Action::Init),
        Event::Key(key) => spec_handle_key(app, key),
        Event::Quit => Some(Action::Quit),
        Event::Render => Some(Action::Render),
        _ => None,
    }
}

impl App {
    /// Decide which action a terminal event asks for. Reads the state,
    /// never changes it; the returned action is for the caller to put on
    /// the action bus.
    pub fn handle_event(&self, event: &Event) -> (r: Option<Action>)
        ensures
            r == spec_handle_event(*self, *event),
    {
        match event {
            Event::Init => Some(Action::Init),
            Event::Key(key) => self.handle_key(key),
            Event::Quit => Some(Action::Quit),
            Event::Render => Some(Action::Render),
            _ => None,
        }
    }

    /// Decide which action one key press asks for.
    pub fn handle_key(&self, key: &KeyEvent) -> (r: Option<Action>)
        ensures
            r == spec_handle_key(*self, *key),
    {
        match key.code {
            KeyCode::Esc => Some(Action::Quit),
            KeyCode::Char(c) => {
                if c == 'q' {
                    if !self.is_currently_editing {
                        Some(Action::Quit)
                    } else {
                        Some(Action::Key(*key))
                    }
                } else if c == 'c' {
                    if key.mods.ctrl && !key.mods.alt && !key.mods.shift {
                        Some(Action::Quit)
                    } else {
                        Some(Action::Key(*key))
                    }
                } else {
                    let code: u32 = c as u32;
                    if !self.is_currently_editing && 48 <= code && code <= 57 {
                        Some(Action::JumpToTile((code - 48) as u8))
                    } else {
                        Some(Action::Key(*key))
                    }
                }
            },
            KeyCode::Enter => {
                if !self.is_currently_editing {
                    if self.current_focus == CurrentFocus::RefreshLists {
                        Some(Action::RefreshLists)
                    } else if self.current_focus == CurrentFocus::DeleteCache {
                        Some(Action::ClearDNSCache)
                    } else {
                        Some(Action::UpdateTile)
                    }
                } else {
                    Some(Action::Key(*key))
                }
            },
            KeyCode::Tab => Some(Action::CycleFocusUp),
            KeyCode::BackTab => Some(Action::CycleFocusDown),
            KeyCode::Other => None,
        }
    }
}

} // verus!
