//! The root menu: the fixed list of dashboard sections.

use crate::app::AppState;
use crate::app_actions::AppAction;
use crate::machine::Instruction;
use crate::menus::Panel;
use crate::menus::blt_menu::BltMenu;
use crate::menus::log_menu::LogMenu;
use crate::menus::log_menu::clone_lines;
use crate::menus::playlist_collection_menu::PlaylistCollectionMenu;
use crate::nav::MenuState;
use crate::nav::NavError;
use crate::nav::SelectionState;
use crate::playlist::clone_playlists;
use crate::playlist::playlists_like;
use vstd::prelude::*;

verus! {

/// The entries of the root menu, in display order.
#[derive(Clone, Copy, Debug, PartialEq, Eq, Structural)]
pub enum Options {
    Music,
    Wifi,
    Bluetooth,
    Log,
    Reboot,
}

/// How many entries the root menu shows.
pub const MAIN_MENU_LEN: usize = 5;

/// The entry at a root-menu cursor position.
pub open spec fn option_at(i: int) -> Options {
    if i == 0 {
        Options::Music
    } else if i == 1 {
        Options::Wifi
    } else if i == 2 {
        Options::Bluetooth
    } else if i == 3 {
        Options::Log
    } else {
        Options::Reboot
    }
}

/// The text of a root-menu entry.
pub open spec fn option_label(o: Options) -> Seq<char> {
    match o {
        Options::Music => "Music"@,
        Options::Wifi => "Wifi"@,
        Options::Bluetooth => "Bluetooth"@,
        Options::Log => "Log"@,
        Options::Reboot => "Reboot"@,
    }
}

impl Options {
    /// All entries, in display order.
    pub fn variants() -> (r: Vec<Options>)
        ensures
            r@.len() == MAIN_MENU_LEN,
            forall|i: int| 0 <= i < r@.len() ==> r@[i] == option_at(i),
    {
        let mut v: Vec<Options> = Vec::new();
        v.push(Options::Music);
        v.push(Options::Wifi);
        v.push(Options::Bluetooth);
        v.push(Options::Log);
        v.push(Options::Reboot);
        v
    }

    /// The text this entry shows as a list row.
    pub fn label(&self) -> (r: String)
        ensures
            r@ == option_label(*self),
    {
        match self {
            Options::Music => String::from_str("Music"),
            Options::Wifi => String::from_str("Wifi"),
            Options::Bluetooth => String::from_str("Bluetooth"),
            Options::Log => String::from_str("Log"),
            Options::Reboot => String::from_str("Reboot"),
        }
    }
}

/// The root menu panel; it opens with the first entry selected.
#[derive(Debug)]
pub struct MainMenu {
    pub state: SelectionState,
}

impl MainMenu {
    pub fn new() -> (r: MainMenu)
        ensures
            r.state.selected == Some(0usize),
    {
        let mut state = SelectionState::new();
        state.select_first();
        MainMenu { state }
    }

    pub fn get_len(&self) -> (r: usize)
        ensures
            r == MAIN_MENU_LEN,
    {
        MAIN_MENU_LEN
    }

    /// The breadcrumb name of this panel.
    pub fn label(&self) -> (r: String)
        ensures
            r@ == "main"@,
    {
        String::from_str("main")
    }

    /// Activate the selected entry: open its section, or leave the menu.
    pub fn enter(&self, state: &AppState) -> (r: Result<AppAction, NavError>)
        ensures
            main_enter_rel(*self, *state, r),
    {
        match self.state.selected {
            None => Err(NavError::NoSelection),
            Some(i) => {
                if i >= MAIN_MENU_LEN {
                    Err(NavError::OutOfBounds)
                } else if i == 0 {
                    Ok(
                        AppAction::MachineAction(
                            Instruction::Push(
                                Panel::PlaylistCollection(
                                    PlaylistCollectionMenu::new(clone_playlists(&state.playlists)),
                                ),
                            ),
                        ),
                    )
                } else if i == 1 {
                    Ok(AppAction::MachineAction(Instruction::Continue))
                } else if i == 2 {
                    Ok(AppAction::MachineAction(Instruction::Push(Panel::Blt(BltMenu::new()))))
                } else if i == 3 {
                    Ok(
                        AppAction::MachineAction(
                            Instruction::Push(Panel::Log(LogMenu::new(clone_lines(&state.log_lines)))),
                        ),
                    )
                } else {
                    Ok(AppAction::MachineAction(Instruction::Pop))
                }
            },
        }
    }
}

/// What activating the root menu yields: an unset or stale cursor is a
/// recoverable error; `Music`, `Bluetooth` and `Log` push their sections,
/// `Reboot` pops, `Wifi` does nothing yet.
pub open spec fn main_enter_rel(m: MainMenu, s: AppState, r: Result<AppAction, NavError>) -> bool {
    match m.state.selected {
        None => r == Err::<AppAction, NavError>(NavError::NoSelection),
        Some(i) => if i >= MAIN_MENU_LEN {
            r == Err::<AppAction, NavError>(NavError::OutOfBounds)
        } else if i == 0 {
            r matches Ok(
                AppAction::MachineAction(Instruction::Push(Panel::PlaylistCollection(pc))),
            ) && pc.state.selected is None && playlists_like(pc.playlists@, s.playlists@)
        } else if i == 1 {
            r == Ok::<AppAction, NavError>(AppAction::MachineAction(Instruction::Continue))
        } else if i == 2 {
            r matches Ok(AppAction::MachineAction(Instruction::Push(Panel::Blt(b))))
                && b.state.selected == Some(0usize) && b.devices@.len() == 0
        } else if i == 3 {
            r matches Ok(AppAction::MachineAction(Instruction::Push(Panel::Log(l))))
                && l.state.selected == Some(0usize) && l.lines@ == s.log_lines@
        } else {
            r == Ok::<AppAction, NavError>(AppAction::MachineAction(Instruction::Pop))
        },
    }
}

} // verus!
