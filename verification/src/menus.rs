//! The navigable panels and the closed union that the navigation stack
//! stores.
//!
//! Every concrete menu keeps its cursor in a [`SelectionState`] and moves
//! it with the one shared algorithm, so boundary crossing means the same
//! thing on every panel.

use crate::app::AppState;
use crate::app_actions::AppAction;
use crate::device::BluetoothItem;
use crate::device::Device;
use crate::machine::Instruction;
use crate::nav::Direction;
use crate::nav::NavError;
use crate::nav::NavigationResult;
use crate::nav::SelectionState;
use crate::nav::move_result;
use crate::nav::move_target;
use crate::playlist::clone_playlists;
use crate::playlist::playlists_like;
use vstd::prelude::*;

pub mod blt_menu;
pub mod device_menu;
pub mod log_menu;
pub mod main_menu;
pub mod mfrc522_menu;
pub mod playlist_collection_menu;
pub mod playlist_menu;
pub mod quick_menu;

use blt_menu::BltMenu;
use device_menu::DeviceMenu;
use log_menu::LogMenu;
use main_menu::MainMenu;
use mfrc522_menu::Mfrc522Menu;
use playlist_collection_menu::PlaylistCollectionMenu;
use playlist_menu::PlaylistMenu;

verus! {

/// What a single-row link panel opens when activated.
#[derive(Clone, Copy, Debug, PartialEq, Eq, Structural)]
pub enum LinkTarget {
    Playlists,
    Bluetooth,
}

/// A one-row panel whose single entry drills into another menu.
#[derive(Debug)]
pub struct LinkMenu {
    pub state: SelectionState,
    pub target: LinkTarget,
}

impl LinkMenu {
    pub fn new(target: LinkTarget) -> (r: LinkMenu)
        ensures
            r.state.selected is None,
            r.target == target,
    {
        LinkMenu { state: SelectionState::new(), target }
    }

    /// The text of the panel's single row.
    pub fn label(&self) -> (r: String)
        ensures
            self.target == LinkTarget::Playlists ==> r@ == "PlaylistMenu"@,
            self.target == LinkTarget::Bluetooth ==> r@ == "Bluetooth"@,
    {
        match self.target {
            LinkTarget::Playlists => String::from_str("PlaylistMenu"),
            LinkTarget::Bluetooth => String::from_str("Bluetooth"),
        }
    }
}

/// The row in the root frame that opens the playlist collection.
#[derive(Clone, Debug)]
pub struct PlaylistItem;

impl PlaylistItem {
    /// The one-row panel this item stands in.
    pub fn to_menu(self) -> (r: LinkMenu)
        ensures
            r.target == LinkTarget::Playlists,
            r.state.selected is None,
    {
        LinkMenu::new(LinkTarget::Playlists)
    }
}

impl BluetoothItem {
    /// The one-row panel this item stands in.
    pub fn to_menu(self) -> (r: LinkMenu)
        ensures
            r.target == LinkTarget::Bluetooth,
            r.state.selected is None,
    {
        LinkMenu::new(LinkTarget::Bluetooth)
    }
}

/// One navigable unit of the UI: the closed union over every concrete
/// menu kind.
#[derive(Debug)]
pub enum Panel {
    Main(MainMenu),
    PlaylistCollection(PlaylistCollectionMenu),
    Playlist(PlaylistMenu),
    Blt(BltMenu),
    Device(DeviceMenu),
    Log(LogMenu),
    Mfrc522(Mfrc522Menu),
    Link(LinkMenu),
}

/// How many items a panel currently shows.
pub open spec fn panel_len(p: Panel) -> nat {
    match p {
        Panel::Main(_) => main_menu::MAIN_MENU_LEN as nat,
        Panel::PlaylistCollection(m) => m.playlists@.len(),
        Panel::Playlist(_) => playlist_menu::PLAYLIST_MENU_LEN as nat,
        Panel::Blt(m) => m.devices@.len(),
        Panel::Device(_) => device_menu::DEVICE_MENU_LEN as nat,
        Panel::Log(m) => m.lines@.len(),
        Panel::Mfrc522(_) => mfrc522_menu::MFRC522_MENU_LEN as nat,
        Panel::Link(_) => 1,
    }
}

/// A panel's cursor.
pub open spec fn panel_cursor(p: Panel) -> Option<usize> {
    match p {
        Panel::Main(m) => m.state.selected,
        Panel::PlaylistCollection(m) => m.state.selected,
        Panel::Playlist(m) => m.state.selected,
        Panel::Blt(m) => m.state.selected,
        Panel::Device(m) => m.state.selected,
        Panel::Log(m) => m.state.selected,
        Panel::Mfrc522(m) => m.state.selected,
        Panel::Link(m) => m.state.selected,
    }
}

/// The same panel with its cursor replaced; nothing else changes.
pub open spec fn with_cursor(p: Panel, c: Option<usize>) -> Panel {
    let s = SelectionState { selected: c };
    match p {
        Panel::Main(m) => Panel::Main(MainMenu { state: s }),
        Panel::PlaylistCollection(m) => Panel::PlaylistCollection(
            PlaylistCollectionMenu { state: s, ..m },
        ),
        Panel::Playlist(m) => Panel::Playlist(PlaylistMenu { state: s, ..m }),
        Panel::Blt(m) => Panel::Blt(BltMenu { state: s, ..m }),
        Panel::Device(m) => Panel::Device(DeviceMenu { state: s, ..m }),
        Panel::Log(m) => Panel::Log(LogMenu { state: s, ..m }),
        Panel::Mfrc522(m) => Panel::Mfrc522(Mfrc522Menu { state: s, ..m }),
        Panel::Link(m) => Panel::Link(LinkMenu { state: s, ..m }),
    }
}

impl Panel {
    /// How many items the panel currently shows.
    pub fn get_len(&self) -> (r: usize)
        ensures
            r == panel_len(*self),
    {
        match self {
            Panel::Main(m) => m.get_len(),
            Panel::PlaylistCollection(m) => m.get_len(),
            Panel::Playlist(m) => m.get_len(),
            Panel::Blt(m) => m.get_len(),
            Panel::Device(m) => m.get_len(),
            Panel::Log(m) => m.get_len(),
            Panel::Mfrc522(m) => m.get_len(),
            Panel::Link(_) => 1,
        }
    }

    /// The panel's cursor state.
    fn state_mut(&mut self) -> (r: &mut SelectionState)
        ensures
            r.selected == panel_cursor(*old(self)),
            *final(self) == with_cursor(*old(self), final(r).selected),
    {
        match self {
            Panel::Main(m) => &mut m.state,
            Panel::PlaylistCollection(m) => &mut m.state,
            Panel::Playlist(m) => &mut m.state,
            Panel::Blt(m) => &mut m.state,
            Panel::Device(m) => &mut m.state,
            Panel::Log(m) => &mut m.state,
            Panel::Mfrc522(m) => &mut m.state,
            Panel::Link(m) => &mut m.state,
        }
    }

    /// Move the cursor one step towards the first item.
    pub fn up(&mut self) -> (r: NavigationResult)
        ensures
            r == move_result(panel_cursor(*old(self)), panel_len(*old(self)), Direction::Previous),
            *final(self) == with_cursor(
                *old(self),
                move_target(panel_cursor(*old(self)), panel_len(*old(self)), Direction::Previous),
            ),
            r != NavigationResult::Overflow,
    {
        let len = self.get_len();
        self.state_mut().cursor_move(len, Direction::Previous)
    }

    /// Move the cursor one step towards the last item.
    pub fn down(&mut self) -> (r: NavigationResult)
        ensures
            r == move_result(panel_cursor(*old(self)), panel_len(*old(self)), Direction::Next),
            *final(self) == with_cursor(
                *old(self),
                move_target(panel_cursor(*old(self)), panel_len(*old(self)), Direction::Next),
            ),
            r != NavigationResult::Underflow,
    {
        let len = self.get_len();
        self.state_mut().cursor_move(len, Direction::Next)
    }

    /// The breadcrumb name of the panel.
    pub fn label(&self) -> (r: String)
        ensures
            r@ == panel_label_spec(*self),
    {
        match self {
            Panel::Main(m) => m.label(),
            Panel::PlaylistCollection(m) => m.label(),
            Panel::Playlist(m) => m.label(),
            Panel::Blt(m) => m.label(),
            Panel::Device(m) => m.label(),
            Panel::Log(m) => m.label(),
            Panel::Mfrc522(m) => m.label(),
            Panel::Link(m) => m.label(),
        }
    }

    /// Activate the item under the cursor and hand back the action it
    /// stands for. An unset or stale cursor is a recoverable error, never
    /// a fault.
    pub fn enter(&self, state: &AppState) -> (r: Result<AppAction, NavError>)
        ensures
            enter_rel(*self, *state, r),
    {
        match self {
            Panel::Main(m) => m.enter(state),
            Panel::PlaylistCollection(m) => m.enter(),
            Panel::Playlist(m) => m.enter(),
            Panel::Blt(m) => m.enter(),
            Panel::Device(m) => m.enter(),
            Panel::Log(m) => default_enter(m.state.selected, m.lines.len()),
            Panel::Mfrc522(m) => default_enter(m.state.selected, mfrc522_menu::MFRC522_MENU_LEN),
            Panel::Link(m) => m.enter(state),
        }
    }

    /// Refresh whatever the panel watches, once per clock tick, and say
    /// how the stack should change. Every panel here leaves the stack
    /// alone; only the device table has anything to refresh.
    pub fn tick(&mut self, state: &AppState) -> (inst: Instruction)
        ensures
            inst is Continue,
            tick_rel(*old(self), *final(self), state.devices@),
    {
        match self {
            Panel::Blt(m) => m.tick(state),
            _ => {},
        }
        Instruction::Continue
    }

    /// The quick actions this panel contributes to the overlay: every
    /// panel offers "go back" — on the root panel, where popping empties
    /// the stack, that row is the way out of the application.
    pub fn get_quick_actions(&self) -> (r: Vec<AppAction>)
        ensures
            r@ == seq![AppAction::MachineAction(Instruction::Pop)],
    {
        let mut v: Vec<AppAction> = Vec::new();
        v.push(AppAction::MachineAction(Instruction::Pop));
        proof {
            assert(v@ =~= seq![AppAction::MachineAction(Instruction::Pop)]);
        }
        v
    }
}

/// The default activation shared by informational panels: a valid cursor
/// yields "no stack change", anything else the recoverable errors.
fn default_enter(sel: Option<usize>, len: usize) -> (r: Result<AppAction, NavError>)
    ensures
        default_enter_rel(sel, len as nat, r),
{
    match sel {
        None => Err(NavError::NoSelection),
        Some(i) => {
            if i >= len {
                Err(NavError::OutOfBounds)
            } else {
                Ok(AppAction::MachineAction(Instruction::Continue))
            }
        },
    }
}

/// What activating an informational panel yields.
pub open spec fn default_enter_rel(
    sel: Option<usize>,
    len: nat,
    r: Result<AppAction, NavError>,
) -> bool {
    match sel {
        None => r == Err::<AppAction, NavError>(NavError::NoSelection),
        Some(i) => if i >= len {
            r == Err::<AppAction, NavError>(NavError::OutOfBounds)
        } else {
            r == Ok::<AppAction, NavError>(AppAction::MachineAction(Instruction::Continue))
        },
    }
}

impl LinkMenu {
    /// Activate the single row: drill into the linked menu.
    pub fn enter(&self, state: &AppState) -> (r: Result<AppAction, NavError>)
        ensures
            link_enter_rel(*self, *state, r),
    {
        match self.state.selected {
            None => Err(NavError::NoSelection),
            Some(i) => {
                if i >= 1 {
                    Err(NavError::OutOfBounds)
                } else {
                    match self.target {
                        LinkTarget::Playlists => Ok(
                            AppAction::MachineAction(
                                Instruction::Push(
                                    Panel::PlaylistCollection(
                                        playlist_collection_menu::PlaylistCollectionMenu::new(
                                            clone_playlists(&state.playlists),
                                        ),
                                    ),
                                ),
                            ),
                        ),
                        LinkTarget::Bluetooth => Ok(
                            AppAction::MachineAction(
                                Instruction::Push(Panel::Blt(BltMenu::new())),
                            ),
                        ),
                    }
                }
            },
        }
    }
}

/// What activating a link panel yields: its one row pushes the menu it
/// links to.
pub open spec fn link_enter_rel(m: LinkMenu, s: AppState, r: Result<AppAction, NavError>) -> bool {
    match m.state.selected {
        None => r == Err::<AppAction, NavError>(NavError::NoSelection),
        Some(i) => if i >= 1 {
            r == Err::<AppAction, NavError>(NavError::OutOfBounds)
        } else {
            match m.target {
                LinkTarget::Playlists => r matches Ok(
                    AppAction::MachineAction(Instruction::Push(Panel::PlaylistCollection(pc))),
                ) && pc.state.selected is None && playlists_like(pc.playlists@, s.playlists@),
                LinkTarget::Bluetooth => r matches Ok(
                    AppAction::MachineAction(Instruction::Push(Panel::Blt(b))),
                ) && b.state.selected == Some(0usize) && b.devices@.len() == 0,
            }
        },
    }
}

/// What activating any panel yields, panel kind by panel kind.
pub open spec fn enter_rel(p: Panel, s: AppState, r: Result<AppAction, NavError>) -> bool {
    match p {
        Panel::Main(m) => main_menu::main_enter_rel(m, s, r),
        Panel::PlaylistCollection(m) => playlist_collection_menu::collection_enter_rel(m, r),
        Panel::Playlist(m) => playlist_menu::playlist_enter_rel(m, r),
        Panel::Blt(m) => blt_menu::blt_enter_rel(m, r),
        Panel::Device(m) => device_menu::device_enter_rel(m, r),
        Panel::Log(m) => default_enter_rel(m.state.selected, m.lines@.len(), r),
        Panel::Mfrc522(m) => default_enter_rel(
            m.state.selected,
            mfrc522_menu::MFRC522_MENU_LEN as nat,
            r,
        ),
        Panel::Link(m) => link_enter_rel(m, s, r),
    }
}

/// How a tick changes a panel: the device table refreshes its rows from
/// the registry, every other panel stays as it is.
pub open spec fn tick_rel(o: Panel, n: Panel, devices: Seq<Device>) -> bool {
    if o is Blt {
        n is Blt && n->Blt_0.state == o->Blt_0.state && n->Blt_0.devices@ == devices
    } else {
        n == o
    }
}

/// The breadcrumb name a panel carries: a fixed word for the fixed menus,
/// the title or alias for panels tied to one playlist or device.
pub open spec fn panel_label_spec(p: Panel) -> Seq<char> {
    match p {
        Panel::Main(_) => "main"@,
        Panel::PlaylistCollection(_) => "playlist"@,
        Panel::Playlist(m) => m.playlist.title@,
        Panel::Blt(_) => "blt_menu"@,
        Panel::Device(m) => m.device.alias@,
        Panel::Log(_) => "log"@,
        Panel::Mfrc522(_) => "mfrc522"@,
        Panel::Link(m) => match m.target {
            LinkTarget::Playlists => "PlaylistMenu"@,
            LinkTarget::Bluetooth => "Bluetooth"@,
        },
    }
}

} // verus!
