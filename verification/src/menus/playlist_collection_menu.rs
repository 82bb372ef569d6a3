//! The table of all playlists the persistence layer supplied.

use crate::app_actions::AppAction;
use crate::machine::Instruction;
use crate::menus::Panel;
use crate::menus::playlist_menu::PlaylistMenu;
use crate::nav::NavError;
use crate::nav::SelectionState;
use crate::playlist::Playlist;
use crate::playlist::playlist_like;
use vstd::prelude::*;

verus! {

/// A table of playlists; drilling in opens the selected playlist's menu.
#[derive(Debug)]
pub struct PlaylistCollectionMenu {
    pub state: SelectionState,
    pub playlists: Vec<Playlist>,
}

impl PlaylistCollectionMenu {
    pub fn new(playlists: Vec<Playlist>) -> (r: PlaylistCollectionMenu)
        ensures
            r.state.selected is None,
            r.playlists == playlists,
    {
        PlaylistCollectionMenu { state: SelectionState::new(), playlists }
    }

    pub fn get_len(&self) -> (r: usize)
        ensures
            r == self.playlists@.len(),
    {
        self.playlists.len()
    }

    /// The breadcrumb name of this panel.
    pub fn label(&self) -> (r: String)
        ensures
            r@ == "playlist"@,
    {
        String::from_str("playlist")
    }

    /// Activate the selected playlist: drill into its menu.
    pub fn enter(&self) -> (r: Result<AppAction, NavError>)
        ensures
            collection_enter_rel(*self, r),
    {
        match self.state.selected {
            None => Err(NavError::NoSelection),
            Some(i) => {
                if i >= self.playlists.len() {
                    Err(NavError::OutOfBounds)
                } else {
                    Ok(
                        AppAction::MachineAction(
                            Instruction::Push(
                                Panel::Playlist(PlaylistMenu::new(self.playlists[i].clone())),
                            ),
                        ),
                    )
                }
            },
        }
    }
}

/// What activating the playlist table yields: an unset or stale cursor is
/// a recoverable error, anything else drills into the selected playlist.
pub open spec fn collection_enter_rel(
    m: PlaylistCollectionMenu,
    r: Result<AppAction, NavError>,
) -> bool {
    match m.state.selected {
        None => r == Err::<AppAction, NavError>(NavError::NoSelection),
        Some(i) => if i >= m.playlists@.len() {
            r == Err::<AppAction, NavError>(NavError::OutOfBounds)
        } else {
            r matches Ok(AppAction::MachineAction(Instruction::Push(Panel::Playlist(pm))))
                && pm.state.selected == Some(0usize) && playlist_like(
                pm.playlist,
                m.playlists@[i as int],
            )
        },
    }
}

} // verus!
