//! The menu of one playlist: the operations it offers.

use crate::app_actions::AppAction;
use crate::app_actions::PlayPlaylist;
use crate::app_actions::StateMutation;
use crate::nav::MenuState;
use crate::nav::NavError;
use crate::nav::SelectionState;
use crate::playlist::Playlist;
use crate::playlist::playlist_like;
use vstd::prelude::*;

verus! {

/// The operations a playlist offers, in display order.
#[derive(Clone, Copy, Debug, PartialEq, Eq, Structural)]
pub enum PlaylistOptions {
    Play,
}

/// How many operations the playlist menu shows.
pub const PLAYLIST_MENU_LEN: usize = 1;

/// The menu of a single playlist; it opens with the first entry selected.
#[derive(Debug)]
pub struct PlaylistMenu {
    pub state: SelectionState,
    pub playlist: Playlist,
}

impl PlaylistMenu {
    pub fn new(playlist: Playlist) -> (r: PlaylistMenu)
        ensures
            r.state.selected == Some(0usize),
            r.playlist == playlist,
    {
        let mut state = SelectionState::new();
        state.select_first();
        PlaylistMenu { state, playlist }
    }

    pub fn get_len(&self) -> (r: usize)
        ensures
            r == PLAYLIST_MENU_LEN,
    {
        PLAYLIST_MENU_LEN
    }

    /// The breadcrumb name of this panel: the playlist's title.
    pub fn label(&self) -> (r: String)
        ensures
            r@ == self.playlist.title@,
    {
        self.playlist.title.clone()
    }

    /// Activate the selected operation: `Play` hands the whole playlist
    /// to the playback state.
    pub fn enter(&self) -> (r: Result<AppAction, NavError>)
        ensures
            playlist_enter_rel(*self, r),
    {
        match self.state.selected {
            None => Err(NavError::NoSelection),
            Some(i) => {
                if i >= PLAYLIST_MENU_LEN {
                    Err(NavError::OutOfBounds)
                } else {
                    Ok(
                        AppAction::StateAction(
                            StateMutation::Play(PlayPlaylist::new(self.playlist.clone())),
                        ),
                    )
                }
            },
        }
    }
}

/// What activating the playlist menu yields: an unset or stale cursor is
/// a recoverable error; `Play` wraps this playlist in a state mutation.
pub open spec fn playlist_enter_rel(m: PlaylistMenu, r: Result<AppAction, NavError>) -> bool {
    match m.state.selected {
        None => r == Err::<AppAction, NavError>(NavError::NoSelection),
        Some(i) => if i >= PLAYLIST_MENU_LEN {
            r == Err::<AppAction, NavError>(NavError::OutOfBounds)
        } else {
            r matches Ok(AppAction::StateAction(StateMutation::Play(pp))) && playlist_like(
                pp.playlist,
                m.playlist,
            )
        },
    }
}

} // verus!
