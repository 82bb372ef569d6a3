//! The overlay panel: the always-visible bar of quick actions belonging
//! to the panel currently on top of the stack.
//!
//! Its item list is recomputed on every tick; activating an entry removes
//! it from the list, so each constructed action is dispatched at most
//! once.

use crate::app_actions::AppAction;
use crate::app_actions::StateMutation;
use crate::audio_player::AudioPlayer;
use crate::machine::Instruction;
use crate::menus::Panel;
use crate::nav::Direction;
use crate::nav::MenuState;
use crate::nav::NavError;
use crate::nav::NavigationResult;
use crate::nav::SelectionState;
use crate::nav::move_result;
use crate::nav::move_target;
use vstd::prelude::*;

verus! {

/// The quick-action overlay.
#[derive(Debug)]
pub struct QuickMenu {
    pub state: SelectionState,
    pub actions: Vec<AppAction>,
}

impl QuickMenu {
    /// A fresh overlay offering only "go back".
    pub fn new() -> (r: QuickMenu)
        ensures
            r.state.selected is None,
            r.actions@.len() == 1,
            r.actions@[0] is MachineAction,
            r.actions@[0]->MachineAction_0 is Pop,
    {
        let mut actions: Vec<AppAction> = Vec::new();
        actions.push(AppAction::MachineAction(Instruction::Pop));
        QuickMenu { state: SelectionState::new(), actions }
    }

    /// How many rows the overlay needs on screen: its entries and a
    /// header line, or nothing when it is empty.
    pub fn get_height(&self) -> (r: usize)
        requires
            self.actions@.len() < usize::MAX,
        ensures
            self.actions@.len() == 0 ==> r == 0,
            self.actions@.len() > 0 ==> r == self.actions@.len() + 1,
    {
        if self.actions.is_empty() {
            0
        } else {
            self.actions.len() + 1
        }
    }

    /// Move the overlay cursor one step towards the first entry.
    pub fn up(&mut self) -> (r: NavigationResult)
        ensures
            r == move_result(
                old(self).state.selected,
                old(self).actions@.len(),
                Direction::Previous,
            ),
            final(self).state.selected == move_target(
                old(self).state.selected,
                old(self).actions@.len(),
                Direction::Previous,
            ),
            final(self).actions@ == old(self).actions@,
    {
        let len = self.actions.len();
        self.state.cursor_move(len, Direction::Previous)
    }

    /// Move the overlay cursor one step towards the last entry.
    pub fn down(&mut self) -> (r: NavigationResult)
        ensures
            r == move_result(old(self).state.selected, old(self).actions@.len(), Direction::Next),
            final(self).state.selected == move_target(
                old(self).state.selected,
                old(self).actions@.len(),
                Direction::Next,
            ),
            final(self).actions@ == old(self).actions@,
    {
        let len = self.actions.len();
        self.state.cursor_move(len, Direction::Next)
    }

    /// Take the selected action out of the overlay. The action leaves the
    /// list, so it cannot be dispatched twice; the list is rebuilt on the
    /// next tick anyway.
    pub fn enter(&mut self) -> (r: Result<AppAction, NavError>)
        ensures
            old(self).state.selected is None ==> r == Err::<AppAction, NavError>(
                NavError::NoSelection,
            ) && *final(self) == *old(self),
            old(self).state.selected matches Some(i) ==> (i >= old(self).actions@.len() ==> r
                == Err::<AppAction, NavError>(NavError::OutOfBounds) && *final(self) == *old(
                self,
            )),
            old(self).state.selected matches Some(i) ==> (i < old(self).actions@.len() ==> r
                == Ok::<AppAction, NavError>(old(self).actions@[i as int]) && final(self).actions@
                == old(self).actions@.remove(i as int) && final(self).state == old(self).state),
    {
        match self.state.selected {
            None => Err(NavError::NoSelection),
            Some(i) => {
                if i >= self.actions.len() {
                    Err(NavError::OutOfBounds)
                } else {
                    Ok(self.actions.remove(i))
                }
            },
        }
    }

    /// The breadcrumb name of the overlay.
    pub fn label(&self) -> (r: String)
        ensures
            r@ == "quick_menu"@,
    {
        String::from_str("quick_menu")
    }

    /// Rebuild the overlay from the focused panel and the playback state:
    /// a pause or resume entry while audio is loaded, then the panel's
    /// own quick actions — always ending in "go back". A cursor that was
    /// unset snaps to the first entry.
    pub fn refresh(&mut self, top: &Panel, player: &AudioPlayer)
        ensures
            final(self).actions@ == quick_actions_of(*player),
            old(self).state.selected is Some ==> final(self).state.selected == old(
                self,
            ).state.selected,
            old(self).state.selected is None ==> final(self).state.selected == Some(0usize),
    {
        let mut actions: Vec<AppAction> = Vec::new();
        if !player.empty() {
            if player.is_paused() {
                actions.push(AppAction::StateAction(StateMutation::Resume));
            } else {
                actions.push(AppAction::StateAction(StateMutation::Pause));
            }
        }
        let mut rest = top.get_quick_actions();
        actions.append(&mut rest);
        proof {
            assert(actions@ =~= quick_actions_of(*player));
        }
        self.actions = actions;
        if self.state.selected().is_none() {
            self.state.select_first();
        }
    }
}

/// What the overlay shows for the playback state: a resume entry while
/// paused audio is loaded, a pause entry while it plays, then "go back".
/// The go-back row is always present and last; at the root of the stack
/// it exits the application.
pub open spec fn quick_actions_of(player: AudioPlayer) -> Seq<AppAction> {
    (if !player.sink_empty {
        seq![
            AppAction::StateAction(
                if player.paused {
                    StateMutation::Resume
                } else {
                    StateMutation::Pause
                },
            ),
        ]
    } else {
        Seq::empty()
    }) + seq![AppAction::MachineAction(Instruction::Pop)]
}

} // verus!
