//! The table of Bluetooth devices currently known to the application.
//!
//! The list is refreshed from the shared device registry on every tick, so
//! it follows hot-plug events without owning the registry.

use crate::app::AppState;
use crate::app_actions::AppAction;
use crate::device::Device;
use crate::machine::Instruction;
use crate::menus::Panel;
use crate::menus::device_menu::DeviceMenu;
use crate::nav::MenuState;
use crate::nav::NavError;
use crate::nav::SelectionState;
use vstd::prelude::*;

verus! {

/// A table of devices; drilling in opens the selected device's menu.
#[derive(Debug)]
pub struct BltMenu {
    pub state: SelectionState,
    pub devices: Vec<Device>,
}

impl BltMenu {
    /// A fresh device table; it fills on the first tick.
    pub fn new() -> (r: BltMenu)
        ensures
            r.state.selected == Some(0usize),
            r.devices@.len() == 0,
    {
        let mut state = SelectionState::new();
        state.select_first();
        BltMenu { state, devices: Vec::new() }
    }

    pub fn get_len(&self) -> (r: usize)
        ensures
            r == self.devices@.len(),
    {
        self.devices.len()
    }

    /// The breadcrumb name of this panel.
    pub fn label(&self) -> (r: String)
        ensures
            r@ == "blt_menu"@,
    {
        String::from_str("blt_menu")
    }

    /// Refresh the table from the shared device registry.
    pub fn tick(&mut self, state: &AppState)
        ensures
            final(self).state == old(self).state,
            final(self).devices@ == state.devices@,
    {
        self.devices = state.cloned_devices();
    }

    /// Activate the selected device: drill into its menu.
    pub fn enter(&self) -> (r: Result<AppAction, NavError>)
        ensures
            blt_enter_rel(*self, r),
    {
        match self.state.selected {
            None => Err(NavError::NoSelection),
            Some(i) => {
                if i >= self.devices.len() {
                    Err(NavError::OutOfBounds)
                } else {
                    Ok(
                        AppAction::MachineAction(
                            Instruction::Push(
                                Panel::Device(DeviceMenu::new(self.devices[i].clone())),
                            ),
                        ),
                    )
                }
            },
        }
    }
}

/// What activating the device table yields: an unset or stale cursor is a
/// recoverable error, anything else drills into the selected device.
pub open spec fn blt_enter_rel(m: BltMenu, r: Result<AppAction, NavError>) -> bool {
    match m.state.selected {
        None => r == Err::<AppAction, NavError>(NavError::NoSelection),
        Some(i) => if i >= m.devices@.len() {
            r == Err::<AppAction, NavError>(NavError::OutOfBounds)
        } else {
            r matches Ok(AppAction::MachineAction(Instruction::Push(Panel::Device(dm))))
                && dm.state.selected == Some(0usize) && dm.device == m.devices@[i as int]
        },
    }
}

} // verus!
