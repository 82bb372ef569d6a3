//! The menu of one Bluetooth device: connect or disconnect, trust or
//! distrust, depending on the device's current flags.

use crate::app_actions::AppAction;
use crate::app_actions::DetachedTask;
use crate::device::Device;
use crate::nav::MenuState;
use crate::nav::NavError;
use crate::nav::SelectionState;
use vstd::prelude::*;

verus! {

/// How many operations the device menu shows: one connection entry and
/// one trust entry.
pub const DEVICE_MENU_LEN: usize = 2;

/// The menu of a single device; it opens with the first entry selected.
#[derive(Debug)]
pub struct DeviceMenu {
    pub state: SelectionState,
    pub device: Device,
}

impl DeviceMenu {
    pub fn new(device: Device) -> (r: DeviceMenu)
        ensures
            r.state.selected == Some(0usize),
            r.device == device,
    {
        let mut state = SelectionState::new();
        state.select_first();
        DeviceMenu { state, device }
    }

    pub fn get_len(&self) -> (r: usize)
        ensures
            r == DEVICE_MENU_LEN,
    {
        DEVICE_MENU_LEN
    }

    /// The breadcrumb name of this panel: the device's alias.
    pub fn label(&self) -> (r: String)
        ensures
            r@ == self.device.alias@,
    {
        self.device.alias.clone()
    }

    /// Activate the selected operation. Each one is detached background
    /// work; what it changes comes back through later device events.
    pub fn enter(&self) -> (r: Result<AppAction, NavError>)
        ensures
            device_enter_rel(*self, r),
    {
        match self.state.selected {
            None => Err(NavError::NoSelection),
            Some(i) => {
                if i >= DEVICE_MENU_LEN {
                    Err(NavError::OutOfBounds)
                } else if i == 0 {
                    if self.device.is_connected {
                        Ok(AppAction::Once(DetachedTask::Disconnect(self.device.clone())))
                    } else {
                        Ok(AppAction::Once(DetachedTask::Connect(self.device.clone())))
                    }
                } else {
                    if self.device.is_trusted {
                        Ok(AppAction::Once(DetachedTask::Untrust(self.device.clone())))
                    } else {
                        Ok(AppAction::Once(DetachedTask::Trust(self.device.clone())))
                    }
                }
            },
        }
    }
}

/// What activating the device menu yields: the first entry toggles the
/// connection, the second the trust flag, each as detached work on this
/// device.
pub open spec fn device_enter_rel(m: DeviceMenu, r: Result<AppAction, NavError>) -> bool {
    match m.state.selected {
        None => r == Err::<AppAction, NavError>(NavError::NoSelection),
        Some(i) => if i >= DEVICE_MENU_LEN {
            r == Err::<AppAction, NavError>(NavError::OutOfBounds)
        } else if i == 0 {
            if m.device.is_connected {
                r == Ok::<AppAction, NavError>(
                    AppAction::Once(DetachedTask::Disconnect(m.device)),
                )
            } else {
                r == Ok::<AppAction, NavError>(AppAction::Once(DetachedTask::Connect(m.device)))
            }
        } else {
            if m.device.is_trusted {
                r == Ok::<AppAction, NavError>(AppAction::Once(DetachedTask::Untrust(m.device)))
            } else {
                r == Ok::<AppAction, NavError>(AppAction::Once(DetachedTask::Trust(m.device)))
            }
        },
    }
}

} // verus!
