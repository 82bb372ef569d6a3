//! Actions: single-use, ownership-consuming units of work that a panel's
//! activation hands to the dispatcher.
//!
//! An action is routed to one of three executors: stack reshaping, a
//! synchronous mutation of the shared state, or detached background work
//! whose outcome is only ever observed through later events.

use crate::app::AppState;
use crate::app::mutation_applies;
use crate::device::Device;
use crate::machine::Instruction;
use crate::playlist::Playlist;
use vstd::prelude::*;
use vstd::string::StringExecFns;

verus! {

/// Queue a playlist and start playing it.
#[derive(Debug)]
pub struct PlayPlaylist {
    pub playlist: Playlist,
}

impl PlayPlaylist {
    pub fn new(playlist: Playlist) -> (r: PlayPlaylist)
        ensures
            r.playlist == playlist,
    {
        PlayPlaylist { playlist }
    }

    /// The diagnostic label this action is logged under.
    pub fn label(&self) -> (r: String)
        ensures
            r@ == "Play("@ + self.playlist.title@ + ")"@,
    {
        String::from_str("Play(").concat(self.playlist.title.as_str()).concat(")")
    }
}

/// Drop the lines shown by the log view.
#[derive(Debug)]
pub struct ClearLog;

impl ClearLog {
    /// The diagnostic label this action is logged under.
    pub fn label(&self) -> (r: String)
        ensures
            r@ == "ClearLog"@,
    {
        String::from_str("ClearLog")
    }
}

/// Connect and pair one device, in the background.
#[derive(Debug)]
pub struct PairDevice {
    pub device: Device,
}

impl PairDevice {
    pub fn new(device: Device) -> (r: PairDevice)
        ensures
            r.device == device,
    {
        PairDevice { device }
    }

    /// The diagnostic label this action is logged under.
    pub fn label(&self) -> (r: String)
        ensures
            r@ == "pair("@ + self.device.alias@ + ")"@,
    {
        String::from_str("pair(").concat(self.device.alias.as_str()).concat(")")
    }
}

/// A synchronous mutation of the shared application state; it runs on the
/// application loop's thread and must be quick.
#[derive(Debug)]
pub enum StateMutation {
    Play(PlayPlaylist),
    Clear(ClearLog),
    Pause,
    Resume,
}

impl StateMutation {
    /// Run this mutation against the shared state, synchronously, on the
    /// application loop's thread. Playing a non-empty playlist always
    /// leaves the sink loaded and playing, whatever played before.
    pub fn mutate_state(self, state: &mut AppState)
        ensures
            mutation_applies(self, *old(state), *final(state)),
            self matches StateMutation::Play(p) ==> (p.playlist.tracks@.len() > 0
                ==> final(state).player.sink_empty == false && final(state).player.paused
                == false),
    {
        match self {
            StateMutation::Play(p) => {
                proof {
                    assert(p.playlist.tracks@.reverse().len() == p.playlist.tracks@.len());
                }
                state.player.queue_playlist(p.playlist.tracks);
                state.player.play();
            },
            StateMutation::Clear(_) => {
                state.log_lines.clear();
            },
            StateMutation::Pause => {
                state.player.pause();
            },
            StateMutation::Resume => {
                state.player.resume();
            },
        }
    }

    /// The diagnostic label this mutation is logged under.
    pub fn label(&self) -> (r: String)
        ensures
            r@ == mutation_label(*self),
    {
        match self {
            StateMutation::Play(p) => p.label(),
            StateMutation::Clear(c) => c.label(),
            StateMutation::Pause => String::from_str("pause"),
            StateMutation::Resume => String::from_str("resume"),
        }
    }
}

/// Background work dispatched without awaiting a result; whatever it
/// changes re-enters the application through later device events.
#[derive(Debug)]
pub enum DetachedTask {
    Pair(PairDevice),
    Connect(Device),
    Disconnect(Device),
    Trust(Device),
    Untrust(Device),
}

impl DetachedTask {
    /// The diagnostic label this detached work is logged under.
    pub fn label(&self) -> (r: String)
        ensures
            r@ == detached_label(*self),
    {
        match self {
            DetachedTask::Pair(p) => p.label(),
            DetachedTask::Connect(d) => String::from_str("Connect(").concat(
                d.alias.as_str(),
            ).concat(")"),
            DetachedTask::Disconnect(d) => String::from_str("Disconnect(").concat(
                d.alias.as_str(),
            ).concat(")"),
            DetachedTask::Trust(d) => String::from_str("Trust(").concat(d.alias.as_str()).concat(
                ")",
            ),
            DetachedTask::Untrust(d) => String::from_str("Untrust(").concat(
                d.alias.as_str(),
            ).concat(")"),
        }
    }
}

/// An action, routed by the dispatcher to exactly one executor.
#[derive(Debug)]
pub enum AppAction {
    /// Reshape the navigation stack.
    MachineAction(Instruction),
    /// Mutate the shared state synchronously.
    StateAction(StateMutation),
    /// Spawn detached background work.
    Once(DetachedTask),
}

impl From<Instruction> for AppAction {
    fn from(value: Instruction) -> (r: AppAction) {
        AppAction::MachineAction(value)
    }
}

impl vstd::std_specs::convert::FromSpecImpl<Instruction> for AppAction {
    open spec fn obeys_from_spec() -> bool {
        true
    }

    open spec fn from_spec(value: Instruction) -> AppAction {
        AppAction::MachineAction(value)
    }
}

/// The label an instruction is logged under: its verb, with the pushed
/// panel's name where one is carried.
pub open spec fn instruction_label(i: Instruction) -> Seq<char> {
    match i {
        Instruction::Continue => "continue"@,
        Instruction::Push(m) => "push("@ + crate::menus::panel_label_spec(m) + ")"@,
        Instruction::PopPush(m) => "pop_push("@ + crate::menus::panel_label_spec(m) + ")"@,
        Instruction::Pop => "pop"@,
    }
}

/// The label a state mutation is logged under.
pub open spec fn mutation_label(m: StateMutation) -> Seq<char> {
    match m {
        StateMutation::Play(p) => "Play("@ + p.playlist.title@ + ")"@,
        StateMutation::Clear(_) => "ClearLog"@,
        StateMutation::Pause => "pause"@,
        StateMutation::Resume => "resume"@,
    }
}

/// The label detached work is logged under.
pub open spec fn detached_label(d: DetachedTask) -> Seq<char> {
    match d {
        DetachedTask::Pair(p) => "pair("@ + p.device.alias@ + ")"@,
        DetachedTask::Connect(dev) => "Connect("@ + dev.alias@ + ")"@,
        DetachedTask::Disconnect(dev) => "Disconnect("@ + dev.alias@ + ")"@,
        DetachedTask::Trust(dev) => "Trust("@ + dev.alias@ + ")"@,
        DetachedTask::Untrust(dev) => "Untrust("@ + dev.alias@ + ")"@,
    }
}

/// The label an action is logged under: that of whatever it wraps.
pub open spec fn action_label(a: AppAction) -> Seq<char> {
    match a {
        AppAction::MachineAction(i) => instruction_label(i),
        AppAction::StateAction(m) => mutation_label(m),
        AppAction::Once(d) => detached_label(d),
    }
}

impl AppAction {
    /// The diagnostic label every action is logged under before dispatch.
    pub fn label(&self) -> (r: String)
        ensures
            r@ == action_label(*self),
    {
        match self {
            AppAction::MachineAction(inst) => inst.label(),
            AppAction::StateAction(m) => m.label(),
            AppAction::Once(task) => task.label(),
        }
    }
}

impl Instruction {
    /// The diagnostic label an instruction is logged under.
    pub fn label(&self) -> (r: String)
        ensures
            r@ == instruction_label(*self),
    {
        match self {
            Instruction::Continue => String::from_str("continue"),
            Instruction::Push(menu) => {
                let name = menu.label();
                String::from_str("push(").concat(name.as_str()).concat(")")
            },
            Instruction::PopPush(menu) => {
                let name = menu.label();
                String::from_str("pop_push(").concat(name.as_str()).concat(")")
            },
            Instruction::Pop => String::from_str("pop"),
        }
    }
}

} // verus!
