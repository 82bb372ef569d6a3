//! The application: shared state, the action dispatcher, and the
//! single-threaded loop step that drives the stack and the overlay.
//!
//! All mutation of navigation and shared state happens through the
//! methods here, on one thread; the funnel task only ever appends events.

use crate::app_actions::AppAction;
use crate::app_actions::DetachedTask;
use crate::app_actions::StateMutation;
use crate::audio_player::AudioPlayer;
use crate::audio_player::SinkCommand;
use crate::audio_player::play_rel;
use crate::audio_player::tick_plays;
use crate::device::Device;
use crate::event::BltEvent;
use crate::event::Event;
use crate::event::KeyPress;
use crate::machine::Machine;
use crate::machine::apply_spec;
use crate::menus::Panel;
use crate::menus::enter_rel;
use crate::menus::main_menu::MainMenu;
use crate::menus::panel_cursor;
use crate::menus::panel_len;
use crate::menus::quick_menu::QuickMenu;
use crate::menus::quick_menu::quick_actions_of;
use crate::menus::tick_rel;
use crate::menus::with_cursor;
use crate::nav::Direction;
use crate::nav::MenuState;
use crate::nav::NavigationResult;
use crate::nav::move_result;
use crate::nav::move_target;
use crate::playlist::Playlist;
use vstd::prelude::*;
use vstd::pervasive::VecAdditionalExecFns;

verus! {

/// No two registered devices share an address.
pub open spec fn devices_unique(s: Seq<Device>) -> bool {
    forall|i: int, j: int|
        0 <= i < j < s.len() ==> #[trigger] s[i].address != #[trigger] s[j].address
}

/// Whether some registered device has this address.
pub open spec fn has_addr(s: Seq<Device>, address: u64) -> bool {
    exists|i: int| 0 <= i < s.len() && #[trigger] s[i].address == address
}

/// The state shared by every panel and mutated only on the application
/// loop's thread.
#[derive(Debug)]
pub struct AppState {
    /// The playback model.
    pub player: AudioPlayer,
    /// The known devices, at most one per address.
    pub devices: Vec<Device>,
    /// The playlists materialized from storage at startup.
    pub playlists: Vec<Playlist>,
    /// The log lines shown by the log view.
    pub log_lines: Vec<String>,
}

impl AppState {
    /// Fresh state around the pre-materialized playlists and log lines.
    pub fn new(playlists: Vec<Playlist>, log_lines: Vec<String>) -> (r: AppState)
        ensures
            r.player.current is None,
            r.player.queue@.len() == 0,
            r.player.history@.len() == 0,
            r.player.paused == false,
            r.player.sink_empty == true,
            r.player.position_ms == 0,
            r.player.pending@.len() == 0,
            r.devices@.len() == 0,
            r.playlists == playlists,
            r.log_lines == log_lines,
            devices_unique(r.devices@),
    {
        AppState { player: AudioPlayer::new(), devices: Vec::new(), playlists, log_lines }
    }

    /// A copy of the device table, for a panel to own.
    pub fn cloned_devices(&self) -> (r: Vec<Device>)
        ensures
            r@ == self.devices@,
    {
        let r = self.devices.clone();
        proof {
            assert(r@ =~= self.devices@);
        }
        r
    }

    /// Register a device, replacing any entry with the same address.
    pub fn add_device(&mut self, device: Device)
        requires
            devices_unique(old(self).devices@),
        ensures
            devices_unique(final(self).devices@),
            !has_addr(old(self).devices@, device.address) ==> final(self).devices@ == old(
                self,
            ).devices@.push(device),
            has_addr(old(self).devices@, device.address) ==> exists|i: int|
                0 <= i < old(self).devices@.len() && old(self).devices@[i].address
                    == device.address && final(self).devices@ == old(self).devices@.update(
                    i,
                    device,
                ),
            final(self).player == old(self).player,
            final(self).playlists == old(self).playlists,
            final(self).log_lines == old(self).log_lines,
    {
        let mut i: usize = 0;
        while i < self.devices.len()
            invariant
                i <= self.devices@.len(),
                forall|j: int| 0 <= j < i ==> #[trigger] self.devices@[j].address != device.address,
                *self == *old(self),
                devices_unique(old(self).devices@),
            decreases self.devices@.len() - i,
        {
            if self.devices[i].address == device.address {
                self.devices.set(i, device);
                proof {
                    let s0 = old(self).devices@;
                    assert forall|a: int, b: int|
                        0 <= a < b < self.devices@.len() implies #[trigger] self.devices@[a].address
                        != #[trigger] self.devices@[b].address by {
                        assert(s0[a].address != s0[b].address);
                        if a == i {
                            assert(self.devices@[a].address == s0[a].address);
                        }
                        if b == i {
                            assert(self.devices@[b].address == s0[b].address);
                        }
                    }
                }
                return ;
            }
            i = i + 1;
        }
        self.devices.push(device);
    }

    /// Forget the device with this address, if it is registered.
    pub fn remove_device(&mut self, address: u64)
        requires
            devices_unique(old(self).devices@),
        ensures
            devices_unique(final(self).devices@),
            !has_addr(old(self).devices@, address) ==> final(self).devices@ == old(self).devices@,
            has_addr(old(self).devices@, address) ==> exists|i: int|
                0 <= i < old(self).devices@.len() && old(self).devices@[i].address == address
                    && final(self).devices@ == old(self).devices@.remove(i),
            final(self).player == old(self).player,
            final(self).playlists == old(self).playlists,
            final(self).log_lines == old(self).log_lines,
    {
        let mut i: usize = 0;
        while i < self.devices.len()
            invariant
                i <= self.devices@.len(),
                forall|j: int| 0 <= j < i ==> #[trigger] self.devices@[j].address != address,
                *self == *old(self),
                devices_unique(old(self).devices@),
            decreases self.devices@.len() - i,
        {
            if self.devices[i].address == address {
                let _ = self.devices.remove(i);
                proof {
                    lemma_unique_after_remove(old(self).devices@, i as int);
                }
                return ;
            }
            i = i + 1;
        }
    }
}

/// Removing an entry keeps the remaining addresses unique.
proof fn lemma_unique_after_remove(s: Seq<Device>, i: int)
    requires
        devices_unique(s),
        0 <= i < s.len(),
    ensures
        devices_unique(s.remove(i)),
{
}

/// How one state mutation changes the playback model. Playing a playlist
/// queues its tracks in order and starts the sink on the first; pause and
/// resume toggle the sink; clearing the log leaves playback alone.
pub open spec fn mutation_player_rel(m: StateMutation, o: AudioPlayer, n: AudioPlayer) -> bool {
    match m {
        StateMutation::Play(p) => {
            let q = o.queue@ + p.playlist.tracks@.reverse();
            &&& n.paused == false
            &&& n.position_ms == 0
            &&& n.history@ == o.history@
            &&& if q.len() > 0 {
                &&& n.current == Some(q.last())
                &&& n.queue@ == q.drop_last()
                &&& n.sink_empty == false
                &&& n.pending@ == o.pending@ + seq![
                    SinkCommand::Clear,
                    SinkCommand::Append(q.last()),
                    SinkCommand::Play,
                ]
            } else {
                &&& n.current is None
                &&& n.queue@ == q
                &&& n.sink_empty == true
                &&& n.pending@ == o.pending@ + seq![SinkCommand::Clear, SinkCommand::Play]
            }
        },
        StateMutation::Clear(_) => n == o,
        StateMutation::Pause => {
            &&& n.paused == true
            &&& n.pending@ == o.pending@.push(SinkCommand::Pause)
            &&& n.current == o.current
            &&& n.queue@ == o.queue@
            &&& n.history@ == o.history@
            &&& n.sink_empty == o.sink_empty
            &&& n.position_ms == o.position_ms
        },
        StateMutation::Resume => {
            &&& n.paused == false
            &&& n.pending@ == o.pending@.push(SinkCommand::Play)
            &&& n.current == o.current
            &&& n.queue@ == o.queue@
            &&& n.history@ == o.history@
            &&& n.sink_empty == o.sink_empty
            &&& n.position_ms == o.position_ms
        },
    }
}

/// How one state mutation relates the shared state before and after it
/// runs: the playback change above, the log lines dropped by the clearing
/// mutation and kept by every other, and the rest untouched.
pub open spec fn mutation_applies(m: StateMutation, o: AppState, n: AppState) -> bool {
    &&& n.devices@ == o.devices@
    &&& n.playlists@ == o.playlists@
    &&& mutation_player_rel(m, o.player, n.player)
    &&& if m is Clear {
        n.log_lines@.len() == 0
    } else {
        n.log_lines@ == o.log_lines@
    }
}

/// One line was appended to a log: everything already there is kept and
/// the new last line carries the given text.
pub open spec fn logged_one(o: Seq<String>, n: Seq<String>, line: Seq<char>) -> bool {
    n.len() == o.len() + 1 && n.drop_last() == o && n.last()@ == line
}

/// How a dispatched action relates the stack and the shared state before
/// and after, and what detached work it hands back to the runner. Every
/// action leaves its label in the log lines first; only the clearing
/// mutation then drops them again.
pub open spec fn dispatch_rel(
    action: AppAction,
    old_stack: Seq<Panel>,
    new_stack: Seq<Panel>,
    o: AppState,
    n: AppState,
    r: Option<DetachedTask>,
) -> bool {
    &&& n.devices@ == o.devices@
    &&& n.playlists@ == o.playlists@
    &&& match action {
        AppAction::MachineAction(inst) => new_stack == apply_spec(old_stack, inst) && n.player
            == o.player && logged_one(o.log_lines@, n.log_lines@, crate::app_actions::action_label(action))
            && r is None,
        AppAction::StateAction(m) => new_stack == old_stack && mutation_player_rel(
            m,
            o.player,
            n.player,
        ) && r is None && (if m is Clear {
            n.log_lines@.len() == 0
        } else {
            logged_one(o.log_lines@, n.log_lines@, crate::app_actions::action_label(action))
        }),
        AppAction::Once(d) => new_stack == old_stack && n.player == o.player && logged_one(
            o.log_lines@,
            n.log_lines@,
            crate::app_actions::action_label(action),
        ) && r == Some(d),
    }
}

/// Route one action to its executor: stack instructions reshape the
/// stack, state mutations run synchronously, detached work is handed back
/// for the runner to spawn. Every action is logged — its label joins the
/// shared log lines — before it runs.
pub fn dispatch(action: AppAction, machine: &mut Machine, state: &mut AppState) -> (r: Option<
    DetachedTask,
>)
    ensures
        dispatch_rel(
            action,
            old(machine).stack@,
            final(machine).stack@,
            *old(state),
            *final(state),
            r,
        ),
{
    let line = action.label();
    state.log_lines.push(line);
    proof {
        assert(state.log_lines@.drop_last() =~= old(state).log_lines@);
    }
    match action {
        AppAction::MachineAction(inst) => {
            machine.handle_instruction(inst);
            None
        },
        AppAction::StateAction(m) => {
            m.mutate_state(state);
            None
        },
        AppAction::Once(d) => Some(d),
    }
}

/// Which of the two navigable regions holds the cursor focus: the panel
/// stack or the quick-action overlay. Exactly one holds at a time.
#[derive(Clone, Copy, Debug, PartialEq, Eq, Structural)]
pub enum Focus {
    StackFocused,
    OverlayFocused,
}

/// The application: shared state, the panel stack, the overlay, and the
/// focus between the two regions.
#[derive(Debug)]
pub struct App {
    pub state: AppState,
    pub machine: Machine,
    pub quick: QuickMenu,
    pub focus: Focus,
    /// Cleared by the quit key; the loop also stops when the stack
    /// empties.
    pub running: bool,
}

impl App {
    /// A session opening on the root menu, stack focused.
    pub fn new(playlists: Vec<Playlist>, log_lines: Vec<String>) -> (r: App)
        ensures
            r.machine.stack@.len() == 1,
            r.machine.stack@[0] matches Panel::Main(m) && m.state.selected == Some(0usize),
            r.focus == Focus::StackFocused,
            r.running == true,
            r.state.playlists == playlists,
            r.state.log_lines == log_lines,
            r.state.devices@.len() == 0,
            devices_unique(r.state.devices@),
            r.state.player.current is None,
            r.state.player.pending@.len() == 0,
            r.quick.state.selected is None,
    {
        App {
            state: AppState::new(playlists, log_lines),
            machine: Machine::new(Panel::Main(MainMenu::new())),
            quick: QuickMenu::new(),
            focus: Focus::StackFocused,
            running: true,
        }
    }

    /// Whether the loop should run another iteration.
    pub fn is_active(&self) -> (r: bool)
        ensures
            r == (self.running && self.machine.stack@.len() > 0),
    {
        self.running && self.machine.is_running()
    }

    /// Stop the loop at the next iteration.
    pub fn quit(&mut self)
        ensures
            final(self).running == false,
            final(self).state == old(self).state,
            final(self).machine == old(self).machine,
            final(self).quick == old(self).quick,
            final(self).focus == old(self).focus,
    {
        self.running = false;
    }

    /// Move the cursor up through the focused region. An underflow on the
    /// stack is absorbed — nothing lies above it — while an underflow on
    /// the overlay hands focus back to the stack.
    pub fn up(&mut self)
        ensures
            up_rel(*old(self), *final(self)),
    {
        match self.focus {
            Focus::StackFocused => {
                if self.machine.is_running() {
                    let _ = self.machine.last_mut().up();
                }
            },
            Focus::OverlayFocused => {
                let r = self.quick.up();
                match r {
                    NavigationResult::Underflow => {
                        self.focus = Focus::StackFocused;
                    },
                    _ => {},
                }
            },
        }
    }

    /// Move the cursor down through the focused region. An overflow on
    /// the stack's top panel spills into the overlay, selecting its first
    /// entry; an overflow on the overlay is absorbed — it is the
    /// bottom-most focus target.
    pub fn down(&mut self)
        ensures
            down_rel(*old(self), *final(self)),
    {
        match self.focus {
            Focus::StackFocused => {
                if self.machine.is_running() {
                    let r = self.machine.last_mut().down();
                    match r {
                        NavigationResult::Overflow => {
                            self.focus = Focus::OverlayFocused;
                            self.quick.state.select_first();
                        },
                        _ => {},
                    }
                }
            },
            Focus::OverlayFocused => {
                let _ = self.quick.down();
            },
        }
    }

    /// Activate whatever holds the cursor focus and route the resulting
    /// action to the dispatcher. Focus itself never changes here, and an
    /// unset or stale cursor means "no action".
    pub fn enter(&mut self) -> (r: Option<DetachedTask>)
        ensures
            activate_rel(*old(self), *final(self), r),
    {
        match self.focus {
            Focus::StackFocused => {
                if !self.machine.is_running() {
                    return None;
                }
                match self.machine.last().enter(&self.state) {
                    Ok(action) => {
                        let ghost a = action;
                        let work = dispatch(action, &mut self.machine, &mut self.state);
                        proof {
                            assert(enter_rel(
                                old(self).machine.stack@.last(),
                                old(self).state,
                                Ok(a),
                            ));
                        }
                        work
                    },
                    Err(_) => None,
                }
            },
            Focus::OverlayFocused => {
                match self.quick.enter() {
                    Ok(action) => dispatch(action, &mut self.machine, &mut self.state),
                    Err(_) => None,
                }
            },
        }
    }

    /// Advance the application one clock tick: the playback state first,
    /// then the current panel, then rebuild the overlay from whatever is
    /// now on top.
    pub fn tick(&mut self)
        ensures
            app_tick_rel(*old(self), *final(self)),
    {
        self.state.player.tick();
        self.machine.tick(&self.state);
        if self.machine.is_running() {
            let top = self.machine.last();
            self.quick.refresh(top, &self.state.player);
        }
    }

    /// Turn one key into its navigation or lifecycle effect: the quit
    /// keys end the loop, the arrows move the focused cursor, enter
    /// activates.
    pub fn handle_key_events(&mut self, key: KeyPress) -> (r: Option<DetachedTask>)
        ensures
            key_rel(key, *old(self), *final(self), r),
    {
        match key {
            KeyPress::Esc | KeyPress::CharQ | KeyPress::CtrlC => {
                self.quit();
                None
            },
            KeyPress::Up => {
                self.up();
                None
            },
            KeyPress::Down => {
                self.down();
                None
            },
            KeyPress::Enter => self.enter(),
            KeyPress::Other => None,
        }
    }

    /// Consume one event from the funnel: ticks drive the panels and the
    /// playback state, keys navigate and activate, hot-plug events keep
    /// the device registry current.
    pub fn handle_event(&mut self, event: Event) -> (r: Option<DetachedTask>)
        requires
            devices_unique(old(self).state.devices@),
        ensures
            devices_unique(final(self).state.devices@),
            event is Tick ==> app_tick_rel(*old(self), *final(self)) && r is None,
            event matches Event::Input(key) ==> key_rel(key, *old(self), *final(self), r),
            event matches Event::Blt(b) ==> r is None && final(self).machine == old(self).machine
                && final(self).quick == old(self).quick && final(self).focus == old(self).focus
                && final(self).running == old(self).running
                && final(self).state.player == old(self).state.player
                && final(self).state.playlists == old(self).state.playlists
                && final(self).state.log_lines == old(self).state.log_lines,
            event matches Event::Blt(BltEvent::Add(d)) ==> (!has_addr(
                old(self).state.devices@,
                d.address,
            ) ==> final(self).state.devices@ == old(self).state.devices@.push(d)),
            event matches Event::Blt(BltEvent::Remove(a)) ==> (!has_addr(
                old(self).state.devices@,
                a,
            ) ==> final(self).state.devices@ == old(self).state.devices@),
    {
        match event {
            Event::Tick => {
                self.tick();
                None
            },
            Event::Input(key) => self.handle_key_events(key),
            Event::Blt(BltEvent::Add(device)) => {
                self.state.add_device(device);
                None
            },
            Event::Blt(BltEvent::Remove(address)) => {
                self.state.remove_device(address);
                None
            },
        }
    }
}

/// How pressing "up" relates the application before and after: the
/// focused region's cursor moves one step towards its first item, and an
/// overlay underflow hands focus back to the stack.
pub open spec fn up_rel(o: App, n: App) -> bool {
    &&& n.running == o.running
    &&& n.state == o.state
    &&& n.quick.actions@ == o.quick.actions@
    &&& match o.focus {
        Focus::StackFocused => {
            &&& n.focus == Focus::StackFocused
            &&& n.quick == o.quick
            &&& if o.machine.stack@.len() == 0 {
                n.machine == o.machine
            } else {
                let top = o.machine.stack@.last();
                n.machine.stack@ == o.machine.stack@.update(
                    o.machine.stack@.len() - 1,
                    with_cursor(
                        top,
                        move_target(panel_cursor(top), panel_len(top), Direction::Previous),
                    ),
                )
            }
        },
        Focus::OverlayFocused => {
            &&& n.machine == o.machine
            &&& n.quick.state.selected == move_target(
                o.quick.state.selected,
                o.quick.actions@.len(),
                Direction::Previous,
            )
            &&& n.focus == (if move_result(
                o.quick.state.selected,
                o.quick.actions@.len(),
                Direction::Previous,
            ) == NavigationResult::Underflow {
                Focus::StackFocused
            } else {
                Focus::OverlayFocused
            })
        },
    }
}

/// How pressing "down" relates the application before and after: the
/// focused region's cursor moves one step towards its last item, and an
/// overflow on the stack's top panel moves focus onto the overlay with
/// its first entry selected.
pub open spec fn down_rel(o: App, n: App) -> bool {
    &&& n.running == o.running
    &&& n.state == o.state
    &&& n.quick.actions@ == o.quick.actions@
    &&& match o.focus {
        Focus::StackFocused => {
            if o.machine.stack@.len() == 0 {
                n.machine == o.machine && n.focus == o.focus && n.quick == o.quick
            } else {
                let top = o.machine.stack@.last();
                &&& n.machine.stack@ == o.machine.stack@.update(
                    o.machine.stack@.len() - 1,
                    with_cursor(
                        top,
                        move_target(panel_cursor(top), panel_len(top), Direction::Next),
                    ),
                )
                &&& if move_result(panel_cursor(top), panel_len(top), Direction::Next)
                    == NavigationResult::Overflow {
                    n.focus == Focus::OverlayFocused && n.quick.state.selected == Some(0usize)
                } else {
                    n.focus == Focus::StackFocused && n.quick == o.quick
                }
            }
        },
        Focus::OverlayFocused => {
            &&& n.machine == o.machine
            &&& n.focus == Focus::OverlayFocused
            &&& n.quick.state.selected == move_target(
                o.quick.state.selected,
                o.quick.actions@.len(),
                Direction::Next,
            )
        },
    }
}

/// How activating relates the application before and after: the focused
/// region's selected item becomes an action routed to the dispatcher,
/// focus never changes, and an unset or stale cursor changes nothing.
pub open spec fn activate_rel(o: App, n: App, r: Option<DetachedTask>) -> bool {
    &&& n.focus == o.focus
    &&& n.running == o.running
    &&& match o.focus {
        Focus::StackFocused => {
            if o.machine.stack@.len() == 0 {
                n == o && r is None
            } else {
                let top = o.machine.stack@.last();
                let cursor = panel_cursor(top);
                if cursor is None || cursor->0 >= panel_len(top) {
                    n == o && r is None
                } else {
                    &&& n.quick == o.quick
                    &&& exists|a: AppAction|
                        #[trigger] enter_rel(top, o.state, Ok(a)) && dispatch_rel(
                            a,
                            o.machine.stack@,
                            n.machine.stack@,
                            o.state,
                            n.state,
                            r,
                        )
                }
            }
        },
        Focus::OverlayFocused => {
            match o.quick.state.selected {
                None => n == o && r is None,
                Some(i) => if i >= o.quick.actions@.len() {
                    n == o && r is None
                } else {
                    &&& n.quick.actions@ == o.quick.actions@.remove(i as int)
                    &&& n.quick.state == o.quick.state
                    &&& dispatch_rel(
                        o.quick.actions@[i as int],
                        o.machine.stack@,
                        n.machine.stack@,
                        o.state,
                        n.state,
                        r,
                    )
                },
            }
        },
    }
}

/// How one clock tick relates the application before and after: playback
/// advances, the top panel refreshes, and the overlay is rebuilt from the
/// new top panel and playback state.
pub open spec fn app_tick_rel(o: App, n: App) -> bool {
    &&& n.running == o.running
    &&& n.focus == o.focus
    &&& n.state.devices@ == o.state.devices@
    &&& n.state.playlists == o.state.playlists
    &&& n.state.log_lines == o.state.log_lines
    &&& (!tick_plays(o.state.player) ==> n.state.player == o.state.player)
    &&& (tick_plays(o.state.player) ==> play_rel(o.state.player, n.state.player))
    &&& (tick_plays(o.state.player) && o.state.player.current is None ==> n.state.player.history@
        == o.state.player.history@)
    &&& (o.state.player.current matches Some(cur) ==> (tick_plays(o.state.player)
        ==> n.state.player.history@ == o.state.player.history@.push(cur)))
    &&& if o.machine.stack@.len() == 0 {
        n.machine == o.machine && n.quick == o.quick
    } else {
        &&& n.machine.stack@.len() == o.machine.stack@.len()
        &&& forall|j: int|
            0 <= j < o.machine.stack@.len() - 1 ==> n.machine.stack@[j] == o.machine.stack@[j]
        &&& tick_rel(o.machine.stack@.last(), n.machine.stack@.last(), o.state.devices@)
        &&& n.quick.actions@ == quick_actions_of(n.state.player)
        &&& (o.quick.state.selected is Some ==> n.quick.state.selected == o.quick.state.selected)
        &&& (o.quick.state.selected is None ==> n.quick.state.selected == Some(0usize))
    }
}

/// How one key relates the application before and after: the quit keys
/// end the loop, the arrows move the focused cursor, enter activates,
/// anything else is ignored.
pub open spec fn key_rel(key: KeyPress, o: App, n: App, r: Option<DetachedTask>) -> bool {
    match key {
        KeyPress::Esc | KeyPress::CharQ | KeyPress::CtrlC => {
            &&& n.running == false
            &&& n.state == o.state
            &&& n.machine == o.machine
            &&& n.quick == o.quick
            &&& n.focus == o.focus
            &&& r is None
        },
        KeyPress::Up => up_rel(o, n) && r is None,
        KeyPress::Down => down_rel(o, n) && r is None,
        KeyPress::Enter => activate_rel(o, n, r),
        KeyPress::Other => n == o && r is None,
    }
}

/// Focus makes a round trip without touching the stack: starting stack
/// focused on a single-item top panel with its item selected, one "down"
/// moves focus onto the overlay — the top panel only has its cursor
/// cleared — and one "up" from there moves focus straight back, leaving
/// the stack and the shared state as they were.
pub proof fn lemma_focus_round_trip(o: App, n1: App, n2: App)
    requires
        o.focus == Focus::StackFocused,
        o.machine.stack@.len() > 0,
        panel_len(o.machine.stack@.last()) == 1,
        panel_cursor(o.machine.stack@.last()) == Some(0usize),
        down_rel(o, n1),
        up_rel(n1, n2),
    ensures
        n1.focus == Focus::OverlayFocused,
        n2.focus == Focus::StackFocused,
        n1.machine.stack@.len() == o.machine.stack@.len(),
        n2.machine == n1.machine,
        n1.machine.stack@ == o.machine.stack@.update(
            o.machine.stack@.len() - 1,
            with_cursor(o.machine.stack@.last(), None),
        ),
        n2.state == o.state,
{
    assert(move_result(Some(0usize), 1, Direction::Next) == NavigationResult::Overflow);
    assert(move_result(n1.quick.state.selected, n1.quick.actions@.len(), Direction::Previous)
        == NavigationResult::Underflow);
}

} // verus!
