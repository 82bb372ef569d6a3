use nokota::app::App;
use nokota::app::AppState;
use nokota::app::Focus;
use nokota::app_actions::AppAction;
use nokota::app_actions::DetachedTask;
use nokota::app_actions::StateMutation;
use nokota::config::Config;
use nokota::device::BluetoothItem;
use nokota::device::Device;
use nokota::event::BltEvent;
use nokota::event::Event;
use nokota::event::KeyPress;
use nokota::machine::Instruction;
use nokota::menus::LinkTarget;
use nokota::menus::Panel;
use nokota::menus::PlaylistItem;
use nokota::menus::device_menu::DeviceMenu;
use nokota::menus::main_menu::MainMenu;
use nokota::menus::main_menu::Options;
use nokota::menus::playlist_collection_menu::PlaylistCollectionMenu;
use nokota::menus::quick_menu::QuickMenu;
use nokota::nav::MenuState;
use nokota::nav::NavError;
use nokota::nav::SelectionState;
use nokota::playlist::Playlist;

fn device(address: u64, connected: bool, trusted: bool) -> Device {
    Device::new(address, format!("dev{address}"), false, connected, trusted, Some(80))
}

fn playlist(title: &str) -> Playlist {
    Playlist::new(String::from(title), Vec::new(), format!("{title}.toml"))
}

#[test]
fn registry_replaces_same_address_and_removes() {
    let mut state = AppState::new(Vec::new(), Vec::new());
    state.add_device(device(1, false, false));
    state.add_device(device(2, false, false));
    assert_eq!(state.devices.len(), 2);

    // Same address again: replaced, not duplicated.
    state.add_device(device(1, true, false));
    assert_eq!(state.devices.len(), 2);
    assert!(state.devices.iter().any(|d| d.address == 1 && d.is_connected));

    state.remove_device(1);
    assert_eq!(state.devices.len(), 1);
    assert_eq!(state.devices[0].address, 2);

    // Removing an unknown address changes nothing.
    state.remove_device(9);
    assert_eq!(state.devices.len(), 1);

    let cloned = state.cloned_devices();
    assert_eq!(cloned.len(), 1);
    assert_eq!(cloned[0].address, 2);
}

#[test]
fn activation_errors_are_recoverable() {
    let state = AppState::new(Vec::new(), Vec::new());

    // No selection yet.
    let menu = PlaylistCollectionMenu::new(vec![playlist("Mix")]);
    let p = Panel::PlaylistCollection(menu);
    assert_eq!(
        p.enter(&state).err(),
        Some(NavError::NoSelection),
    );

    // A cursor left beyond a shrunken list.
    let mut menu = PlaylistCollectionMenu::new(vec![playlist("Mix")]);
    menu.state.select(Some(5));
    let p = Panel::PlaylistCollection(menu);
    assert_eq!(p.enter(&state).err(), Some(NavError::OutOfBounds));
}

#[test]
fn main_menu_opens_sections_and_leaves() {
    let state = AppState::new(vec![playlist("Mix"), playlist("Focus")], Vec::new());
    let mut menu = MainMenu::new();

    // Music pushes the playlist table, carrying the shared playlists.
    match Panel::Main(MainMenu::new()).enter(&state) {
        Ok(AppAction::MachineAction(Instruction::Push(Panel::PlaylistCollection(pc)))) => {
            assert_eq!(pc.playlists.len(), 2);
            assert_eq!(pc.playlists[0].title, "Mix");
        },
        _ => panic!("expected a push of the playlist table"),
    }

    // Reboot, the last entry, pops.
    menu.state.select(Some(4));
    match Panel::Main(menu).enter(&state) {
        Ok(AppAction::MachineAction(Instruction::Pop)) => {},
        _ => panic!("expected a pop"),
    }
}

#[test]
fn device_menu_toggles_connection_and_trust() {
    let connected = DeviceMenu::new(device(5, true, false));
    match connected.enter() {
        Ok(AppAction::Once(DetachedTask::Disconnect(d))) => assert_eq!(d.address, 5),
        _ => panic!("expected a disconnect for a connected device"),
    }

    let mut trusting = DeviceMenu::new(device(6, false, true));
    trusting.state.select(Some(1));
    match trusting.enter() {
        Ok(AppAction::Once(DetachedTask::Untrust(d))) => assert_eq!(d.address, 6),
        _ => panic!("expected an untrust for a trusted device"),
    }
}

#[test]
fn overlay_refreshes_from_top_panel_and_playback() {
    let mut app = App::new(vec![playlist("Mix")], Vec::new());

    // Root menu, silent player: the overlay still offers the way out.
    app.tick();
    assert_eq!(app.quick.actions.len(), 1);
    assert!(matches!(
        app.quick.actions[0],
        AppAction::MachineAction(Instruction::Pop)
    ));
    assert_eq!(app.quick.get_height(), 2);

    // A pushed panel contributes "go back"; loaded audio adds "pause".
    app.machine.handle_instruction(Instruction::Push(Panel::Device(DeviceMenu::new(device(
        5, false, false,
    )))));
    StateMutation::Play(nokota::app_actions::PlayPlaylist::new(Playlist::new(
        String::from("Mix"),
        vec![nokota::track::Track::new(
            String::from("/music/one.mp3"),
            String::from("one"),
            String::from("someone"),
            1000,
        )],
        String::from("mix.toml"),
    )))
    .mutate_state(&mut app.state);
    app.tick();
    assert_eq!(app.quick.actions.len(), 2);
    assert_eq!(app.quick.get_height(), 3);
    assert!(matches!(
        app.quick.actions[0],
        AppAction::StateAction(StateMutation::Pause)
    ));
    assert!(matches!(
        app.quick.actions[1],
        AppAction::MachineAction(Instruction::Pop)
    ));

    // Taking the selected entry consumes it.
    let mut quick = QuickMenu::new();
    assert_eq!(quick.actions.len(), 1);
    quick.state.select(Some(0));
    assert!(matches!(
        quick.enter(),
        Ok(AppAction::MachineAction(Instruction::Pop))
    ));
    assert_eq!(quick.actions.len(), 0);
}

#[test]
fn events_drive_the_whole_loop_step() {
    let mut app = App::new(vec![playlist("Mix")], Vec::new());

    // A device appears and is registered.
    assert!(app.handle_event(Event::Blt(BltEvent::Add(device(9, false, false)))).is_none());
    assert_eq!(app.state.devices.len(), 1);

    // Enter on the root menu's first entry opens the playlist table.
    assert!(app.handle_event(Event::Input(KeyPress::Enter)).is_none());
    assert_eq!(app.machine.stack.len(), 2);
    assert!(matches!(app.machine.last(), Panel::PlaylistCollection(_)));

    // The device goes away again.
    assert!(app.handle_event(Event::Blt(BltEvent::Remove(9))).is_none());
    assert_eq!(app.state.devices.len(), 0);

    // The quit key ends the loop.
    assert!(app.is_active());
    assert!(app.handle_event(Event::Input(KeyPress::CharQ)).is_none());
    assert!(!app.is_active());
}

#[test]
fn root_entries_carry_their_labels() {
    let all = Options::variants();
    assert_eq!(all.len(), 5);
    let labels: Vec<String> = all.iter().map(|o| o.label()).collect();
    assert_eq!(labels, vec!["Music", "Wifi", "Bluetooth", "Log", "Reboot"]);
}

#[test]
fn device_row_shows_alias_address_and_flags() {
    let row = device(5, true, false).data();
    assert_eq!(row, vec![
        String::from("dev5"),
        String::from("00:00:00:00:00:05"),
        String::from("false"),
        String::from("true"),
        String::from("false"),
    ]);
    let row = device(0xA1B2C3D4E5F6, false, false).data();
    assert_eq!(row[1], "A1:B2:C3:D4:E5:F6");
}

#[test]
fn root_overlay_go_back_exits_the_session() {
    // On the root panel the overlay's go-back row pops the only panel,
    // which is the application's exit path.
    let mut app = App::new(Vec::new(), Vec::new());
    app.tick();
    app.focus = Focus::OverlayFocused;
    assert_eq!(app.quick.state.selected, Some(0));
    assert!(app.is_active());
    assert!(app.handle_event(Event::Input(KeyPress::Enter)).is_none());
    assert!(!app.is_active());
}

#[test]
fn dispatch_logs_the_action_first() {
    let mut app = App::new(Vec::new(), Vec::new());
    let work = nokota::app::dispatch(
        AppAction::MachineAction(Instruction::Continue),
        &mut app.machine,
        &mut app.state,
    );
    assert!(work.is_none());
    assert_eq!(app.state.log_lines, vec![String::from("continue")]);

    let work = nokota::app::dispatch(
        AppAction::Once(DetachedTask::Connect(device(4, false, false))),
        &mut app.machine,
        &mut app.state,
    );
    assert!(work.is_some());
    assert_eq!(app.state.log_lines.last().map(|s| s.as_str()), Some("Connect(dev4)"));
}

#[test]
fn link_items_open_their_sections() {
    let state = AppState::new(vec![playlist("Mix")], Vec::new());

    let mut link = PlaylistItem.to_menu();
    link.state.select(Some(0));
    match Panel::Link(link).enter(&state) {
        Ok(AppAction::MachineAction(Instruction::Push(Panel::PlaylistCollection(pc)))) => {
            assert_eq!(pc.playlists.len(), 1);
        },
        _ => panic!("expected the playlist table"),
    }

    let mut link = BluetoothItem.to_menu();
    assert!(matches!(link.target, LinkTarget::Bluetooth));
    link.state.select(Some(0));
    match Panel::Link(link).enter(&state) {
        Ok(AppAction::MachineAction(Instruction::Push(Panel::Blt(b)))) => {
            assert_eq!(b.devices.len(), 0);
        },
        _ => panic!("expected the device table"),
    }
}

#[test]
fn overlay_activation_errors_are_recoverable() {
    let mut quick = QuickMenu::new();
    assert_eq!(quick.enter().err(), Some(NavError::NoSelection));
    quick.state.select(Some(9));
    assert_eq!(quick.enter().err(), Some(NavError::OutOfBounds));
    assert_eq!(quick.actions.len(), 1);
}

#[test]
fn tick_refreshes_the_device_table_from_the_registry() {
    let mut app = App::new(Vec::new(), Vec::new());
    app.machine.handle_instruction(Instruction::Push(Panel::Blt(
        nokota::menus::blt_menu::BltMenu::new(),
    )));
    app.handle_event(Event::Blt(BltEvent::Add(device(4, false, false))));
    app.handle_event(Event::Tick);
    match app.machine.last() {
        Panel::Blt(m) => {
            assert_eq!(m.devices.len(), 1);
            assert_eq!(m.devices[0].address, 4);
        },
        _ => panic!("expected the device table on top"),
    }
}

#[test]
fn detached_labels_name_the_device() {
    let pair = nokota::app_actions::PairDevice::new(device(3, false, false));
    assert_eq!(pair.label(), "pair(dev3)");
    let task = DetachedTask::Connect(device(4, false, false));
    assert_eq!(task.label(), "Connect(dev4)");
}

#[test]
fn config_keeps_its_music_dir() {
    let config = Config::new(String::from("/home/me/music"));
    assert_eq!(config.music_dir, "/home/me/music");
}

#[test]
fn selection_state_tracks_the_menu_state_contract() {
    let mut s = SelectionState::new();
    assert_eq!(s.selected(), None);
    s.select_first();
    assert_eq!(s.selected(), Some(0));
    s.select_last(7);
    assert_eq!(s.selected(), Some(6));
    s.select(None);
    assert_eq!(s.selected(), None);
}
