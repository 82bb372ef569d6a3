use nokota::app::App;
use nokota::app::AppState;
use nokota::app::dispatch;
use nokota::app_actions::AppAction;
use nokota::machine::Instruction;
use nokota::machine::Machine;
use nokota::menus::Panel;
use nokota::menus::log_menu::LogMenu;
use nokota::menus::main_menu::MainMenu;
use nokota::menus::mfrc522_menu::Mfrc522Menu;

fn main_panel() -> Panel {
    Panel::Main(MainMenu::new())
}

fn log_panel() -> Panel {
    Panel::Log(LogMenu::new(vec![String::from("started")]))
}

#[test]
fn pushes_then_pops_walk_through_every_depth() {
    // Three panels pushed, three pops: the stack passes depths 2 and 1
    // and ends empty, which stops the machine.
    let mut machine = Machine::new(main_panel());
    machine.handle_instruction(Instruction::Push(log_panel()));
    machine.handle_instruction(Instruction::Push(Panel::Mfrc522(Mfrc522Menu::new())));
    assert_eq!(machine.stack.len(), 3);

    machine.handle_instruction(Instruction::Pop);
    assert_eq!(machine.stack.len(), 2);
    assert!(machine.is_running());

    machine.handle_instruction(Instruction::Pop);
    assert_eq!(machine.stack.len(), 1);
    assert!(machine.is_running());

    machine.handle_instruction(Instruction::Pop);
    assert_eq!(machine.stack.len(), 0);
    assert!(!machine.is_running());
}

#[test]
fn pop_push_keeps_depth_and_replaces_top() {
    let mut machine = Machine::new(main_panel());
    machine.handle_instruction(Instruction::Push(log_panel()));
    assert_eq!(machine.stack.len(), 2);

    machine.handle_instruction(Instruction::PopPush(Panel::Mfrc522(Mfrc522Menu::new())));
    assert_eq!(machine.stack.len(), 2);
    assert!(matches!(machine.last(), Panel::Mfrc522(_)));
}

#[test]
fn three_pops_from_three_deep_end_the_loop() {
    // The end-to-end exit path: a three-deep session drained by three pop
    // actions is no longer active on the next loop iteration.
    let mut app = App::new(Vec::new(), Vec::new());
    app.machine.handle_instruction(Instruction::Push(log_panel()));
    app.machine.handle_instruction(Instruction::Push(Panel::Mfrc522(Mfrc522Menu::new())));
    assert_eq!(app.machine.stack.len(), 3);
    assert!(app.is_active());

    for _ in 0..3 {
        let work = dispatch(
            AppAction::MachineAction(Instruction::Pop),
            &mut app.machine,
            &mut app.state,
        );
        assert!(work.is_none());
    }
    assert!(!app.is_active());

    let mut iterations = 0;
    while app.is_active() {
        iterations += 1;
    }
    assert_eq!(iterations, 0);
}

#[test]
fn pop_on_empty_stack_stays_empty() {
    let mut machine = Machine::new(main_panel());
    machine.handle_instruction(Instruction::Pop);
    assert_eq!(machine.stack.len(), 0);
    machine.handle_instruction(Instruction::Pop);
    assert_eq!(machine.stack.len(), 0);
}

#[test]
fn breadcrumb_joins_panel_names() {
    let mut machine = Machine::new(main_panel());
    assert_eq!(machine.breadcrumb(), "main");
    machine.handle_instruction(Instruction::Push(log_panel()));
    assert_eq!(machine.breadcrumb(), "main/log");
}

#[test]
fn dispatching_detached_work_hands_it_back_untouched() {
    let mut machine = Machine::new(main_panel());
    let mut state = AppState::new(Vec::new(), Vec::new());
    let device = nokota::device::Device::new(7, String::from("ears"), false, false, false, None);
    let work = dispatch(
        AppAction::Once(nokota::app_actions::DetachedTask::Connect(device)),
        &mut machine,
        &mut state,
    );
    match work {
        Some(nokota::app_actions::DetachedTask::Connect(d)) => assert_eq!(d.address, 7),
        _ => panic!("expected the connect task back"),
    }
    assert_eq!(machine.stack.len(), 1);
}

#[test]
fn action_labels_match_their_meaning() {
    assert_eq!(Instruction::Pop.label(), "pop");
    assert_eq!(Instruction::Continue.label(), "continue");
    let playlist = nokota::playlist::Playlist::new(
        String::from("Mix"),
        Vec::new(),
        String::from("mix.toml"),
    );
    let play = nokota::app_actions::PlayPlaylist::new(playlist);
    assert_eq!(play.label(), "Play(Mix)");
    assert_eq!(nokota::app_actions::ClearLog.label(), "ClearLog");
    let push = Instruction::Push(main_panel());
    assert_eq!(push.label(), "push(main)");
}
