use nokota::app::App;
use nokota::app::Focus;
use nokota::machine::Instruction;
use nokota::menus::Panel;
use nokota::menus::log_menu::LogMenu;
use nokota::menus::playlist_collection_menu::PlaylistCollectionMenu;
use nokota::menus::playlist_menu::PlaylistMenu;
use nokota::nav::Direction;
use nokota::nav::NavigationResult;
use nokota::nav::SelectionState;
use nokota::playlist::Playlist;

fn log_panel(n: usize) -> Panel {
    let mut lines = Vec::new();
    for i in 0..n {
        lines.push(format!("line {i}"));
    }
    Panel::Log(LogMenu::new(lines))
}

fn cursor_of(p: &Panel) -> Option<usize> {
    match p {
        Panel::Log(m) => m.state.selected,
        Panel::PlaylistCollection(m) => m.state.selected,
        _ => panic!("unexpected panel kind"),
    }
}

#[test]
fn previous_from_first_underflows_once_then_walks_back() {
    // Three items, cursor on the first: four "previous" moves give one
    // underflow, then re-entry at the last item and steady walking back.
    let mut p = log_panel(3);
    assert_eq!(cursor_of(&p), Some(0));

    assert_eq!(p.up(), NavigationResult::Underflow);
    assert_eq!(cursor_of(&p), None);

    assert_eq!(p.up(), NavigationResult::Moved);
    assert_eq!(cursor_of(&p), Some(2));

    assert_eq!(p.up(), NavigationResult::Moved);
    assert_eq!(cursor_of(&p), Some(1));

    assert_eq!(p.up(), NavigationResult::Moved);
    assert_eq!(cursor_of(&p), Some(0));
}

#[test]
fn empty_panel_first_move_always_hits_boundary() {
    // No selection, no items: the first move in either direction reports
    // the boundary, never a move.
    let mut p = Panel::PlaylistCollection(PlaylistCollectionMenu::new(Vec::new()));
    assert_eq!(cursor_of(&p), None);
    assert_eq!(p.up(), NavigationResult::Underflow);
    assert_eq!(p.down(), NavigationResult::Overflow);
    assert_eq!(cursor_of(&p), None);

    // Same with a stale selection left on an emptied list.
    let mut q = log_panel(0);
    assert_eq!(cursor_of(&q), Some(0));
    assert_eq!(q.down(), NavigationResult::Overflow);
    assert_eq!(q.up(), NavigationResult::Underflow);
}

#[test]
fn cursor_move_reenters_at_ends() {
    let mut s = SelectionState::new();
    assert_eq!(s.cursor_move(4, Direction::Previous), NavigationResult::Moved);
    assert_eq!(s.selected, Some(3));
    let mut t = SelectionState::new();
    assert_eq!(t.cursor_move(4, Direction::Next), NavigationResult::Moved);
    assert_eq!(t.selected, Some(0));
}

#[test]
fn focus_round_trip_over_single_item_panel() {
    // Stack focused on a one-item panel with its item selected: "down"
    // crosses into the overlay, "up" comes straight back, and the stack
    // keeps its depth throughout.
    let mut app = App::new(Vec::new(), Vec::new());
    let playlist = Playlist::new(String::from("Mix"), Vec::new(), String::from("mix.toml"));
    app.machine.handle_instruction(Instruction::Push(Panel::Playlist(PlaylistMenu::new(playlist))));
    let depth = app.machine.stack.len();
    assert!(matches!(app.focus, Focus::StackFocused));

    app.down();
    assert!(matches!(app.focus, Focus::OverlayFocused));
    assert_eq!(app.machine.stack.len(), depth);
    assert_eq!(app.quick.state.selected, Some(0));

    app.up();
    assert!(matches!(app.focus, Focus::StackFocused));
    assert_eq!(app.machine.stack.len(), depth);
}

#[test]
fn underflow_at_stack_top_is_absorbed() {
    // "Up" at the top of the stack clears the selection but focus stays
    // on the stack: there is nothing above it.
    let mut app = App::new(Vec::new(), Vec::new());
    app.up();
    assert!(matches!(app.focus, Focus::StackFocused));
    app.up();
    assert!(matches!(app.focus, Focus::StackFocused));
}
