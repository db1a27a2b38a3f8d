use rustwm::groups::Group;
use rustwm::keys::{KeyAction, KeyBinding, KeyCombo};
use rustwm::layout::tiled::TiledLayout;
use rustwm::layout::{Command, LayoutStrategy, StackLayout, Viewport};
use rustwm::{
    close_window, focus_next, focus_previous, layout_next, shuffle_next, shuffle_previous, Config, Event,
    RustWindowManager,
};

const VP: Viewport = Viewport { x: 0, y: 0, width: 1000, height: 500 };
const PAD: u32 = 10;

fn layouts() -> Vec<LayoutStrategy> {
    vec![
        LayoutStrategy::Tiled(TiledLayout::new(String::from("tiled"), PAD)),
        LayoutStrategy::Stacked(StackLayout),
    ]
}

fn manager(keys: Vec<KeyBinding>) -> RustWindowManager {
    RustWindowManager::new(Config { keys, layouts: layouts() }, VP)
}

fn configures(cmds: &[Command]) -> Vec<(u64, u32, u32, u32, u32)> {
    cmds.iter()
        .filter_map(|c| match *c {
            Command::ConfigureWindow { window, x, y, width, height } => Some((window, x, y, width, height)),
            _ => None,
        })
        .collect()
}

fn windows(wm: &RustWindowManager) -> Vec<u64> {
    wm.group().windows.items.clone()
}

#[test]
fn new_manager_has_empty_default_group() {
    let wm = manager(vec![]);
    assert_eq!(wm.group().name, "default");
    assert_eq!(wm.group().get_focused(), None);
    assert!(windows(&wm).is_empty());
}

#[test]
fn add_two_windows_tiles_them() {
    let mut wm = manager(vec![]);
    wm.group_mut().add_window(1);
    let cmds = wm.group_mut().add_window(2);
    // (500 - 10) / 2 - 10 = 235
    let th = 235;
    assert_eq!(configures(&cmds), vec![(1, 10, 10, 980, th), (2, 10, 10 + th + 10, 980, th)]);
}

#[test]
fn map_request_registers_maps_and_tiles() {
    let mut wm = manager(vec![]);
    let cmds = wm.handle_event(Event::MapRequest(7));
    assert_eq!(cmds[0], Command::RegisterEvents(7));
    assert_eq!(cmds[1], Command::MapWindow(7));
    assert_eq!(configures(&cmds), vec![(7, 10, 10, 980, 480)]);
    assert_eq!(wm.group().get_focused(), Some(7));
}

#[test]
fn shuffle_next_swaps_order_keeps_focus() {
    let mut wm = manager(vec![]);
    wm.on_map_request(1);
    wm.on_map_request(2);
    assert_eq!(wm.group().get_focused(), Some(1));
    let cmds = shuffle_next(&mut wm);
    assert_eq!(windows(&wm), vec![2, 1]);
    assert_eq!(wm.group().get_focused(), Some(1));
    assert_eq!(configures(&cmds)[0].0, 2);
    shuffle_previous(&mut wm);
    assert_eq!(windows(&wm), vec![1, 2]);
    assert_eq!(wm.group().get_focused(), Some(1));
}

#[test]
fn remove_only_window_clears_focus() {
    let mut wm = manager(vec![]);
    wm.on_map_request(3);
    let cmds = wm.group_mut().remove_window(3);
    assert!(cmds.is_empty());
    assert_eq!(wm.group().get_focused(), None);
    assert!(close_window(&mut wm).is_empty());
}

#[test]
fn remove_unknown_window_is_no_op() {
    let mut wm = manager(vec![]);
    wm.on_map_request(3);
    wm.on_destroy_notify(99);
    assert_eq!(windows(&wm), vec![3]);
    assert_eq!(wm.group().get_focused(), Some(3));
}

#[test]
fn layout_next_cycles_tiled_stacked_tiled() {
    let mut wm = manager(vec![]);
    wm.on_map_request(1);
    wm.on_map_request(2);
    let stacked = layout_next(&mut wm);
    assert_eq!(configures(&stacked), vec![(1, 0, 0, 1000, 500)]);
    assert!(stacked.contains(&Command::UnmapWindow(2)));
    let tiled = layout_next(&mut wm);
    assert_eq!(configures(&tiled), vec![(1, 10, 10, 980, 235), (2, 10, 255, 980, 235)]);
}

#[test]
fn enter_notify_moves_focus() {
    let mut wm = manager(vec![]);
    wm.on_map_request(1);
    wm.on_map_request(2);
    wm.handle_event(Event::EnterNotify(2));
    assert_eq!(wm.group().get_focused(), Some(2));
    wm.on_enter_notify(42);
    assert_eq!(wm.group().get_focused(), Some(2));
}

#[test]
fn focus_next_and_previous_on_manager() {
    let mut wm = manager(vec![]);
    wm.on_map_request(1);
    wm.on_map_request(2);
    focus_next(&mut wm);
    assert_eq!(wm.group().get_focused(), Some(2));
    focus_next(&mut wm);
    assert_eq!(wm.group().get_focused(), Some(1));
    focus_previous(&mut wm);
    assert_eq!(wm.group().get_focused(), Some(2));
}

#[test]
fn close_window_asks_to_destroy_focused() {
    let mut wm = manager(vec![]);
    wm.on_map_request(5);
    assert_eq!(close_window(&mut wm), vec![Command::DestroyWindow(5)]);
    assert_eq!(windows(&wm), vec![5]);
}

#[test]
fn key_press_runs_bound_action() {
    let next = KeyCombo { modifiers: 8, keysym: 106 };
    let run = KeyCombo { modifiers: 8, keysym: 13 };
    let mut wm = manager(vec![
        KeyBinding { combo: next, action: KeyAction::FocusNext },
        KeyBinding { combo: run, action: KeyAction::Spawn(0) },
        KeyBinding { combo: next, action: KeyAction::CloseWindow },
    ]);
    wm.on_map_request(1);
    wm.on_map_request(2);
    wm.handle_event(Event::KeyPress(next));
    assert_eq!(wm.group().get_focused(), Some(2));
    assert_eq!(wm.on_key_press(run), vec![Command::Spawn(0)]);
}

#[test]
fn unbound_key_is_ignored() {
    let mut wm = manager(vec![]);
    wm.on_map_request(1);
    let cmds = wm.on_key_press(KeyCombo { modifiers: 0, keysym: 1 });
    assert!(cmds.is_empty());
    assert_eq!(windows(&wm), vec![1]);
}

#[test]
fn group_without_layouts_emits_nothing() {
    let mut g = Group::new(String::from("bare"), VP, vec![]);
    assert!(g.add_window(1).is_empty());
    assert!(g.layout_next().is_empty());
    assert_eq!(g.get_focused(), Some(1));
}

#[test]
fn well_formedness_is_checked() {
    let mut wm = manager(vec![]);
    wm.on_map_request(1);
    assert!(wm.is_well_formed());
    wm.groups.focused = None;
    assert!(!wm.is_well_formed());
    wm.groups.focused = Some(0);
    wm.group_mut().active = 5;
    assert!(!wm.is_well_formed());
}
