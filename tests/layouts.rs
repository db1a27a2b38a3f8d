use rustwm::layout::tiled::TiledLayout;
use rustwm::layout::{Command, Layout, StackLayout, Viewport};
use rustwm::stack::Stack;

fn stack_of(items: &[u64]) -> Stack<u64> {
    let mut s = Stack::new();
    for &i in items {
        s.push(i);
    }
    s
}

fn configures(cmds: &[Command]) -> Vec<(u64, u32, u32, u32, u32)> {
    cmds.iter()
        .filter_map(|c| match *c {
            Command::ConfigureWindow { window, x, y, width, height } => Some((window, x, y, width, height)),
            _ => None,
        })
        .collect()
}

fn shown(cmds: &[Command], w: u64) -> Option<bool> {
    let mut r = None;
    for c in cmds {
        match *c {
            Command::MapWindow(x) if x == w => r = Some(true),
            Command::UnmapWindow(x) if x == w => r = Some(false),
            _ => {}
        }
    }
    r
}

const VP: Viewport = Viewport { x: 10, y: 20, width: 800, height: 600 };

#[test]
fn tiled_empty_stack_emits_nothing() {
    let t = TiledLayout::new(String::from("tiled"), 5);
    assert!(t.layout(&VP, &Stack::new()).is_empty());
}

#[test]
fn tiled_three_windows_geometry() {
    let t = TiledLayout::new(String::from("tiled"), 5);
    let cmds = t.layout(&VP, &stack_of(&[1, 2, 3]));
    // (600 - 5) / 3 - 5 = 193
    assert_eq!(
        configures(&cmds),
        vec![(1, 15, 25, 790, 193), (2, 15, 223, 790, 193), (3, 15, 421, 790, 193)]
    );
    let h: u32 = 3 * 193 + 4 * 5;
    assert!(h <= 600);
    for w in 1..4 {
        assert_eq!(shown(&cmds, w), Some(true));
    }
}

#[test]
fn tiled_suspends_tracking_around_each_configure() {
    let t = TiledLayout::new(String::from("tiled"), 0);
    let cmds = t.layout(&VP, &stack_of(&[4]));
    assert_eq!(
        cmds,
        vec![
            Command::DisableTracking(4),
            Command::MapWindow(4),
            Command::ConfigureWindow { window: 4, x: 10, y: 20, width: 800, height: 600 },
            Command::EnableTracking(4),
        ]
    );
}

#[test]
fn tiled_remainder_pixels_unused() {
    let t = TiledLayout::new(String::from("tiled"), 0);
    let vp = Viewport { x: 0, y: 0, width: 100, height: 100 };
    let cmds = t.layout(&vp, &stack_of(&[1, 2, 3]));
    assert_eq!(
        configures(&cmds),
        vec![(1, 0, 0, 100, 33), (2, 0, 33, 100, 33), (3, 0, 66, 100, 33)]
    );
}

#[test]
fn tiled_name_is_kept() {
    let t = TiledLayout::new(String::from("even"), 2);
    assert_eq!(t.name(), "even");
    assert_eq!(t.padding, 2);
}

#[test]
fn stacked_shows_only_focused() {
    let mut s = stack_of(&[1, 2, 3]);
    s.focus(1);
    let cmds = StackLayout.layout(&VP, &s);
    assert_eq!(shown(&cmds, 1), Some(false));
    assert_eq!(shown(&cmds, 2), Some(true));
    assert_eq!(shown(&cmds, 3), Some(false));
    assert_eq!(configures(&cmds), vec![(2, 10, 20, 800, 600)]);
}

#[test]
fn stacked_without_focus_shows_nothing() {
    let s = Stack { items: vec![1, 2], focused: None };
    let cmds = StackLayout.layout(&VP, &s);
    assert_eq!(shown(&cmds, 1), Some(false));
    assert_eq!(shown(&cmds, 2), Some(false));
    assert!(configures(&cmds).is_empty());
}

#[test]
fn stacked_empty_stack_emits_nothing() {
    assert!(StackLayout.layout(&VP, &Stack::new()).is_empty());
}
