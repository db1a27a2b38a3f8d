use vstd::prelude::*;

pub mod groups;
pub mod keys;
pub mod layout;
pub mod stack;

use groups::{group_step, Group, GroupOp};
use keys::{bound_action, lookup, KeyAction, KeyBinding, KeyCombo};
use layout::{Command, LayoutStrategy, Viewport, WindowId};
use stack::Stack;

verus! {

/// What the manager is set up with.
pub struct Config {
    pub keys: Vec<KeyBinding>,
    /// The cycle of layouts of the default group.
    pub layouts: Vec<LayoutStrategy>,
}

/// What the display connection reports.
#[derive(Clone, Copy, Debug, PartialEq, Eq, Structural)]
pub enum Event {
    MapRequest(WindowId),
    DestroyNotify(WindowId),
    KeyPress(KeyCombo),
    EnterNotify(WindowId),
}

/// The window manager: its key bindings and a focus stack of groups, the
/// focused one being the current group.
pub struct RustWindowManager {
    pub keys: Vec<KeyBinding>,
    pub groups: Stack<Group>,
}

/// `w1` is `w0` with its current group changed by `op`, all else kept.
pub open spec fn manager_step(w0: RustWindowManager, w1: RustWindowManager, op: GroupOp) -> bool {
    let f = w0.groups.focused.unwrap() as int;
    &&& w1.keys@ == w0.keys@
    &&& w1.groups.focused == w0.groups.focused
    &&& w1.groups.items@.len() == w0.groups.items@.len()
    &&& forall|i: int| 0 <= i < w0.groups.items@.len() && i != f ==> w1.groups.items@[i] == w0.groups.items@[i]
    &&& group_step(w0.current(), w1.current(), op)
}

/// The requests that close the current group's focused window.
pub open spec fn close_commands(wm: RustWindowManager) -> Seq<Command> {
    match wm.current().focused_window() {
        Some(w) => seq![Command::DestroyWindow(w)],
        None => Seq::empty(),
    }
}

/// The change to the current group that a key action makes, if any.
pub open spec fn action_op(action: KeyAction) -> Option<GroupOp> {
    match action {
        KeyAction::FocusNext => Some(GroupOp::FocusNext),
        KeyAction::FocusPrevious => Some(GroupOp::FocusPrevious),
        KeyAction::ShuffleNext => Some(GroupOp::ShuffleNext),
        KeyAction::ShufflePrevious => Some(GroupOp::ShufflePrevious),
        KeyAction::LayoutNext => Some(GroupOp::LayoutNext),
        _ => None,
    }
}

/// `w1` and the requests `r` are what key action `action` makes of `w0`.
pub open spec fn action_done(w0: RustWindowManager, w1: RustWindowManager, action: KeyAction, r: Seq<Command>) -> bool {
    match action {
        KeyAction::CloseWindow => w1 == w0 && r == close_commands(w0),
        KeyAction::Spawn(i) => w1 == w0 && r == seq![Command::Spawn(i)],
        _ => manager_step(w0, w1, action_op(action).unwrap()) && r == w1.current().arrangement(),
    }
}

impl RustWindowManager {
    pub open spec fn wf(&self) -> bool {
        &&& self.groups.wf()
        &&& self.groups.items@.len() > 0
        &&& forall|i: int| 0 <= i < self.groups.items@.len() ==> (#[trigger] self.groups.items@[i]).wf()
    }

    /// The current group.
    pub open spec fn current(&self) -> Group {
        self.groups.items@[self.groups.focused.unwrap() as int]
    }

    /// A manager with one empty group, "default", over `viewport`.
    pub fn new(config: Config, viewport: Viewport) -> (wm: Self)
        ensures
            wm.wf(),
            wm.keys@ == config.keys@,
            wm.groups.items@.len() == 1,
            wm.current().name@ == "default"@,
            wm.current().viewport == viewport,
            wm.current().layouts@ == config.layouts@,
            wm.current().active == 0,
            wm.current().windows.items@ == Seq::<WindowId>::empty(),
    {
        let Config { keys, layouts } = config;
        let mut groups: Stack<Group> = Stack::new();
        groups.push(Group::new(String::from_str("default"), viewport, layouts));
        RustWindowManager { keys, groups }
    }

    /// Whether the manager is well formed; what every handler needs of it.
    pub fn is_well_formed(&self) -> (r: bool)
        ensures
            r == self.wf(),
    {
        let n = self.groups.items.len();
        match self.groups.focused {
            Some(f) => if f >= n {
                return false;
            },
            None => {
                return false;
            },
        }
        let mut i: usize = 0;
        while i < n
            invariant
                n == self.groups.items@.len(),
                i <= n,
                forall|j: int| 0 <= j < i ==> (#[trigger] self.groups.items@[j]).wf(),
            decreases n - i,
        {
            let g = &self.groups.items[i];
            let ok = match g.windows.focused {
                Some(f) => f < g.windows.items.len(),
                None => g.windows.items.len() == 0,
            } && (g.layouts.len() == 0 || g.active < g.layouts.len());
            if !ok {
                assert(!self.groups.items@[i as int].wf());
                return false;
            }
            i = i + 1;
        }
        true
    }

    /// The current group.
    pub fn group(&self) -> (r: &Group)
        requires
            self.wf(),
        ensures
            *r == self.current(),
    {
        self.groups.focused().unwrap()
    }

    /// The current group, to change.
    pub fn group_mut(&mut self) -> (r: &mut Group)
        requires
            old(self).wf(),
        ensures
            *r == old(self).current(),
            final(self).keys == old(self).keys,
            final(self).groups.focused == old(self).groups.focused,
            final(self).groups.items@ == old(self).groups.items@.update(
                old(self).groups.focused.unwrap() as int,
                *final(r),
            ),
    {
        let f = self.groups.focused.unwrap();
        &mut self.groups.items[f]
    }

    /// Makes change `op` to the current group and arranges it again.
    fn change_group(&mut self, op: GroupOp) -> (r: Vec<Command>)
        requires
            old(self).wf(),
        ensures
            final(self).wf(),
            manager_step(*old(self), *final(self), op),
            r@ == final(self).current().arrangement(),
    {
        let ghost w0 = *self;
        let r = self.group_mut().apply(op);
        assert forall|i: int| 0 <= i < self.groups.items@.len() implies (#[trigger] self.groups.items@[i]).wf() by {
            if i != w0.groups.focused.unwrap() as int {
                assert(w0.groups.items@[i].wf());
            }
        }
        r
    }

    /// A window asks to be shown: it is subscribed to input, mapped, and
    /// added to the current group.
    pub fn on_map_request(&mut self, window_id: WindowId) -> (r: Vec<Command>)
        requires
            old(self).wf(),
        ensures
            final(self).wf(),
            manager_step(*old(self), *final(self), GroupOp::AddWindow(window_id)),
            r@ == seq![Command::RegisterEvents(window_id), Command::MapWindow(window_id)] + final(self).current().arrangement(),
    {
        let mut r: Vec<Command> = Vec::new();
        r.push(Command::RegisterEvents(window_id));
        r.push(Command::MapWindow(window_id));
        let mut rest = self.change_group(GroupOp::AddWindow(window_id));
        r.append(&mut rest);
        r
    }

    /// A window is gone: it leaves the current group.
    pub fn on_destroy_notify(&mut self, window_id: WindowId) -> (r: Vec<Command>)
        requires
            old(self).wf(),
        ensures
            final(self).wf(),
            manager_step(*old(self), *final(self), GroupOp::RemoveWindow(window_id)),
            r@ == final(self).current().arrangement(),
    {
        self.change_group(GroupOp::RemoveWindow(window_id))
    }

    /// The pointer entered a window: focus follows it.
    pub fn on_enter_notify(&mut self, window_id: WindowId) -> (r: Vec<Command>)
        requires
            old(self).wf(),
        ensures
            final(self).wf(),
            manager_step(*old(self), *final(self), GroupOp::Focus(window_id)),
            r@ == final(self).current().arrangement(),
    {
        self.change_group(GroupOp::Focus(window_id))
    }

    /// A key was pressed: the action of its first binding runs; an unbound
    /// key changes nothing.
    pub fn on_key_press(&mut self, key: KeyCombo) -> (r: Vec<Command>)
        requires
            old(self).wf(),
        ensures
            final(self).wf(),
            match bound_action(old(self).keys@, key) {
                Some(a) => action_done(*old(self), *final(self), a, r@),
                None => *final(self) == *old(self) && r@ == Seq::<Command>::empty(),
            },
    {
        match lookup(&self.keys, key) {
            Some(action) => run_action(self, action),
            None => Vec::new(),
        }
    }

    /// Handles one event of the display connection.
    pub fn handle_event(&mut self, event: Event) -> (r: Vec<Command>)
        requires
            old(self).wf(),
        ensures
            final(self).wf(),
            match event {
                Event::MapRequest(id) => manager_step(*old(self), *final(self), GroupOp::AddWindow(id))
                    && r@ == seq![Command::RegisterEvents(id), Command::MapWindow(id)]
                    + final(self).current().arrangement(),
                Event::DestroyNotify(id) => manager_step(*old(self), *final(self), GroupOp::RemoveWindow(id))
                    && r@ == final(self).current().arrangement(),
                Event::EnterNotify(id) => manager_step(*old(self), *final(self), GroupOp::Focus(id))
                    && r@ == final(self).current().arrangement(),
                Event::KeyPress(key) => match bound_action(old(self).keys@, key) {
                    Some(a) => action_done(*old(self), *final(self), a, r@),
                    None => *final(self) == *old(self) && r@ == Seq::<Command>::empty(),
                },
            },
    {
        match event {
            Event::MapRequest(id) => self.on_map_request(id),
            Event::DestroyNotify(id) => self.on_destroy_notify(id),
            Event::KeyPress(key) => self.on_key_press(key),
            Event::EnterNotify(id) => self.on_enter_notify(id),
        }
    }
}

/// Runs key action `action`.
pub fn run_action(wm: &mut RustWindowManager, action: KeyAction) -> (r: Vec<Command>)
    requires
        old(wm).wf(),
    ensures
        final(wm).wf(),
        action_done(*old(wm), *final(wm), action, r@),
{
    match action {
        KeyAction::CloseWindow => close_window(wm),
        KeyAction::FocusNext => focus_next(wm),
        KeyAction::FocusPrevious => focus_previous(wm),
        KeyAction::ShuffleNext => shuffle_next(wm),
        KeyAction::ShufflePrevious => shuffle_previous(wm),
        KeyAction::LayoutNext => layout_next(wm),
        KeyAction::Spawn(i) => {
            let mut r: Vec<Command> = Vec::new();
            r.push(Command::Spawn(i));
            r
        },
    }
}

/// Asks the connection to close the current group's focused window.
pub fn close_window(wm: &mut RustWindowManager) -> (r: Vec<Command>)
    requires
        old(wm).wf(),
    ensures
        *final(wm) == *old(wm),
        r@ == close_commands(*old(wm)),
{
    let mut r: Vec<Command> = Vec::new();
    if let Some(w) = wm.group().get_focused() {
        r.push(Command::DestroyWindow(w));
    }
    r
}

/// Moves focus to the next window of the current group.
pub fn focus_next(wm: &mut RustWindowManager) -> (r: Vec<Command>)
    requires
        old(wm).wf(),
    ensures
        final(wm).wf(),
        manager_step(*old(wm), *final(wm), GroupOp::FocusNext),
        r@ == final(wm).current().arrangement(),
{
    wm.change_group(GroupOp::FocusNext)
}

/// Moves focus to the previous window of the current group.
pub fn focus_previous(wm: &mut RustWindowManager) -> (r: Vec<Command>)
    requires
        old(wm).wf(),
    ensures
        final(wm).wf(),
        manager_step(*old(wm), *final(wm), GroupOp::FocusPrevious),
        r@ == final(wm).current().arrangement(),
{
    wm.change_group(GroupOp::FocusPrevious)
}

/// Moves the focused window of the current group one place forward.
pub fn shuffle_next(wm: &mut RustWindowManager) -> (r: Vec<Command>)
    requires
        old(wm).wf(),
    ensures
        final(wm).wf(),
        manager_step(*old(wm), *final(wm), GroupOp::ShuffleNext),
        r@ == final(wm).current().arrangement(),
{
    wm.change_group(GroupOp::ShuffleNext)
}

/// Moves the focused window of the current group one place backward.
pub fn shuffle_previous(wm: &mut RustWindowManager) -> (r: Vec<Command>)
    requires
        old(wm).wf(),
    ensures
        final(wm).wf(),
        manager_step(*old(wm), *final(wm), GroupOp::ShufflePrevious),
        r@ == final(wm).current().arrangement(),
{
    wm.change_group(GroupOp::ShufflePrevious)
}

/// Switches the current group to its next layout.
pub fn layout_next(wm: &mut RustWindowManager) -> (r: Vec<Command>)
    requires
        old(wm).wf(),
    ensures
        final(wm).wf(),
        manager_step(*old(wm), *final(wm), GroupOp::LayoutNext),
        r@ == final(wm).current().arrangement(),
{
    wm.change_group(GroupOp::LayoutNext)
}

} // verus!
