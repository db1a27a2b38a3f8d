use vstd::prelude::*;

use crate::stack::Stack;

pub mod tiled;

pub use tiled::TiledLayout;

verus! {

/// Identifier of a window, handed out by the display connection.
pub type WindowId = u64;

/// The rectangle in which a group's windows are arranged.
#[derive(Clone, Copy, Debug, PartialEq, Eq, Structural)]
pub struct Viewport {
    pub x: u32,
    pub y: u32,
    pub width: u32,
    pub height: u32,
}

/// A request to the display connection or the process launcher.
#[derive(Clone, Copy, Debug, PartialEq, Eq, Structural)]
pub enum Command {
    MapWindow(WindowId),
    UnmapWindow(WindowId),
    ConfigureWindow { window: WindowId, x: u32, y: u32, width: u32, height: u32 },
    DisableTracking(WindowId),
    EnableTracking(WindowId),
    RegisterEvents(WindowId),
    DestroyWindow(WindowId),
    Spawn(usize),
}

/// Whether window `w` is visible once `cmds` have run: the last map or unmap
/// of `w` decides; none means that `cmds` leave its visibility as it was.
pub open spec fn shown_after(cmds: Seq<Command>, w: WindowId) -> Option<bool>
    decreases cmds.len(),
{
    if cmds.len() == 0 {
        None
    } else {
        match cmds.last() {
            Command::MapWindow(x) if x == w => Some(true),
            Command::UnmapWindow(x) if x == w => Some(false),
            _ => shown_after(cmds.drop_last(), w),
        }
    }
}

/// Visibility after two runs of requests: the second decides where it names
/// the window, the first otherwise.
pub proof fn lemma_shown_after_concat(a: Seq<Command>, b: Seq<Command>, w: WindowId)
    ensures
        shown_after(a + b, w) == match shown_after(b, w) {
            Some(v) => Some(v),
            None => shown_after(a, w),
        },
    decreases b.len(),
{
    if b.len() == 0 {
        assert(a + b =~= a);
    } else {
        assert((a + b).drop_last() =~= a + b.drop_last());
        lemma_shown_after_concat(a, b.drop_last(), w);
    }
}

/// An arrangement of a group's windows in its viewport.
pub trait Layout {
    /// The requests that arrange `items`, of which index `focused` has focus.
    spec fn layout_spec(&self, viewport: Viewport, items: Seq<WindowId>, focused: Option<usize>) -> Seq<Command>;

    /// Arranges the windows of `stack` in `viewport`; every window is given a
    /// position or hidden, and an empty stack gets no request.
    fn layout(&self, viewport: &Viewport, stack: &Stack<WindowId>) -> (r: Vec<Command>)
        requires
            stack.wf(),
        ensures
            r@ == self.layout_spec(*viewport, stack.items@, stack.focused),
    ;
}

/// Hides `w` with tracking suspended.
pub open spec fn hide_cmds(w: WindowId) -> Seq<Command> {
    seq![Command::DisableTracking(w), Command::UnmapWindow(w), Command::EnableTracking(w)]
}

/// The first `n` windows of `items` hidden, in order.
pub open spec fn hide_prefix(items: Seq<WindowId>, n: nat) -> Seq<Command>
    decreases n,
{
    if n == 0 {
        Seq::empty()
    } else {
        hide_prefix(items, (n - 1) as nat) + hide_cmds(items[n - 1])
    }
}

/// Shows `w` over the whole viewport, with tracking suspended.
pub open spec fn fill_cmds(viewport: Viewport, w: WindowId) -> Seq<Command> {
    seq![
        Command::DisableTracking(w),
        Command::MapWindow(w),
        Command::ConfigureWindow {
            window: w,
            x: viewport.x,
            y: viewport.y,
            width: viewport.width,
            height: viewport.height,
        },
        Command::EnableTracking(w),
    ]
}

/// Stacked arrangement: every window hidden, then the focused one shown over
/// the whole viewport.
pub open spec fn stacked_commands(viewport: Viewport, items: Seq<WindowId>, focused: Option<usize>) -> Seq<Command> {
    if items.len() == 0 {
        Seq::empty()
    } else {
        hide_prefix(items, items.len()) + match focused {
            Some(f) => fill_cmds(viewport, items[f as int]),
            None => Seq::empty(),
        }
    }
}

/// Shows only the focused window, over the whole viewport.
#[derive(Clone, Copy, Debug)]
pub struct StackLayout;

impl Layout for StackLayout {
    open spec fn layout_spec(&self, viewport: Viewport, items: Seq<WindowId>, focused: Option<usize>) -> Seq<Command> {
        stacked_commands(viewport, items, focused)
    }

    fn layout(&self, viewport: &Viewport, stack: &Stack<WindowId>) -> (r: Vec<Command>) {
        let mut r: Vec<Command> = Vec::new();
        let n = stack.items.len();
        if n == 0 {
            return r;
        }
        let mut i: usize = 0;
        while i < n
            invariant
                n == stack.items@.len(),
                i <= n,
                r@ == hide_prefix(stack.items@, i as nat),
            decreases n - i,
        {
            let w = stack.items[i];
            r.push(Command::DisableTracking(w));
            r.push(Command::UnmapWindow(w));
            r.push(Command::EnableTracking(w));
            assert(r@ =~= hide_prefix(stack.items@, (i + 1) as nat));
            i = i + 1;
        }
        if let Some(f) = stack.focused {
            let w = stack.items[f];
            r.push(Command::DisableTracking(w));
            r.push(Command::MapWindow(w));
            r.push(Command::ConfigureWindow {
                window: w,
                x: viewport.x,
                y: viewport.y,
                width: viewport.width,
                height: viewport.height,
            });
            r.push(Command::EnableTracking(w));
        }
        assert(r@ =~= stacked_commands(*viewport, stack.items@, stack.focused));
        r
    }
}

proof fn lemma_hide_cmds_shown(v: WindowId, w: WindowId)
    ensures
        shown_after(hide_cmds(v), w) == if v == w { Some(false) } else { None },
{
    let b = hide_cmds(v);
    let b1 = b.drop_last();
    let b2 = b1.drop_last();
    assert(b1 =~= seq![Command::DisableTracking(v), Command::UnmapWindow(v)]);
    assert(b2 =~= seq![Command::DisableTracking(v)]);
    assert(b2.drop_last() =~= Seq::<Command>::empty());
    assert(shown_after(b2.drop_last(), w) == None::<bool>);
    assert(shown_after(b2, w) == None::<bool>);
    assert(b1.last() == Command::UnmapWindow(v));
    assert(shown_after(b1, w) == if v == w { Some(false) } else { shown_after(b2, w) });
    assert(b.last() == Command::EnableTracking(v));
    assert(shown_after(b, w) == shown_after(b1, w));
}

proof fn lemma_fill_cmds_shown(viewport: Viewport, v: WindowId, w: WindowId)
    ensures
        shown_after(fill_cmds(viewport, v), w) == if v == w { Some(true) } else { None },
{
    let b = fill_cmds(viewport, v);
    let b1 = b.drop_last();
    let b2 = b1.drop_last();
    let b3 = b2.drop_last();
    assert(b2 =~= seq![Command::DisableTracking(v), Command::MapWindow(v)]);
    assert(b3 =~= seq![Command::DisableTracking(v)]);
    assert(b3.drop_last() =~= Seq::<Command>::empty());
    assert(shown_after(b3.drop_last(), w) == None::<bool>);
    assert(shown_after(b3, w) == None::<bool>);
    assert(b2.last() == Command::MapWindow(v));
    assert(shown_after(b2, w) == if v == w { Some(true) } else { shown_after(b3, w) });
    assert(b1.last() is ConfigureWindow);
    assert(shown_after(b1, w) == shown_after(b2, w));
    assert(b.last() == Command::EnableTracking(v));
    assert(shown_after(b, w) == shown_after(b1, w));
}

proof fn lemma_hide_prefix_hides(items: Seq<WindowId>, n: nat, j: int)
    requires
        0 <= j < n <= items.len(),
    ensures
        shown_after(hide_prefix(items, n), items[j]) == Some(false),
    decreases n,
{
    let w = items[j];
    lemma_shown_after_concat(hide_prefix(items, (n - 1) as nat), hide_cmds(items[n - 1]), w);
    lemma_hide_cmds_shown(items[n - 1], w);
    if j < n - 1 {
        lemma_hide_prefix_hides(items, (n - 1) as nat, j);
    }
}

/// After a stacked arrangement exactly the focused window is visible: every
/// window of the stack ends hidden but the focused one, which ends shown.
pub proof fn lemma_stacked_shows_only_focused(viewport: Viewport, items: Seq<WindowId>, focused: Option<usize>, j: int)
    requires
        crate::stack::focus_wf(items.len() as int, focused),
        0 <= j < items.len(),
    ensures
        shown_after(stacked_commands(viewport, items, focused), items[j]) == Some(
            focused.is_some() && items[focused.unwrap() as int] == items[j],
        ),
{
    let w = items[j];
    let tail = match focused {
        Some(f) => fill_cmds(viewport, items[f as int]),
        None => Seq::empty(),
    };
    lemma_hide_prefix_hides(items, items.len(), j);
    lemma_shown_after_concat(hide_prefix(items, items.len()), tail, w);
    if let Some(f) = focused {
        lemma_fill_cmds_shown(viewport, items[f as int], w);
    } else {
        assert(shown_after(tail, w) == None::<bool>);
    }
}

/// One of the arrangements a group can cycle through.
#[derive(Clone, Debug)]
pub enum LayoutStrategy {
    Tiled(TiledLayout),
    Stacked(StackLayout),
}

impl Layout for LayoutStrategy {
    open spec fn layout_spec(&self, viewport: Viewport, items: Seq<WindowId>, focused: Option<usize>) -> Seq<Command> {
        match self {
            LayoutStrategy::Tiled(t) => t.layout_spec(viewport, items, focused),
            LayoutStrategy::Stacked(s) => s.layout_spec(viewport, items, focused),
        }
    }

    fn layout(&self, viewport: &Viewport, stack: &Stack<WindowId>) -> (r: Vec<Command>) {
        match self {
            LayoutStrategy::Tiled(t) => t.layout(viewport, stack),
            LayoutStrategy::Stacked(s) => s.layout(viewport, stack),
        }
    }
}

} // verus!
