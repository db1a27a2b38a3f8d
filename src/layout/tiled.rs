use vstd::prelude::*;

use crate::layout::{lemma_shown_after_concat, shown_after, Command, Layout, Viewport, WindowId};
use crate::stack::Stack;

verus! {

/// `a - b`, or zero where `b` is larger.
pub open spec fn sub0(a: int, b: int) -> int {
    if a >= b {
        a - b
    } else {
        0
    }
}

/// `a`, held to the largest `u32`.
pub open spec fn cap(a: int) -> int {
    if a > u32::MAX {
        u32::MAX as int
    } else {
        a
    }
}

/// Height of each of `k` tiles: `(height - padding) / k - padding`, in whole
/// pixels, the remainder left unused.
pub open spec fn tile_height(height: int, padding: int, k: int) -> int {
    sub0(sub0(height, padding) / k, padding)
}

/// Top of tile `i`.
pub open spec fn tile_y(viewport: Viewport, padding: int, th: int, i: int) -> int {
    cap(viewport.y + padding + i * (th + padding))
}

/// Shows window `w` as tile `i`, with tracking suspended.
pub open spec fn tile_cmds(viewport: Viewport, padding: int, th: int, w: WindowId, i: int) -> Seq<Command> {
    seq![
        Command::DisableTracking(w),
        Command::MapWindow(w),
        Command::ConfigureWindow {
            window: w,
            x: cap(viewport.x + padding) as u32,
            y: tile_y(viewport, padding, th, i) as u32,
            width: sub0(viewport.width as int, 2 * padding) as u32,
            height: th as u32,
        },
        Command::EnableTracking(w),
    ]
}

/// The first `n` windows of `items` as tiles, top to bottom.
pub open spec fn tile_prefix(viewport: Viewport, padding: int, th: int, items: Seq<WindowId>, n: nat) -> Seq<Command>
    decreases n,
{
    if n == 0 {
        Seq::empty()
    } else {
        tile_prefix(viewport, padding, th, items, (n - 1) as nat) + tile_cmds(
            viewport,
            padding,
            th,
            items[n - 1],
            n - 1,
        )
    }
}

/// Tiled arrangement: the viewport's height split evenly among all windows.
pub open spec fn tiled_commands(viewport: Viewport, padding: int, items: Seq<WindowId>) -> Seq<Command> {
    if items.len() == 0 {
        Seq::empty()
    } else {
        tile_prefix(
            viewport,
            padding,
            tile_height(viewport.height as int, padding, items.len() as int),
            items,
            items.len(),
        )
    }
}

proof fn lemma_tile_prefix_len(viewport: Viewport, padding: int, th: int, items: Seq<WindowId>, n: nat)
    ensures
        tile_prefix(viewport, padding, th, items, n).len() == 4 * n,
    decreases n,
{
    if n > 0 {
        lemma_tile_prefix_len(viewport, padding, th, items, (n - 1) as nat);
    }
}

proof fn lemma_tile_prefix_at(viewport: Viewport, padding: int, th: int, items: Seq<WindowId>, n: nat, j: int)
    requires
        0 <= j < n,
    ensures
        tile_prefix(viewport, padding, th, items, n)[4 * j + 2] == tile_cmds(viewport, padding, th, items[j], j)[2],
    decreases n,
{
    lemma_tile_prefix_len(viewport, padding, th, items, (n - 1) as nat);
    if j < n - 1 {
        lemma_tile_prefix_at(viewport, padding, th, items, (n - 1) as nat, j);
    }
}

/// Where the tiles fit in the viewport (the height covers the padding and
/// each share of it covers the padding again), the tiles and the `k + 1`
/// paddings between and around them take no more than the viewport's height,
/// and tile `j` is window `j`, placed at the same `x` and with the same width
/// as every other.
pub proof fn lemma_tiled_geometry(viewport: Viewport, padding: u32, items: Seq<WindowId>, j: int)
    requires
        items.len() >= 1,
        viewport.height >= padding,
        (viewport.height - padding) / (items.len() as int) >= padding,
        0 <= j < items.len(),
    ensures
        ({
            let k = items.len() as int;
            let p = padding as int;
            let th = tile_height(viewport.height as int, p, k);
            &&& k * th + (k + 1) * p <= viewport.height
            &&& tiled_commands(viewport, p, items)[4 * j + 2] == (Command::ConfigureWindow {
                window: items[j],
                x: cap(viewport.x + p) as u32,
                y: tile_y(viewport, p, th, j) as u32,
                width: sub0(viewport.width as int, 2 * p) as u32,
                height: th as u32,
            })
        }),
{
    let k = items.len() as int;
    let p = padding as int;
    let h = viewport.height as int;
    let q = (h - p) / k;
    assert(k * q <= h - p) by (nonlinear_arith)
        requires
            k >= 1,
            h - p >= 0,
            q == (h - p) / k,
    ;
    assert(k * (q - p) + (k + 1) * p == k * q + p) by (nonlinear_arith);
    lemma_tile_prefix_at(viewport, p, q - p, items, items.len(), j);
}

proof fn lemma_tile_cmds_shown(viewport: Viewport, padding: int, th: int, v: WindowId, i: int, w: WindowId)
    ensures
        shown_after(tile_cmds(viewport, padding, th, v, i), w) == if v == w { Some(true) } else { None },
{
    let b = tile_cmds(viewport, padding, th, v, i);
    let b1 = b.drop_last();
    let b2 = b1.drop_last();
    let b3 = b2.drop_last();
    assert(b2 =~= seq![Command::DisableTracking(v), Command::MapWindow(v)]);
    assert(b3 =~= seq![Command::DisableTracking(v)]);
    assert(b3.drop_last() =~= Seq::<Command>::empty());
    assert(shown_after(b3.drop_last(), w) == None::<bool>);
    assert(shown_after(b3, w) == None::<bool>);
    assert(b2.last() == Command::MapWindow(v));
    assert(shown_after(b2, w) == if v == w { Some(true) } else { shown_after(b3, w) });
    assert(b1.last() is ConfigureWindow);
    assert(shown_after(b1, w) == shown_after(b2, w));
    assert(b.last() == Command::EnableTracking(v));
    assert(shown_after(b, w) == shown_after(b1, w));
}

proof fn lemma_tile_prefix_shows(viewport: Viewport, padding: int, th: int, items: Seq<WindowId>, n: nat, j: int)
    requires
        0 <= j < n <= items.len(),
    ensures
        shown_after(tile_prefix(viewport, padding, th, items, n), items[j]) == Some(true),
    decreases n,
{
    let w = items[j];
    lemma_shown_after_concat(
        tile_prefix(viewport, padding, th, items, (n - 1) as nat),
        tile_cmds(viewport, padding, th, items[n - 1], n - 1),
        w,
    );
    lemma_tile_cmds_shown(viewport, padding, th, items[n - 1], n - 1, w);
    if j < n - 1 {
        lemma_tile_prefix_shows(viewport, padding, th, items, (n - 1) as nat, j);
    }
}

/// A tiled arrangement leaves every window of the stack shown.
pub proof fn lemma_tiled_shows_all(viewport: Viewport, padding: u32, items: Seq<WindowId>, j: int)
    requires
        0 <= j < items.len(),
    ensures
        shown_after(tiled_commands(viewport, padding as int, items), items[j]) == Some(true),
{
    lemma_tile_prefix_shows(
        viewport,
        padding as int,
        tile_height(viewport.height as int, padding as int, items.len() as int),
        items,
        items.len(),
        j,
    );
}

/// Shows every window, one below the other, with even heights.
#[derive(Clone, Debug)]
pub struct TiledLayout {
    pub name: String,
    pub padding: u32,
}

impl TiledLayout {
    pub fn new(name: String, padding: u32) -> (r: TiledLayout)
        ensures
            r.name == name,
            r.padding == padding,
    {
        TiledLayout { name, padding }
    }

    pub fn name(&self) -> (r: &str)
        ensures
            r@ == self.name@,
    {
        self.name.as_str()
    }
}

impl Layout for TiledLayout {
    open spec fn layout_spec(&self, viewport: Viewport, items: Seq<WindowId>, focused: Option<usize>) -> Seq<Command> {
        tiled_commands(viewport, self.padding as int, items)
    }

    fn layout(&self, viewport: &Viewport, stack: &Stack<WindowId>) -> (r: Vec<Command>) {
        let mut r: Vec<Command> = Vec::new();
        let n = stack.items.len();
        if n == 0 {
            return r;
        }
        let p = self.padding;
        let avail = viewport.height.saturating_sub(p);
        let per: u64 = avail as u64 / n as u64;
        let th: u32 = if per >= p as u64 { (per - p as u64) as u32 } else { 0 };
        let x: u32 = viewport.x.saturating_add(p);
        let width: u32 = if viewport.width as u64 >= 2 * (p as u64) {
            (viewport.width as u64 - 2 * (p as u64)) as u32
        } else {
            0
        };
        let ghost vp = *viewport;
        let ghost thi = th as int;
        assert(thi == tile_height(vp.height as int, p as int, n as int));
        let step: u64 = th as u64 + p as u64;
        let mut y: u64 = viewport.y as u64 + p as u64;
        if y > u32::MAX as u64 {
            y = u32::MAX as u64;
        }
        let mut i: usize = 0;
        while i < n
            invariant
                n == stack.items@.len(),
                i <= n,
                step == thi + p,
                thi == th,
                vp == *viewport,
                x == cap(vp.x + p),
                width == sub0(vp.width as int, 2 * p),
                y == tile_y(vp, p as int, thi, i as int),
                r@ == tile_prefix(vp, p as int, thi, stack.items@, i as nat),
            decreases n - i,
        {
            let w = stack.items[i];
            r.push(Command::DisableTracking(w));
            r.push(Command::MapWindow(w));
            r.push(Command::ConfigureWindow { window: w, x, y: y as u32, width, height: th });
            r.push(Command::EnableTracking(w));
            assert(r@ =~= tile_prefix(vp, p as int, thi, stack.items@, (i + 1) as nat));
            let ghost base = vp.y + p + i * (thi + p);
            assert(vp.y + p + (i + 1) * (thi + p) == base + step) by (nonlinear_arith)
                requires
                    base == vp.y + p + i * (thi + p),
                    step == thi + p,
            ;
            assert(base >= 0) by (nonlinear_arith)
                requires
                    base == vp.y + p + i * (thi + p),
                    thi >= 0,
                    p >= 0,
                    i >= 0,
                    vp.y >= 0,
            ;
            y = y + step;
            if y > u32::MAX as u64 {
                y = u32::MAX as u64;
            }
            i = i + 1;
        }
        assert(r@ =~= tiled_commands(vp, p as int, stack.items@));
        r
    }
}

} // verus!
