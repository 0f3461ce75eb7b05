use vstd::prelude::*;
use crate::layout::{LayoutMode, Rect, compute_tiles, spec_tiles, tiles_fit};
use crate::orbit::{Planet, WindowId, assign_orbits, orbits_assigned, planet_windows};

verus! {

/// A point on the infinite world canvas.
#[derive(Debug, Clone, Copy, PartialEq, Eq, Structural)]
pub struct WorldPos {
    pub x: i128,
    pub y: i128,
}

/// A workspace — one "solar system" positioned somewhere on the infinite canvas.
///
/// It has a sun (the focused window), planets (its other windows, on orbit
/// rings), a tiling layout and a place on the world canvas.
#[derive(Debug, Clone)]
pub struct Workspace {
    pub id: usize,
    /// Position of this workspace's origin in world-space.
    pub world_pos: WorldPos,
    /// The focused window for this workspace.
    pub sun: Option<WindowId>,
    /// Orbiting windows.
    pub planets: Vec<Planet>,
    /// Tiling layout used when in Work/System mode.
    pub layout: LayoutMode,
    /// Optional human-readable label (shown in Galaxy view).
    pub label: Option<String>,
}

/// What a workspace holds, with planets seen as the windows they carry.
pub struct WorkspaceView {
    pub id: usize,
    pub world_pos: WorldPos,
    pub sun: Option<WindowId>,
    pub planets: Seq<WindowId>,
    pub layout: LayoutMode,
    pub label: Option<Seq<char>>,
}

impl View for Workspace {
    type V = WorkspaceView;

    open spec fn view(&self) -> WorkspaceView {
        WorkspaceView {
            id: self.id,
            world_pos: self.world_pos,
            sun: self.sun,
            planets: planet_windows(self.planets@),
            layout: self.layout,
            label: match self.label {
                Some(l) => Some(l@),
                None => None,
            },
        }
    }
}

/// The windows of a workspace in tiling order: the sun first, then the planets.
pub open spec fn view_windows(v: WorkspaceView) -> Seq<WindowId> {
    match v.sun {
        Some(s) => seq![s] + v.planets,
        None => v.planets,
    }
}

/// The workspace holds `w`, as its sun or as one of its planets.
pub open spec fn view_contains(v: WorkspaceView, w: WindowId) -> bool {
    v.sun == Some(w) || v.planets.contains(w)
}

/// The planets' windows without `w`.
pub open spec fn not_window(w: WindowId) -> spec_fn(WindowId) -> bool {
    |x: WindowId| x != w
}

/// Adding a window: it becomes the sun of a workspace without one, and the
/// outermost planet otherwise.
pub open spec fn add_window_view(v: WorkspaceView, w: WindowId) -> WorkspaceView {
    if v.sun is None {
        WorkspaceView { sun: Some(w), ..v }
    } else {
        WorkspaceView { planets: v.planets.push(w), ..v }
    }
}

/// Removing a window: a removed sun is replaced by the first planet; a
/// removed planet (its first occurrence) just leaves its ring; an absent
/// window changes nothing.
pub open spec fn remove_window_view(v: WorkspaceView, w: WindowId) -> WorkspaceView {
    if v.sun == Some(w) {
        if v.planets.len() > 0 {
            WorkspaceView { sun: Some(v.planets[0]), planets: v.planets.drop_first(), ..v }
        } else {
            WorkspaceView { sun: None, ..v }
        }
    } else {
        WorkspaceView { planets: v.planets.remove_value(w), ..v }
    }
}

/// Promoting `w` to sun: the old sun joins the planets as the outermost one,
/// and `w` leaves the planets.
pub open spec fn set_sun_view(v: WorkspaceView, w: WindowId) -> WorkspaceView {
    if v.sun == Some(w) {
        v
    } else {
        let demoted = match v.sun {
            Some(s) => v.planets.push(s),
            None => v.planets,
        };
        WorkspaceView { sun: Some(w), planets: demoted.filter(not_window(w)), ..v }
    }
}

/// Promoting the planet at `idx`: it leaves its ring and becomes the sun, and
/// the old sun, if any, joins the planets as the outermost one.
pub open spec fn promote_planet_view(v: WorkspaceView, idx: int) -> WorkspaceView {
    let rest = v.planets.remove(idx);
    WorkspaceView {
        sun: Some(v.planets[idx]),
        planets: match v.sun {
            Some(s) => rest.push(s),
            None => rest,
        },
        ..v
    }
}

/// Pairs each window with its tile, as far as there are tiles.
pub open spec fn spec_tile_pairs(windows: Seq<WindowId>, tiles: Seq<Rect>) -> Seq<(WindowId, Rect)> {
    Seq::new(
        if windows.len() <= tiles.len() {
            windows.len()
        } else {
            tiles.len()
        },
        |i: int| (windows[i], tiles[i]),
    )
}

/// The tile of `window` when the workspace is tiled into `screen`: the tile
/// at its first place among the windows, if the layout gives that place one.
pub open spec fn spec_tile_of(v: WorkspaceView, screen: Rect, window: WindowId) -> Option<Rect> {
    let ws = view_windows(v);
    let tiles = spec_tiles(ws.len(), screen, v.layout);
    match ws.index_of_first(window) {
        Some(i) => if i < tiles.len() {
            Some(tiles[i])
        } else {
            None
        },
        None => None,
    }
}

impl Workspace {
    /// The planets sit on their rings as `assign_orbits` places them, and a
    /// workspace without a sun has no planets.
    pub open spec fn wf(&self) -> bool {
        &&& orbits_assigned(self.planets@)
        &&& self.sun is None ==> self.planets@.len() == 0
    }

    /// Number of windows of the workspace.
    pub open spec fn spec_window_count(&self) -> int {
        (if self.sun is Some {
            1int
        } else {
            0int
        }) + self.planets@.len()
    }

    pub fn new(id: usize, world_pos: WorldPos) -> (ws: Self)
        ensures
            ws.wf(),
            ws@ == (WorkspaceView {
                id,
                world_pos,
                sun: None,
                planets: Seq::empty(),
                layout: LayoutMode::Monocle,
                label: None,
            }),
    {
        let ws = Workspace {
            id,
            world_pos,
            sun: None,
            planets: Vec::new(),
            layout: LayoutMode::Monocle,
            label: None,
        };
        assert(ws@.planets =~= Seq::<WindowId>::empty());
        ws
    }

    /// Total number of windows in this workspace.
    pub fn window_count(&self) -> (n: usize)
        requires
            self.spec_window_count() <= usize::MAX,
        ensures
            n == self.spec_window_count(),
            n == view_windows(self@).len(),
    {
        match self.sun {
            Some(_) => self.planets.len() + 1,
            None => self.planets.len(),
        }
    }

    pub fn is_empty(&self) -> (b: bool)
        ensures
            b == (self.sun is None && self.planets@.len() == 0),
            b == (view_windows(self@).len() == 0),
    {
        self.sun.is_none() && self.planets.len() == 0
    }

    /// Finds the first planet carrying `window`.
    fn find_planet(&self, window: WindowId) -> (idx: Option<usize>)
        ensures
            match idx {
                Some(i) => planet_windows(self.planets@).index_of_first(window) == Some(i as int),
                None => planet_windows(self.planets@).index_of_first(window) is None,
            },
    {
        let ghost ws = planet_windows(self.planets@);
        let mut i: usize = 0;
        while i < self.planets.len()
            invariant
                ws == planet_windows(self.planets@),
                i <= self.planets@.len(),
                forall|j: int| 0 <= j < i ==> ws[j] != window,
            decreases self.planets@.len() - i,
        {
            if self.planets[i].window == window {
                assert(ws[i as int] == window);
                proof {
                    ws.index_of_first_ensures(window);
                    match ws.index_of_first(window) {
                        Some(k) => {
                            assert(k == i);
                        },
                        None => {
                            assert(ws.contains(window));
                        },
                    }
                }
                return Some(i);
            }
            i += 1;
        }
        proof {
            ws.index_of_first_ensures(window);
            if ws.contains(window) {
                let k = choose|k: int| 0 <= k < ws.len() && ws[k] == window;
                assert(ws[k] != window);
            }
        }
        None
    }

    /// Whether `window` is the sun.
    fn is_sun(&self, window: WindowId) -> (b: bool)
        ensures
            b == (self.sun == Some(window)),
    {
        match self.sun {
            Some(s) => s == window,
            None => false,
        }
    }

    /// Add a window. If no sun yet, it becomes the sun; otherwise it's a planet.
    pub fn add_window(&mut self, window: WindowId)
        requires
            old(self).wf(),
        ensures
            final(self).wf(),
            final(self)@ == add_window_view(old(self)@, window),
    {
        if self.sun.is_none() {
            self.sun = Some(window);
        } else {
            self.planets.push(Planet::new(window, 0));
            assign_orbits(&mut self.planets);
            assert(planet_windows(self.planets@) =~= planet_windows(old(self).planets@).push(window));
        }
    }

    /// Remove a window. If the sun was removed, the first planet is promoted.
    /// Returns `true` if the window was found and removed.
    pub fn remove_window(&mut self, window: WindowId) -> (removed: bool)
        requires
            old(self).wf(),
        ensures
            final(self).wf(),
            removed == view_contains(old(self)@, window),
            final(self)@ == remove_window_view(old(self)@, window),
            !removed ==> *final(self) == *old(self),
    {
        let ghost old_ws = planet_windows(self.planets@);
        if self.is_sun(window) {
            if self.planets.len() > 0 {
                let promoted = self.planets.remove(0);
                self.sun = Some(promoted.window);
                assign_orbits(&mut self.planets);
                assert(planet_windows(self.planets@) =~= old_ws.drop_first());
                assert(self@.planets == remove_window_view(old(self)@, window).planets);
                assert(self@.sun == remove_window_view(old(self)@, window).sun);
                assert(self@.label == remove_window_view(old(self)@, window).label);
                assert(self@ == remove_window_view(old(self)@, window));
            } else {
                self.sun = None;
                assert(self@ == remove_window_view(old(self)@, window));
            }
            true
        } else {
            proof {
                old_ws.index_of_first_ensures(window);
            }
            match self.find_planet(window) {
                Some(idx) => {
                    assert(old_ws.index_of_first(window) == Some(idx as int));
                    self.planets.remove(idx);
                    assign_orbits(&mut self.planets);
                    assert(planet_windows(self.planets@) =~= old_ws.remove(idx as int));
                    assert(old_ws.remove_value(window) == old_ws.remove(idx as int));
                    assert(self@ == remove_window_view(old(self)@, window));
                    true
                },
                None => {
                    assert(old_ws.remove_value(window) == old_ws);
                    assert(self@ == remove_window_view(old(self)@, window));
                    false
                },
            }
        }
    }

    /// Promote `window` to sun, demoting the previous sun to a planet.
    pub fn set_sun(&mut self, window: WindowId)
        requires
            old(self).wf(),
        ensures
            final(self).wf(),
            final(self)@ == set_sun_view(old(self)@, window),
    {
        if self.is_sun(window) {
            return ;
        }
        if let Some(old_sun) = self.sun {
            self.planets.push(Planet::new(old_sun, 0));
        }
        assert(planet_windows(self.planets@) =~= match old(self).sun {
            Some(s) => planet_windows(old(self).planets@).push(s),
            None => planet_windows(old(self).planets@),
        });
        let ghost demoted = planet_windows(self.planets@);
        let mut kept: Vec<Planet> = Vec::new();
        let mut i: usize = 0;
        while i < self.planets.len()
            invariant
                demoted == planet_windows(self.planets@),
                i <= self.planets@.len(),
                planet_windows(kept@) == demoted.take(i as int).filter(not_window(window)),
            decreases self.planets@.len() - i,
        {
            let p = self.planets[i];
            proof {
                reveal(Seq::filter);
                assert(demoted.take(i + 1).drop_last() =~= demoted.take(i as int));
            }
            if p.window != window {
                kept.push(p);
                assert(planet_windows(kept@) =~= demoted.take(i as int).filter(not_window(window)).push(
                    p.window,
                ));
            }
            i += 1;
        }
        assert(demoted.take(self.planets@.len() as int) =~= demoted);
        self.planets = kept;
        self.sun = Some(window);
        assign_orbits(&mut self.planets);
        assert(self@.planets == set_sun_view(old(self)@, window).planets);
    }

    /// Promote the planet at `idx` to sun, demoting the previous sun to a planet.
    pub(crate) fn promote_planet(&mut self, idx: usize)
        requires
            old(self).wf(),
            idx < old(self).planets@.len(),
        ensures
            final(self).wf(),
            final(self)@ == promote_planet_view(old(self)@, idx as int),
    {
        let planet = self.planets.remove(idx);
        let ghost rest = planet_windows(self.planets@);
        assert(rest =~= planet_windows(old(self).planets@).remove(idx as int));
        if let Some(old_sun) = self.sun {
            self.planets.push(Planet::new(old_sun, 0));
            assert(planet_windows(self.planets@) =~= rest.push(old_sun));
        }
        self.sun = Some(planet.window);
        assign_orbits(&mut self.planets);
    }

    /// Check whether this workspace contains the given window.
    pub fn contains(&self, window: WindowId) -> (b: bool)
        ensures
            b == view_contains(self@, window),
    {
        if self.is_sun(window) {
            return true;
        }
        proof {
            planet_windows(self.planets@).index_of_first_ensures(window);
        }
        self.find_planet(window).is_some()
    }

    /// Compute tile rectangles for all windows in this workspace.
    ///
    /// The sun (if present) is always the first tile; planets follow in
    /// order. Windows beyond the tiles (in monocle mode, all but the sun)
    /// get none.
    pub fn tile_rects(&self, screen: Rect) -> (pairs: Vec<(WindowId, Rect)>)
        requires
            self.spec_window_count() <= usize::MAX,
            tiles_fit(self.spec_window_count() as nat, screen, self.layout),
        ensures
            pairs@ == spec_tile_pairs(
                view_windows(self@),
                spec_tiles(view_windows(self@).len(), screen, self.layout),
            ),
    {
        let mut windows: Vec<WindowId> = Vec::new();
        if let Some(sun) = self.sun {
            windows.push(sun);
        }
        let mut i: usize = 0;
        while i < self.planets.len()
            invariant
                i <= self.planets@.len(),
                windows@ == match self.sun {
                    Some(s) => seq![s] + planet_windows(self.planets@).take(i as int),
                    None => planet_windows(self.planets@).take(i as int),
                },
            decreases self.planets@.len() - i,
        {
            windows.push(self.planets[i].window);
            i += 1;
            assert(windows@ =~= match self.sun {
                Some(s) => seq![s] + planet_windows(self.planets@).take(i as int),
                None => planet_windows(self.planets@).take(i as int),
            });
        }
        assert(planet_windows(self.planets@).take(self.planets@.len() as int) =~= planet_windows(
            self.planets@,
        ));
        assert(windows@ =~= view_windows(self@));
        let count = windows.len();
        let tiles = compute_tiles(count, screen, self.layout);
        let n = if count <= tiles.len() {
            count
        } else {
            tiles.len()
        };
        let mut pairs: Vec<(WindowId, Rect)> = Vec::new();
        let mut k: usize = 0;
        while k < n
            invariant
                n <= windows@.len(),
                n <= tiles@.len(),
                k <= n,
                pairs@.len() == k,
                forall|j: int| 0 <= j < k ==> pairs@[j] == (windows@[j], tiles@[j]),
            decreases n - k,
        {
            pairs.push((windows[k], tiles[k]));
            k += 1;
        }
        assert(pairs@ =~= spec_tile_pairs(windows@, tiles@));
        pairs
    }

    /// The tile `window` gets when the workspace is tiled into `screen`, if
    /// the layout gives it one.
    pub fn tile_of(&self, screen: Rect, window: WindowId) -> (r: Option<Rect>)
        requires
            self.spec_window_count() <= usize::MAX,
            tiles_fit(self.spec_window_count() as nat, screen, self.layout),
        ensures
            r == spec_tile_of(self@, screen, window),
    {
        let pairs = self.tile_rects(screen);
        let ghost ws = view_windows(self@);
        let ghost tiles = spec_tiles(ws.len(), screen, self.layout);
        let mut j: usize = 0;
        while j < pairs.len()
            invariant
                ws == view_windows(self@),
                tiles == spec_tiles(ws.len(), screen, self.layout),
                pairs@ == spec_tile_pairs(ws, tiles),
                j <= pairs@.len(),
                forall|k: int| 0 <= k < j ==> ws[k] != window,
            decreases pairs@.len() - j,
        {
            if pairs[j].0 == window {
                proof {
                    assert(pairs@[j as int] == (ws[j as int], tiles[j as int]));
                    assert(j < tiles.len());
                    ws.index_of_first_ensures(window);
                    match ws.index_of_first(window) {
                        Some(i) => {
                            assert(i == j as int);
                        },
                        None => {
                            assert(ws[j as int] == window);
                        },
                    }
                }
                return Some(pairs[j].1);
            }
            assert(pairs@[j as int].0 == ws[j as int]);
            j += 1;
        }
        proof {
            ws.index_of_first_ensures(window);
        }
        None
    }
}

/// The windows of a workspace are pairwise distinct.
pub open spec fn view_distinct(v: WorkspaceView) -> bool {
    &&& v.planets.no_duplicates()
    &&& v.sun matches Some(s) ==> !v.planets.contains(s)
}

/// A new window is held by the workspace once added, and every window held
/// before is still held.
pub proof fn lemma_add_window_contains(v: WorkspaceView, w: WindowId, x: WindowId)
    ensures
        view_contains(add_window_view(v, w), x) == (x == w || view_contains(v, x)),
{
    if v.sun is Some {
        assert(v.planets.push(w)[v.planets.len() as int] == w);
        if v.planets.contains(x) {
            let i = choose|i: int| 0 <= i < v.planets.len() && v.planets[i] == x;
            assert(v.planets.push(w)[i] == x);
        }
        if v.planets.push(w).contains(x) && x != w {
            let i = choose|i: int| 0 <= i < v.planets.len() + 1 && v.planets.push(w)[i] == x;
            assert(v.planets[i] == x);
        }
    }
}

/// Removing a window that was just added gives back the workspace as it was,
/// when the window was not there before.
pub proof fn lemma_remove_undoes_add(v: WorkspaceView, w: WindowId)
    requires
        !view_contains(v, w),
        v.sun is None ==> v.planets.len() == 0,
    ensures
        remove_window_view(add_window_view(v, w), w) == v,
{
    if v.sun is None {
        assert(v.planets =~= Seq::<WindowId>::empty());
    } else {
        let p = v.planets.push(w);
        assert(p[v.planets.len() as int] == w);
        p.index_of_first_ensures(w);
        let k = p.index_of_first(w).unwrap();
        if k < v.planets.len() {
            assert(p[k] == v.planets[k]);
            assert(v.planets.contains(w));
        }
        assert(k == v.planets.len());
        assert(p.remove(k) =~= v.planets);
    }
}

/// A removed window is no longer held by a workspace whose windows are
/// distinct, every other window stays, and the windows stay distinct.
pub proof fn lemma_remove_window_forgets(v: WorkspaceView, w: WindowId, x: WindowId)
    requires
        view_distinct(v),
        v.sun is None ==> v.planets.len() == 0,
    ensures
        !view_contains(remove_window_view(v, w), w),
        x != w ==> view_contains(remove_window_view(v, w), x) == view_contains(v, x),
        view_distinct(remove_window_view(v, w)),
{
    let r = remove_window_view(v, w);
    if v.sun == Some(w) {
        if v.planets.len() > 0 {
            let d = v.planets.drop_first();
            assert(forall|i: int| 0 <= i < d.len() ==> d[i] == v.planets[i + 1]);
            if d.contains(w) {
                let i = choose|i: int| 0 <= i < d.len() && d[i] == w;
                assert(v.planets[i + 1] == w);
            }
            if d.contains(v.planets[0]) {
                let i = choose|i: int| 0 <= i < d.len() && d[i] == v.planets[0];
                assert(v.planets[i + 1] == v.planets[0]);
            }
            if x != w && v.planets.contains(x) && x != v.planets[0] {
                let i = choose|i: int| 0 <= i < v.planets.len() && v.planets[i] == x;
                assert(d[i - 1] == x);
            }
            if d.contains(x) {
                let i = choose|i: int| 0 <= i < d.len() && d[i] == x;
                assert(v.planets[i + 1] == x);
            }
        }
    } else {
        v.planets.index_of_first_ensures(w);
        match v.planets.index_of_first(w) {
            Some(k) => {
                let q = v.planets.remove(k);
                v.planets.remove_ensures(k);
                assert(forall|i: int| 0 <= i < q.len() ==> #[trigger] q[i] == v.planets[if i < k {
                    i
                } else {
                    i + 1
                }]);
                if q.contains(w) {
                    let i = choose|i: int| 0 <= i < q.len() && q[i] == w;
                    assert(v.planets[if i < k { i } else { i + 1 }] == w);
                }
                if x != w && v.planets.contains(x) {
                    let i = choose|i: int| 0 <= i < v.planets.len() && v.planets[i] == x;
                    assert(q[if i < k { i } else { i - 1 }] == x);
                }
                if q.contains(x) {
                    let i = choose|i: int| 0 <= i < q.len() && q[i] == x;
                    assert(v.planets[if i < k { i } else { i + 1 }] == x);
                }
                if let Some(s) = v.sun {
                    if q.contains(s) {
                        let i = choose|i: int| 0 <= i < q.len() && q[i] == s;
                        assert(v.planets[if i < k { i } else { i + 1 }] == s);
                    }
                }
            },
            None => {},
        }
    }
}

/// Promoting a window makes it the sun, keeps it off the planets, and keeps
/// every other window of the workspace.
pub proof fn lemma_set_sun_keeps_windows(v: WorkspaceView, w: WindowId, x: WindowId)
    requires
        view_distinct(v),
    ensures
        set_sun_view(v, w).sun == Some(w),
        !set_sun_view(v, w).planets.contains(w),
        view_contains(set_sun_view(v, w), x) == (x == w || view_contains(v, x)),
{
    broadcast use vstd::seq_lib::group_filter_ensures;
    broadcast use vstd::seq::Seq::lemma_filter_contains_rev;

    if v.sun != Some(w) {
        let demoted = match v.sun {
            Some(s) => v.planets.push(s),
            None => v.planets,
        };
        let f = demoted.filter(not_window(w));
        if f.contains(w) {
            let i = choose|i: int| 0 <= i < f.len() && f[i] == w;
            assert(not_window(w)(f[i]));
        }
        if x != w && view_contains(v, x) {
            if v.planets.contains(x) {
                let i = choose|i: int| 0 <= i < v.planets.len() && v.planets[i] == x;
                assert(demoted[i] == x);
                assert(f.contains(demoted[i]));
            } else {
                assert(demoted[v.planets.len() as int] == x);
                assert(f.contains(demoted[v.planets.len() as int]));
            }
        }
        if x != w && f.contains(x) {
            assert(demoted.contains(x));
            let i = choose|i: int| 0 <= i < demoted.len() && demoted[i] == x;
            if i < v.planets.len() {
                assert(v.planets[i] == x);
            }
        }
    } else {
        if v.planets.contains(w) {
            let i = choose|i: int| 0 <= i < v.planets.len() && v.planets[i] == w;
        }
    }
}

/// A sequence without duplicates keeps none after a filter.
proof fn lemma_filter_no_duplicates(s: Seq<WindowId>, p: spec_fn(WindowId) -> bool)
    requires
        s.no_duplicates(),
    ensures
        s.filter(p).no_duplicates(),
    decreases s.len(),
{
    reveal(Seq::filter);
    if s.len() > 0 {
        let rest = s.drop_last();
        assert(rest.no_duplicates());
        lemma_filter_no_duplicates(rest, p);
        if p(s.last()) {
            let f = rest.filter(p);
            if f.contains(s.last()) {
                rest.lemma_filter_contains_rev(p, s.last());
                let i = choose|i: int| 0 <= i < rest.len() && rest[i] == s.last();
                assert(s[i] == s[s.len() - 1]);
            }
            let g = f.push(s.last());
            assert forall|i: int, j: int| 0 <= i < g.len() && 0 <= j < g.len() && i != j implies g[i]
                != g[j] by {
                if i == f.len() as int {
                    assert(!f.contains(s.last()));
                    assert(f[j] == g[j]);
                } else if j == f.len() as int {
                    assert(!f.contains(s.last()));
                    assert(f[i] == g[i]);
                }
            }
        }
    }
}

/// An added window that was not there keeps the workspace's windows
/// distinct.
pub proof fn lemma_add_window_distinct(v: WorkspaceView, w: WindowId)
    requires
        view_distinct(v),
        !view_contains(v, w),
        v.sun is None ==> v.planets.len() == 0,
    ensures
        view_distinct(add_window_view(v, w)),
{
    if let Some(s) = v.sun {
        let p = v.planets.push(w);
        assert(p[v.planets.len() as int] == w);
        assert forall|i: int, j: int| 0 <= i < p.len() && 0 <= j < p.len() && i != j implies p[i] != p[j] by {
            if i == v.planets.len() as int {
                assert(p[j] == v.planets[j]);
            } else if j == v.planets.len() as int {
                assert(p[i] == v.planets[i]);
            }
        }
        if p.contains(s) {
            let i = choose|i: int| 0 <= i < p.len() && p[i] == s;
            if i < v.planets.len() {
                assert(v.planets[i] == s);
            }
        }
    }
}

/// Promoting a window keeps the workspace's windows distinct.
pub proof fn lemma_set_sun_distinct(v: WorkspaceView, w: WindowId)
    requires
        view_distinct(v),
    ensures
        view_distinct(set_sun_view(v, w)),
{
    if v.sun != Some(w) {
        let demoted = match v.sun {
            Some(s) => v.planets.push(s),
            None => v.planets,
        };
        if let Some(s) = v.sun {
            assert forall|i: int, j: int| 0 <= i < demoted.len() && 0 <= j < demoted.len() && i != j implies demoted[i]
                != demoted[j] by {
                if i == v.planets.len() as int {
                    assert(demoted[j] == v.planets[j]);
                } else if j == v.planets.len() as int {
                    assert(demoted[i] == v.planets[i]);
                }
            }
        }
        lemma_filter_no_duplicates(demoted, not_window(w));
        lemma_set_sun_keeps_windows(v, w, w);
    }
}

/// Promoting the planet at `idx` keeps every window of the workspace, adds
/// none, and keeps them distinct.
pub proof fn lemma_promote_planet_keeps(v: WorkspaceView, idx: int, x: WindowId)
    requires
        view_distinct(v),
        0 <= idx < v.planets.len(),
    ensures
        view_contains(promote_planet_view(v, idx), x) == view_contains(v, x),
        view_distinct(promote_planet_view(v, idx)),
        promote_planet_view(v, idx).sun is Some,
{
    let rest = v.planets.remove(idx);
    v.planets.remove_ensures(idx);
    let np = promote_planet_view(v, idx).planets;
    assert(forall|i: int| 0 <= i < rest.len() ==> #[trigger] rest[i] == v.planets[if i < idx {
        i
    } else {
        i + 1
    }]);
    // Where an element of `rest` came from in `v.planets`.
    assert forall|i: int, j: int| 0 <= i < rest.len() && 0 <= j < rest.len() && i != j implies rest[i]
        != rest[j] by {
        let a = if i < idx { i } else { i + 1 };
        let b = if j < idx { j } else { j + 1 };
        assert(rest[i] == v.planets[a]);
        assert(rest[j] == v.planets[b]);
    }
    if rest.contains(v.planets[idx]) {
        let i = choose|i: int| 0 <= i < rest.len() && rest[i] == v.planets[idx];
        assert(v.planets[if i < idx { i } else { i + 1 }] == v.planets[idx]);
    }
    if v.planets.contains(x) {
        let i = choose|i: int| 0 <= i < v.planets.len() && v.planets[i] == x;
        if i != idx {
            assert(rest[if i < idx { i } else { i - 1 }] == x);
            match v.sun {
                Some(s) => {
                    assert(np[if i < idx { i } else { i - 1 }] == x);
                },
                None => {},
            }
        }
    }
    if rest.contains(x) {
        let i = choose|i: int| 0 <= i < rest.len() && rest[i] == x;
        assert(v.planets[if i < idx { i } else { i + 1 }] == x);
    }
    match v.sun {
        Some(s) => {
            assert(np[rest.len() as int] == s);
            assert(!v.planets.contains(s));
            if rest.contains(s) {
                let i = choose|i: int| 0 <= i < rest.len() && rest[i] == s;
                assert(v.planets[if i < idx { i } else { i + 1 }] == s);
            }
            assert forall|i: int, j: int| 0 <= i < np.len() && 0 <= j < np.len() && i != j implies np[i]
                != np[j] by {
                if i == rest.len() as int {
                    assert(np[j] == rest[j]);
                } else if j == rest.len() as int {
                    assert(np[i] == rest[i]);
                } else {
                    assert(np[i] == rest[i]);
                    assert(np[j] == rest[j]);
                }
            }
            if np.contains(x) {
                let i = choose|i: int| 0 <= i < np.len() && np[i] == x;
                if i < rest.len() {
                    assert(rest[i] == x);
                }
            }
            if np.contains(v.planets[idx]) {
                let i = choose|i: int| 0 <= i < np.len() && np[i] == v.planets[idx];
                if i < rest.len() {
                    assert(rest[i] == v.planets[idx]);
                }
            }
        },
        None => {},
    }
}

} // verus!
