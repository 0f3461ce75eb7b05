use vstd::prelude::*;
use crate::layout::LayoutMode;
use crate::orbit::{Planet, WindowId, planet_windows};
use crate::workspace::{
    Workspace, WorkspaceView, WorldPos, add_window_view, promote_planet_view, remove_window_view,
    set_sun_view, view_contains, view_distinct,
};

verus! {

/// Horizontal spacing between workspaces on the infinite canvas.
pub const WORKSPACE_SPACING: i128 = 2800i128;

/// State of the orbital switcher / camera view.
#[derive(Debug, Clone, Copy, PartialEq, Eq, Structural)]
pub enum SwitcherState {
    /// Work mode — camera zoomed into the active workspace's sun.
    Hidden,
    /// Super held — orbital system visible, user is selecting a planet within
    /// the active workspace.
    Visible,
    /// Galaxy view — camera pulled far back; shows all workspaces.
    Galaxy,
}

/// Camera zoom levels used during orbital-switcher transitions.
#[derive(Debug, Clone, Copy, PartialEq, Eq, Structural)]
pub enum ZoomLevel {
    /// Zoomed in on the sun window; fills the screen.
    Work,
    /// Zoomed out to show the full solar system.
    System,
    /// Zoomed way out to show all workspaces.
    Galaxy,
}

/// Where the camera looks.
#[derive(Debug, Clone, Copy, PartialEq, Eq, Structural)]
pub enum CameraAim {
    /// A point of the world canvas.
    Point(WorldPos),
    /// The mean position of all workspaces.
    Centroid,
}

/// How far the camera zooms.
#[derive(Debug, Clone, Copy, PartialEq, Eq, Structural)]
pub enum ZoomTarget {
    /// The scale of a zoom level.
    Level(ZoomLevel),
    /// The scale that fits every workspace on screen.
    FitAll,
}

/// What the camera animates toward: the conceptual zoom level, the point it
/// looks at and the zoom it reaches. The renderer eases its floating-point
/// camera toward this target each frame.
#[derive(Debug, Clone, Copy, PartialEq, Eq, Structural)]
pub struct CameraTarget {
    pub level: ZoomLevel,
    pub aim: CameraAim,
    pub zoom: ZoomTarget,
}

/// Position of workspace `i` on the canvas: workspaces stand in a row along
/// the x axis, `WORKSPACE_SPACING` apart, the first at the origin.
pub open spec fn workspace_pos(i: int) -> WorldPos {
    WorldPos { x: (WORKSPACE_SPACING * i) as i128, y: 0 }
}

/// Camera after `set_zoom(level, Some(pos))`: the level, its scale and the point.
pub open spec fn zoomed_to(level: ZoomLevel, pos: WorldPos) -> CameraTarget {
    CameraTarget { level, aim: CameraAim::Point(pos), zoom: ZoomTarget::Level(level) }
}

/// Camera after flying to `pos` at work scale; the conceptual level is kept.
pub open spec fn flown_to(cam: CameraTarget, pos: WorldPos) -> CameraTarget {
    CameraTarget { aim: CameraAim::Point(pos), zoom: ZoomTarget::Level(ZoomLevel::Work), ..cam }
}

/// Camera pulled back over all workspaces; the conceptual level is kept.
pub open spec fn overview(cam: CameraTarget) -> CameraTarget {
    CameraTarget { aim: CameraAim::Centroid, zoom: ZoomTarget::FitAll, ..cam }
}

/// Which workspaces hold `w`.
pub open spec fn holders(views: Seq<WorkspaceView>, w: WindowId) -> Seq<bool> {
    views.map_values(|v: WorkspaceView| view_contains(v, w))
}

/// Index of the first workspace that holds `w`.
pub open spec fn first_holder(views: Seq<WorkspaceView>, w: WindowId) -> Option<int> {
    holders(views, w).index_of_first(true)
}

/// The workspace after the active one, wrapping around.
pub open spec fn next_index(a: int, n: int) -> int {
    (a + 1) % n
}

/// The workspace before the active one, wrapping around.
pub open spec fn prev_index(a: int, n: int) -> int {
    if a == 0 {
        n - 1
    } else {
        a - 1
    }
}

/// The highlight after stepping forward among `n` items.
pub open spec fn step_forward(h: Option<usize>, n: int) -> Option<usize> {
    match h {
        None => Some(0usize),
        Some(i) => Some(((i + 1) % n) as usize),
    }
}

/// The highlight after stepping backward among `n` items.
pub open spec fn step_backward(h: Option<usize>, n: int) -> Option<usize> {
    match h {
        None => Some((n - 1) as usize),
        Some(i) => if i == 0 {
            Some((n - 1) as usize)
        } else {
            Some((i - 1) as usize)
        },
    }
}

/// What the switcher holds, with workspaces seen through their views.
pub struct SwitcherView {
    pub workspaces: Seq<WorkspaceView>,
    pub active: usize,
    pub camera: CameraTarget,
    pub state: SwitcherState,
    pub hovered_planet: Option<usize>,
    pub hovered_ws: Option<usize>,
}

/// The active workspace of a switcher view.
pub open spec fn sv_active(v: SwitcherView) -> WorkspaceView {
    v.workspaces[v.active as int]
}

/// The switcher with its active workspace replaced.
pub open spec fn sv_with_active(v: SwitcherView, ws: WorkspaceView) -> SwitcherView {
    SwitcherView { workspaces: v.workspaces.update(v.active as int, ws), ..v }
}

/// `add_window`: the window joins the active workspace.
pub open spec fn sv_add_window(v: SwitcherView, w: WindowId) -> SwitcherView {
    sv_with_active(v, add_window_view(sv_active(v), w))
}

/// `remove_window`: the first workspace holding the window loses it.
pub open spec fn sv_remove_window(v: SwitcherView, w: WindowId) -> SwitcherView {
    match first_holder(v.workspaces, w) {
        Some(k) => SwitcherView {
            workspaces: v.workspaces.update(k, remove_window_view(v.workspaces[k], w)),
            ..v
        },
        None => v,
    }
}

/// The workspace `set_sun` acts on: the first holding the window, else the active one.
pub open spec fn sun_target(v: SwitcherView, w: WindowId) -> int {
    match first_holder(v.workspaces, w) {
        Some(k) => k,
        None => v.active as int,
    }
}

/// `set_sun`: the window becomes the sun of its workspace, which becomes
/// active, and the camera zooms onto it in work mode.
pub open spec fn sv_set_sun(v: SwitcherView, w: WindowId) -> SwitcherView {
    let a = sun_target(v, w);
    SwitcherView {
        workspaces: v.workspaces.update(a, set_sun_view(v.workspaces[a], w)),
        active: a as usize,
        camera: zoomed_to(ZoomLevel::Work, v.workspaces[a].world_pos),
        ..v
    }
}

/// `new_workspace`: an empty workspace is appended, one spacing to the right
/// of the last.
pub open spec fn sv_new_workspace(v: SwitcherView) -> SwitcherView {
    let id = v.workspaces.len();
    SwitcherView {
        workspaces: v.workspaces.push(
            WorkspaceView {
                id: id as usize,
                world_pos: WorldPos {
                    x: (v.workspaces[id - 1].world_pos.x + WORKSPACE_SPACING) as i128,
                    y: 0,
                },
                sun: None,
                planets: Seq::empty(),
                layout: LayoutMode::Monocle,
                label: None,
            },
        ),
        ..v
    }
}

/// `switch_workspace`: an existing workspace becomes active, the camera
/// flies to it and the overlay closes; any other index changes nothing.
pub open spec fn sv_switch(v: SwitcherView, idx: usize) -> SwitcherView {
    if idx >= v.workspaces.len() {
        v
    } else {
        SwitcherView {
            active: idx,
            camera: flown_to(v.camera, v.workspaces[idx as int].world_pos),
            state: SwitcherState::Hidden,
            hovered_ws: None,
            hovered_planet: None,
            ..v
        }
    }
}

/// `next_workspace`.
pub open spec fn sv_next(v: SwitcherView) -> SwitcherView {
    sv_switch(v, next_index(v.active as int, v.workspaces.len() as int) as usize)
}

/// `prev_workspace`.
pub open spec fn sv_prev(v: SwitcherView) -> SwitcherView {
    sv_switch(v, prev_index(v.active as int, v.workspaces.len() as int) as usize)
}

/// `set_layout`: the active workspace takes the layout.
pub open spec fn sv_set_layout(v: SwitcherView, mode: LayoutMode) -> SwitcherView {
    sv_with_active(v, WorkspaceView { layout: mode, ..sv_active(v) })
}

/// `open`: the overlay shows the active system, its first planet highlighted.
pub open spec fn sv_open(v: SwitcherView) -> SwitcherView {
    SwitcherView {
        state: SwitcherState::Visible,
        camera: zoomed_to(ZoomLevel::System, sv_active(v).world_pos),
        hovered_planet: if sv_active(v).planets.len() > 0 {
            Some(0usize)
        } else {
            None
        },
        ..v
    }
}

/// `close`: the overlay hides and the camera zooms back in.
pub open spec fn sv_close(v: SwitcherView) -> SwitcherView {
    SwitcherView {
        state: SwitcherState::Hidden,
        camera: zoomed_to(ZoomLevel::Work, sv_active(v).world_pos),
        hovered_planet: None,
        ..v
    }
}

/// `confirm_selection`: the highlighted planet, if it exists, becomes the
/// sun; then the overlay closes.
pub open spec fn sv_confirm(v: SwitcherView) -> SwitcherView {
    sv_close(
        match v.hovered_planet {
            Some(i) => if i < sv_active(v).planets.len() {
                sv_with_active(v, promote_planet_view(sv_active(v), i as int))
            } else {
                v
            },
            None => v,
        },
    )
}

/// `highlight_next`.
pub open spec fn sv_highlight_next(v: SwitcherView) -> SwitcherView {
    let n = sv_active(v).planets.len();
    if n == 0 {
        v
    } else {
        SwitcherView { hovered_planet: step_forward(v.hovered_planet, n as int), ..v }
    }
}

/// `highlight_prev`.
pub open spec fn sv_highlight_prev(v: SwitcherView) -> SwitcherView {
    let n = sv_active(v).planets.len();
    if n == 0 {
        v
    } else {
        SwitcherView { hovered_planet: step_backward(v.hovered_planet, n as int), ..v }
    }
}

/// `pick_planet`.
pub open spec fn sv_pick_planet(v: SwitcherView, i: usize) -> SwitcherView {
    SwitcherView { hovered_planet: Some(i), ..v }
}

/// `enter_galaxy`: the camera pulls back over all workspaces and the active
/// one is highlighted.
pub open spec fn sv_enter_galaxy(v: SwitcherView) -> SwitcherView {
    SwitcherView {
        state: SwitcherState::Galaxy,
        camera: overview(v.camera),
        hovered_ws: Some(v.active),
        ..v
    }
}

/// `exit_galaxy`: the camera flies back to the active workspace.
pub open spec fn sv_exit_galaxy(v: SwitcherView) -> SwitcherView {
    SwitcherView {
        state: SwitcherState::Hidden,
        camera: flown_to(v.camera, sv_active(v).world_pos),
        hovered_ws: None,
        ..v
    }
}

/// `highlight_next_ws`.
pub open spec fn sv_highlight_next_ws(v: SwitcherView) -> SwitcherView {
    if v.workspaces.len() == 0 {
        v
    } else {
        SwitcherView { hovered_ws: step_forward(v.hovered_ws, v.workspaces.len() as int), ..v }
    }
}

/// `highlight_prev_ws`.
pub open spec fn sv_highlight_prev_ws(v: SwitcherView) -> SwitcherView {
    if v.workspaces.len() == 0 {
        v
    } else {
        SwitcherView { hovered_ws: step_backward(v.hovered_ws, v.workspaces.len() as int), ..v }
    }
}

/// `confirm_ws_selection`.
pub open spec fn sv_confirm_ws(v: SwitcherView) -> SwitcherView {
    match v.hovered_ws {
        Some(idx) => sv_switch(v, idx),
        None => sv_exit_galaxy(v),
    }
}

/// The orbital switcher: all workspaces of the canvas, the active one, the
/// camera target, the overlay state and the highlighted planet or workspace.
pub struct OrbitalSwitcher {
    /// All workspaces (solar systems) on the infinite canvas.
    pub workspaces: Vec<Workspace>,
    /// Index of the currently active workspace.
    pub active: usize,
    /// Where the camera is heading.
    pub camera: CameraTarget,
    /// Current overlay / view state.
    pub state: SwitcherState,
    /// In Visible state: index of highlighted planet in the active workspace.
    pub hovered_planet: Option<usize>,
    /// In Galaxy state: index of highlighted workspace.
    pub hovered_ws: Option<usize>,
}

impl View for OrbitalSwitcher {
    type V = SwitcherView;

    open spec fn view(&self) -> SwitcherView {
        SwitcherView {
            workspaces: self.views(),
            active: self.active,
            camera: self.camera,
            state: self.state,
            hovered_planet: self.hovered_planet,
            hovered_ws: self.hovered_ws,
        }
    }
}

impl OrbitalSwitcher {
    /// The workspaces as views.
    pub open spec fn views(&self) -> Seq<WorkspaceView> {
        self.workspaces@.map_values(|w: Workspace| w@)
    }

    /// There is at least one workspace and the active one exists; workspace
    /// `i` has id `i` and stands at `workspace_pos(i)`; each workspace is well
    /// formed; highlights can still be stepped forward.
    pub open spec fn wf(&self) -> bool {
        &&& self.workspaces@.len() >= 1
        &&& self.active < self.workspaces@.len()
        &&& forall|i: int|
            0 <= i < self.workspaces@.len() ==> {
                &&& (#[trigger] self.workspaces@[i]).wf()
                &&& self.workspaces@[i].id == i
                &&& self.workspaces@[i].world_pos == workspace_pos(i)
            }
        &&& self.hovered_planet matches Some(i) ==> i < usize::MAX
        &&& self.hovered_ws matches Some(i) ==> i < usize::MAX
    }

    /// The view of the active workspace.
    pub open spec fn active_view(&self) -> WorkspaceView {
        self.workspaces@[self.active as int]@
    }

    pub fn new() -> (s: Self)
        ensures
            s.wf(),
            s.views() == seq![
                WorkspaceView {
                    id: 0,
                    world_pos: WorldPos { x: 0, y: 0 },
                    sun: None,
                    planets: Seq::empty(),
                    layout: LayoutMode::Monocle,
                    label: None,
                },
            ],
            s.active == 0,
            s.camera == zoomed_to(ZoomLevel::Work, WorldPos { x: 0, y: 0 }),
            s.state == SwitcherState::Hidden,
            s.hovered_planet is None,
            s.hovered_ws is None,
    {
        let mut workspaces: Vec<Workspace> = Vec::new();
        workspaces.push(Workspace::new(0, WorldPos { x: 0, y: 0 }));
        let s = OrbitalSwitcher {
            workspaces,
            active: 0,
            camera: CameraTarget {
                level: ZoomLevel::Work,
                aim: CameraAim::Point(WorldPos { x: 0, y: 0 }),
                zoom: ZoomTarget::Level(ZoomLevel::Work),
            },
            state: SwitcherState::Hidden,
            hovered_planet: None,
            hovered_ws: None,
        };
        assert(s.views() =~= seq![s.workspaces@[0]@]);
        s
    }

    pub fn active_ws(&self) -> (ws: &Workspace)
        requires
            self.wf(),
        ensures
            *ws == self.workspaces@[self.active as int],
    {
        &self.workspaces[self.active]
    }

    /// Mutable access to the active workspace.
    pub fn active_ws_mut(&mut self) -> (ws: &mut Workspace)
        requires
            old(self).wf(),
        ensures
            *ws == old(self).workspaces@[old(self).active as int],
            final(self).workspaces@ == old(self).workspaces@.update(old(self).active as int, *final(ws)),
            final(self).active == old(self).active,
            final(self).camera == old(self).camera,
            final(self).state == old(self).state,
            final(self).hovered_planet == old(self).hovered_planet,
            final(self).hovered_ws == old(self).hovered_ws,
    {
        let a = self.active;
        &mut self.workspaces[a]
    }

    /// The sun of the active workspace.
    pub fn sun(&self) -> (s: Option<WindowId>)
        requires
            self.wf(),
        ensures
            s == self.active_view().sun,
    {
        self.workspaces[self.active].sun
    }

    /// The windows whose thumbnails the overlay draws: the planets of the
    /// active workspace, in order, while System or Galaxy view is open;
    /// `None` in work mode, where thumbnails are left as they are.
    pub fn thumbnail_windows(&self) -> (r: Option<Vec<WindowId>>)
        requires
            self.wf(),
        ensures
            match r {
                Some(ws) => self.state != SwitcherState::Hidden && ws@ == self.active_view().planets,
                None => self.state == SwitcherState::Hidden,
            },
    {
        if matches!(self.state, SwitcherState::Hidden) {
            return None;
        }
        let planets = &self.workspaces[self.active].planets;
        let mut out: Vec<WindowId> = Vec::new();
        let mut i: usize = 0;
        while i < planets.len()
            invariant
                i <= planets@.len(),
                out@ == planet_windows(planets@).take(i as int),
            decreases planets@.len() - i,
        {
            out.push(planets[i].window);
            i += 1;
            assert(out@ =~= planet_windows(planets@).take(i as int));
        }
        assert(out@ =~= planet_windows(planets@));
        Some(out)
    }

    /// Planets of the active workspace.
    pub fn planets(&self) -> (ps: &[Planet])
        requires
            self.wf(),
        ensures
            ps@ == self.workspaces@[self.active as int].planets@,
    {
        self.workspaces[self.active].planets.as_slice()
    }
}

impl CameraTarget {
    /// Set new zoom level and a new look-at position.
    pub fn set_zoom(&mut self, level: ZoomLevel, look_at: WorldPos)
        ensures
            *final(self) == zoomed_to(level, look_at),
    {
        *self = CameraTarget { level, aim: CameraAim::Point(look_at), zoom: ZoomTarget::Level(level) };
    }

    /// Fly to a world position at work scale.
    pub fn fly_to(&mut self, position: WorldPos)
        ensures
            *final(self) == flown_to(*old(self), position),
    {
        self.aim = CameraAim::Point(position);
        self.zoom = ZoomTarget::Level(ZoomLevel::Work);
    }

    /// Pull back over all workspaces.
    pub fn fly_over_all(&mut self)
        ensures
            *final(self) == overview(*old(self)),
    {
        self.aim = CameraAim::Centroid;
        self.zoom = ZoomTarget::FitAll;
    }
}

impl OrbitalSwitcher {
    /// Only the workspaces may have changed.
    pub open spec fn same_but_workspaces(&self, other: &Self) -> bool {
        &&& self.active == other.active
        &&& self.camera == other.camera
        &&& self.state == other.state
        &&& self.hovered_planet == other.hovered_planet
        &&& self.hovered_ws == other.hovered_ws
    }

    /// Changing the workspace at `k` alone changes only its view.
    proof fn lemma_views_update(
        old_ws: Seq<Workspace>,
        new_ws: Seq<Workspace>,
        k: int,
    )
        requires
            old_ws.len() == new_ws.len(),
            0 <= k < old_ws.len(),
            forall|i: int| 0 <= i < old_ws.len() && i != k ==> new_ws[i] == old_ws[i],
        ensures
            new_ws.map_values(|w: Workspace| w@) == old_ws.map_values(|w: Workspace| w@).update(
                k,
                new_ws[k]@,
            ),
    {
        assert(new_ws.map_values(|w: Workspace| w@) =~= old_ws.map_values(|w: Workspace| w@).update(
            k,
            new_ws[k]@,
        ));
    }

    /// Add a new window to the active workspace.
    pub fn add_window(&mut self, window: WindowId)
        requires
            old(self).wf(),
        ensures
            final(self)@ == sv_add_window(old(self)@, window),
            final(self).wf(),
    {
        let a = self.active;
        self.workspaces[a].add_window(window);
        proof {
            Self::lemma_views_update(old(self).workspaces@, self.workspaces@, a as int);
        }
    }

    /// Remove a window from the first workspace that holds it.
    pub fn remove_window(&mut self, window: WindowId)
        requires
            old(self).wf(),
        ensures
            final(self)@ == sv_remove_window(old(self)@, window),
            final(self).wf(),
    {
        let n = self.workspaces.len();
        let ghost hs = holders(old(self).views(), window);
        let mut i: usize = 0;
        while i < n
            invariant
                n == old(self).workspaces@.len(),
                hs == holders(old(self).views(), window),
                old(self).wf(),
                self.workspaces@ == old(self).workspaces@,
                self.same_but_workspaces(old(self)),
                i <= n,
                forall|j: int| 0 <= j < i ==> !hs[j],
            decreases n - i,
        {
            if self.workspaces[i].remove_window(window) {
                proof {
                    Self::lemma_views_update(old(self).workspaces@, self.workspaces@, i as int);
                    assert(hs[i as int]);
                    hs.index_of_first_ensures(true);
                    match hs.index_of_first(true) {
                        Some(k) => {
                            assert(k == i);
                        },
                        None => {
                            assert(hs.contains(true));
                        },
                    }
                }
                return ;
            }
            assert(!hs[i as int]);
            i += 1;
        }
        proof {
            hs.index_of_first_ensures(true);
            if hs.contains(true) {
                let k = choose|k: int| 0 <= k < hs.len() && hs[k] == true;
                assert(!hs[k]);
            }
        }
    }

    /// Find which workspace contains `window`.
    pub fn workspace_of(&self, window: WindowId) -> (idx: Option<usize>)
        requires
            self.wf(),
        ensures
            match idx {
                Some(i) => first_holder(self.views(), window) == Some(i as int),
                None => first_holder(self.views(), window) is None,
            },
    {
        let ghost hs = holders(self.views(), window);
        let mut i: usize = 0;
        while i < self.workspaces.len()
            invariant
                hs == holders(self.views(), window),
                i <= self.workspaces@.len(),
                forall|j: int| 0 <= j < i ==> !hs[j],
            decreases self.workspaces@.len() - i,
        {
            if self.workspaces[i].contains(window) {
                proof {
                    assert(hs[i as int]);
                    hs.index_of_first_ensures(true);
                    match hs.index_of_first(true) {
                        Some(k) => {
                            assert(k == i);
                        },
                        None => {
                            assert(hs.contains(true));
                        },
                    }
                }
                return Some(i);
            }
            assert(!hs[i as int]);
            i += 1;
        }
        proof {
            hs.index_of_first_ensures(true);
            if hs.contains(true) {
                let k = choose|k: int| 0 <= k < hs.len() && hs[k] == true;
                assert(!hs[k]);
            }
        }
        None
    }

    /// Promote `window` to the sun of its workspace. If the window is in
    /// another workspace, that workspace becomes active; a window held by no
    /// workspace becomes the sun of the active one. The camera then zooms
    /// onto the active workspace in work mode.
    pub fn set_sun(&mut self, window: WindowId)
        requires
            old(self).wf(),
        ensures
            final(self)@ == sv_set_sun(old(self)@, window),
            final(self).wf(),
    {
        let ws_idx = self.workspace_of(window);
        proof {
            holders(old(self).views(), window).index_of_first_ensures(true);
        }
        let target = match ws_idx {
            Some(idx) => {
                if idx != self.active {
                    self.active = idx;
                    let pos = self.workspaces[idx].world_pos;
                    self.camera.fly_to(pos);
                }
                idx
            },
            None => self.active,
        };
        proof {
            holders(old(self).views(), window).index_of_first_ensures(true);
        }
        self.workspaces[target].set_sun(window);
        proof {
            Self::lemma_views_update(old(self).workspaces@, self.workspaces@, target as int);
        }
        let pos = self.workspaces[self.active].world_pos;
        self.camera.set_zoom(ZoomLevel::Work, pos);
    }

    /// Create a new empty workspace to the right of the last one.
    /// Returns the index of the new workspace.
    pub fn new_workspace(&mut self) -> (id: usize)
        requires
            old(self).wf(),
        ensures
            final(self)@ == sv_new_workspace(old(self)@),
            final(self).wf(),
            id == old(self).workspaces@.len(),
    {
        let id = self.workspaces.len();
        let last_x = self.workspaces[id - 1].world_pos.x;
        assert(last_x == WORKSPACE_SPACING * (id - 1));
        let pos = WorldPos { x: last_x + WORKSPACE_SPACING, y: 0 };
        self.workspaces.push(Workspace::new(id, pos));
        assert(self.views() =~= old(self).views().push(self.workspaces@[id as int]@));
        id
    }

    /// Switch to the workspace at `idx`, animating the camera. An index past
    /// the last workspace changes nothing.
    pub fn switch_workspace(&mut self, idx: usize)
        requires
            old(self).wf(),
        ensures
            final(self)@ == sv_switch(old(self)@, idx),
            final(self).wf(),
    {
        if idx >= self.workspaces.len() {
            return ;
        }
        self.active = idx;
        let pos = self.workspaces[idx].world_pos;
        self.camera.fly_to(pos);
        self.state = SwitcherState::Hidden;
        self.hovered_ws = None;
        self.hovered_planet = None;
    }

    /// Switch to the next workspace, wrapping around after the last.
    pub fn next_workspace(&mut self)
        requires
            old(self).wf(),
        ensures
            final(self)@ == sv_next(old(self)@),
            final(self).wf(),
    {
        let n = self.workspaces.len();
        let next = (self.active + 1) % n;
        self.switch_workspace(next);
    }

    /// Switch to the previous workspace, wrapping around before the first.
    pub fn prev_workspace(&mut self)
        requires
            old(self).wf(),
        ensures
            final(self)@ == sv_prev(old(self)@),
            final(self).wf(),
    {
        let prev = if self.active == 0 {
            self.workspaces.len() - 1
        } else {
            self.active - 1
        };
        self.switch_workspace(prev);
    }

    /// Set the tiling layout of the active workspace.
    pub fn set_layout(&mut self, mode: LayoutMode)
        requires
            old(self).wf(),
        ensures
            final(self)@ == sv_set_layout(old(self)@, mode),
            final(self).wf(),
    {
        let a = self.active;
        self.workspaces[a].layout = mode;
        proof {
            Self::lemma_views_update(old(self).workspaces@, self.workspaces@, a as int);
        }
    }

    /// Show the orbital overlay (System view) over the active workspace,
    /// highlighting its first planet if it has one.
    pub fn open(&mut self)
        requires
            old(self).wf(),
        ensures
            final(self)@ == sv_open(old(self)@),
            final(self).wf(),
    {
        self.state = SwitcherState::Visible;
        let pos = self.workspaces[self.active].world_pos;
        self.camera.set_zoom(ZoomLevel::System, pos);
        let has_planets = self.workspaces[self.active].planets.len() > 0;
        self.hovered_planet = if has_planets {
            Some(0)
        } else {
            None
        };
    }

    /// Hide the overlay and zoom back onto the active workspace.
    pub fn close(&mut self)
        requires
            old(self).wf(),
        ensures
            final(self)@ == sv_close(old(self)@),
            final(self).wf(),
    {
        self.state = SwitcherState::Hidden;
        let pos = self.workspaces[self.active].world_pos;
        self.camera.set_zoom(ZoomLevel::Work, pos);
        self.hovered_planet = None;
    }

    /// Promote the highlighted planet, if it exists, to sun of the active
    /// workspace, then close the overlay.
    pub fn confirm_selection(&mut self)
        requires
            old(self).wf(),
        ensures
            final(self)@ == sv_confirm(old(self)@),
            final(self).wf(),
    {
        if let Some(idx) = self.hovered_planet {
            let a = self.active;
            if idx < self.workspaces[a].planets.len() {
                self.workspaces[a].promote_planet(idx);
                proof {
                    Self::lemma_views_update(old(self).workspaces@, self.workspaces@, a as int);
                }
            }
        }
        self.close();
    }

    /// Highlight the next planet of the active workspace, wrapping around.
    pub fn highlight_next(&mut self)
        requires
            old(self).wf(),
        ensures
            final(self)@ == sv_highlight_next(old(self)@),
            final(self).wf(),
    {
        let n = self.workspaces[self.active].planets.len();
        if n == 0 {
            return ;
        }
        self.hovered_planet = Some(
            match self.hovered_planet {
                None => 0,
                Some(i) => (i + 1) % n,
            },
        );
    }

    /// Highlight the previous planet of the active workspace, wrapping around.
    pub fn highlight_prev(&mut self)
        requires
            old(self).wf(),
        ensures
            final(self)@ == sv_highlight_prev(old(self)@),
            final(self).wf(),
    {
        let n = self.workspaces[self.active].planets.len();
        if n == 0 {
            return ;
        }
        self.hovered_planet = Some(
            match self.hovered_planet {
                None => n - 1,
                Some(0) => n - 1,
                Some(i) => i - 1,
            },
        );
    }

    /// Highlight the planet at `idx`, as a click on it does.
    pub fn pick_planet(&mut self, idx: usize)
        requires
            old(self).wf(),
            idx < usize::MAX,
        ensures
            final(self)@ == sv_pick_planet(old(self)@, idx),
            final(self).wf(),
    {
        self.hovered_planet = Some(idx);
    }

    /// Enter Galaxy view: the camera pulls far back to show all workspaces,
    /// and the active workspace is highlighted.
    pub fn enter_galaxy(&mut self)
        requires
            old(self).wf(),
        ensures
            final(self)@ == sv_enter_galaxy(old(self)@),
            final(self).wf(),
    {
        let n = self.workspaces.len();
        assert(self.active < n);
        self.state = SwitcherState::Galaxy;
        self.camera.fly_over_all();
        self.hovered_ws = Some(self.active);
    }

    /// Exit Galaxy view, flying back to the active workspace.
    pub fn exit_galaxy(&mut self)
        requires
            old(self).wf(),
        ensures
            final(self)@ == sv_exit_galaxy(old(self)@),
            final(self).wf(),
    {
        self.state = SwitcherState::Hidden;
        let pos = self.workspaces[self.active].world_pos;
        self.camera.fly_to(pos);
        self.hovered_ws = None;
    }

    /// In Galaxy view: highlight the next workspace, wrapping around.
    pub fn highlight_next_ws(&mut self)
        requires
            old(self).wf(),
        ensures
            final(self)@ == sv_highlight_next_ws(old(self)@),
            final(self).wf(),
    {
        let n = self.workspaces.len();
        if n == 0 {
            return ;
        }
        self.hovered_ws = Some(
            match self.hovered_ws {
                None => 0,
                Some(i) => (i + 1) % n,
            },
        );
    }

    /// In Galaxy view: highlight the previous workspace, wrapping around.
    pub fn highlight_prev_ws(&mut self)
        requires
            old(self).wf(),
        ensures
            final(self)@ == sv_highlight_prev_ws(old(self)@),
            final(self).wf(),
    {
        let n = self.workspaces.len();
        if n == 0 {
            return ;
        }
        self.hovered_ws = Some(
            match self.hovered_ws {
                None => n - 1,
                Some(0) => n - 1,
                Some(i) => i - 1,
            },
        );
    }

    /// In Galaxy view: fly to the highlighted workspace, or back to the
    /// active one when none is highlighted.
    pub fn confirm_ws_selection(&mut self)
        requires
            old(self).wf(),
        ensures
            final(self)@ == sv_confirm_ws(old(self)@),
            final(self).wf(),
    {
        if let Some(idx) = self.hovered_ws {
            self.switch_workspace(idx);
        } else {
            self.exit_galaxy();
        }
    }
}

/// The windows of all workspaces are distinct: no workspace holds a window
/// twice and no two workspaces share one.
pub open spec fn windows_distinct(views: Seq<WorkspaceView>) -> bool {
    &&& forall|i: int| 0 <= i < views.len() ==> view_distinct(#[trigger] views[i])
    &&& forall|i: int, j: int, w: WindowId|
        #![trigger view_contains(views[i], w), view_contains(views[j], w)]
        0 <= i < views.len() && 0 <= j < views.len() && i != j && view_contains(views[i], w)
            ==> !view_contains(views[j], w)
}

/// Every workspace without a sun is empty.
pub open spec fn suns_first(views: Seq<WorkspaceView>) -> bool {
    forall|i: int| 0 <= i < views.len() ==> (#[trigger] views[i]).sun is None ==> views[i].planets.len() == 0
}

/// Stepping an index forward and back, or back and forward, among `n`
/// returns to it.
proof fn lemma_index_steps_inverse(a: int, n: int)
    requires
        0 <= a < n,
    ensures
        prev_index(next_index(a, n), n) == a,
        next_index(prev_index(a, n), n) == a,
        0 <= next_index(a, n) < n,
        0 <= prev_index(a, n) < n,
{
    if a + 1 < n {
        vstd::arithmetic::div_mod::lemma_small_mod((a + 1) as nat, n as nat);
    } else {
        vstd::arithmetic::div_mod::lemma_mod_self_0(n);
    }
    if a == 0 {
        vstd::arithmetic::div_mod::lemma_mod_self_0(n);
    } else {
        vstd::arithmetic::div_mod::lemma_small_mod(a as nat, n as nat);
    }
}

/// Switching to the next workspace and back, or back and then forward,
/// returns to the workspace one started from.
pub proof fn lemma_next_prev_inverse(v: SwitcherView)
    requires
        v.active < v.workspaces.len() <= usize::MAX,
    ensures
        sv_next(v).active == (v.active + 1) % (v.workspaces.len() as int),
        sv_prev(v).active == if v.active == 0 {
            v.workspaces.len() - 1
        } else {
            v.active - 1
        },
        sv_prev(sv_next(v)).active == v.active,
        sv_next(sv_prev(v)).active == v.active,
{
    let n = v.workspaces.len() as int;
    lemma_index_steps_inverse(v.active as int, n);
    let nx = next_index(v.active as int, n);
    lemma_index_steps_inverse(nx, n);
    assert(sv_next(v).active == nx);
    assert(sv_prev(sv_next(v)).active == prev_index(nx, n));
    let pv = prev_index(v.active as int, n);
    assert(sv_prev(v).active == pv);
    assert(sv_next(sv_prev(v)).active == next_index(pv, n));
}

/// Moving the planet highlight forward and then backward, or backward and
/// then forward, returns to the planet one started from; so does the
/// workspace highlight in Galaxy view.
pub proof fn lemma_highlight_inverse(v: SwitcherView)
    requires
        v.active < v.workspaces.len() <= usize::MAX,
        sv_active(v).planets.len() <= usize::MAX,
    ensures
        v.hovered_planet matches Some(i) && i < sv_active(v).planets.len() ==> {
            &&& sv_highlight_prev(sv_highlight_next(v)).hovered_planet == v.hovered_planet
            &&& sv_highlight_next(sv_highlight_prev(v)).hovered_planet == v.hovered_planet
        },
        v.hovered_ws matches Some(i) && i < v.workspaces.len() ==> {
            &&& sv_highlight_prev_ws(sv_highlight_next_ws(v)).hovered_ws == v.hovered_ws
            &&& sv_highlight_next_ws(sv_highlight_prev_ws(v)).hovered_ws == v.hovered_ws
        },
{
    if let Some(i) = v.hovered_planet {
        if i < sv_active(v).planets.len() {
            lemma_index_steps_inverse(i as int, sv_active(v).planets.len() as int);
        }
    }
    if let Some(i) = v.hovered_ws {
        if i < v.workspaces.len() {
            lemma_index_steps_inverse(i as int, v.workspaces.len() as int);
        }
    }
}

/// Opening the overlay shows the active workspace's solar system: the
/// camera zooms out to System level over the active workspace, its first
/// planet (if it has one) is highlighted, and the active workspace and every
/// workspace stay as they were.
pub proof fn lemma_open_shows_active_system(v: SwitcherView)
    requires
        v.active < v.workspaces.len(),
    ensures
        sv_open(v).camera == (CameraTarget {
            level: ZoomLevel::System,
            aim: CameraAim::Point(v.workspaces[v.active as int].world_pos),
            zoom: ZoomTarget::Level(ZoomLevel::System),
        }),
        sv_open(v).state == SwitcherState::Visible,
        sv_open(v).hovered_planet == if v.workspaces[v.active as int].planets.len() > 0 {
            Some(0usize)
        } else {
            None
        },
        sv_open(v).active == v.active,
        sv_open(v).workspaces == v.workspaces,
{
}

/// Entering Galaxy view pulls the camera back over all workspaces and
/// highlights the active one, so that confirming right away stays on the
/// active workspace, back in work mode with the camera on it.
pub proof fn lemma_galaxy_starts_at_active(v: SwitcherView)
    requires
        v.active < v.workspaces.len(),
    ensures
        sv_enter_galaxy(v).state == SwitcherState::Galaxy,
        sv_enter_galaxy(v).hovered_ws == Some(v.active),
        sv_enter_galaxy(v).camera.aim == CameraAim::Centroid,
        sv_enter_galaxy(v).camera.zoom == ZoomTarget::FitAll,
        sv_enter_galaxy(v).active == v.active,
        sv_enter_galaxy(v).workspaces == v.workspaces,
        sv_confirm_ws(sv_enter_galaxy(v)).active == v.active,
        sv_confirm_ws(sv_enter_galaxy(v)).state == SwitcherState::Hidden,
        sv_confirm_ws(sv_enter_galaxy(v)).camera.aim == CameraAim::Point(v.workspaces[v.active as int].world_pos),
        sv_confirm_ws(sv_enter_galaxy(v)).camera.zoom == ZoomTarget::Level(ZoomLevel::Work),
{
}

/// Moving the highlight steps one planet (or one workspace in Galaxy view)
/// forward or back, wrapping around: forward from none is the first, back
/// from none or from the first is the last. With nothing to highlight it
/// stays as it is.
pub proof fn lemma_highlight_steps(v: SwitcherView)
    requires
        v.active < v.workspaces.len() <= usize::MAX,
        v.workspaces[v.active as int].planets.len() <= usize::MAX,
    ensures
        ({
            let n = v.workspaces[v.active as int].planets.len() as int;
            &&& n == 0 ==> sv_highlight_next(v).hovered_planet == v.hovered_planet
                && sv_highlight_prev(v).hovered_planet == v.hovered_planet
            &&& n > 0 ==> match v.hovered_planet {
                None => sv_highlight_next(v).hovered_planet == Some(0usize)
                    && sv_highlight_prev(v).hovered_planet == Some((n - 1) as usize),
                Some(i) => sv_highlight_next(v).hovered_planet == Some(((i + 1) % n) as usize)
                    && sv_highlight_prev(v).hovered_planet == Some((if i == 0 {
                    n - 1
                } else {
                    i - 1
                }) as usize),
            }
        }),
        ({
            let n = v.workspaces.len() as int;
            match v.hovered_ws {
                None => sv_highlight_next_ws(v).hovered_ws == Some(0usize)
                    && sv_highlight_prev_ws(v).hovered_ws == Some((n - 1) as usize),
                Some(i) => sv_highlight_next_ws(v).hovered_ws == Some(((i + 1) % n) as usize)
                    && sv_highlight_prev_ws(v).hovered_ws == Some((if i == 0 {
                    n - 1
                } else {
                    i - 1
                }) as usize),
            }
        }),
{
}

/// Switching to an existing workspace makes it active and flies the camera
/// to it in work mode, with the overlay closed and no highlight; switching
/// to an index past the last workspace changes nothing. Closing the overlay
/// and leaving Galaxy view both bring the camera back onto the active
/// workspace at work scale.
pub proof fn lemma_switch_and_close_aim_at_active(v: SwitcherView, idx: usize)
    requires
        v.active < v.workspaces.len(),
    ensures
        idx < v.workspaces.len() ==> {
            let w = sv_switch(v, idx);
            &&& w.active == idx
            &&& w.state == SwitcherState::Hidden
            &&& w.camera.aim == CameraAim::Point(v.workspaces[idx as int].world_pos)
            &&& w.camera.zoom == ZoomTarget::Level(ZoomLevel::Work)
            &&& w.hovered_planet is None && w.hovered_ws is None
            &&& w.workspaces == v.workspaces
        },
        idx >= v.workspaces.len() ==> sv_switch(v, idx) == v,
        sv_close(v).camera == (CameraTarget {
            level: ZoomLevel::Work,
            aim: CameraAim::Point(v.workspaces[v.active as int].world_pos),
            zoom: ZoomTarget::Level(ZoomLevel::Work),
        }),
        sv_close(v).state == SwitcherState::Hidden,
        sv_close(v).active == v.active,
        sv_exit_galaxy(v).camera.aim == CameraAim::Point(v.workspaces[v.active as int].world_pos),
        sv_exit_galaxy(v).camera.zoom == ZoomTarget::Level(ZoomLevel::Work),
        sv_exit_galaxy(v).state == SwitcherState::Hidden,
        sv_exit_galaxy(v).active == v.active,
{
}

/// A window that no workspace held is found, once added, in the active
/// workspace.
pub proof fn lemma_added_window_found(v: SwitcherView, w: WindowId)
    requires
        v.active < v.workspaces.len(),
        forall|i: int| 0 <= i < v.workspaces.len() ==> !view_contains(#[trigger] v.workspaces[i], w),
    ensures
        first_holder(sv_add_window(v, w).workspaces, w) == Some(v.active as int),
{
    let a = v.active as int;
    let views = v.workspaces;
    let nv = sv_add_window(v, w).workspaces;
    let hs = holders(nv, w);
    crate::workspace::lemma_add_window_contains(views[a], w, w);
    assert(hs[a]);
    hs.index_of_first_ensures(true);
    match hs.index_of_first(true) {
        Some(k) => {
            if k < a {
                assert(nv[k] == views[k]);
                assert(!view_contains(views[k], w));
            }
        },
        None => {
            assert(hs.contains(true));
        },
    }
}

/// Removing a window right after adding it, when no workspace held it,
/// gives back the workspaces as they were.
pub proof fn lemma_remove_undoes_add_window(v: SwitcherView, w: WindowId)
    requires
        v.active < v.workspaces.len(),
        suns_first(v.workspaces),
        forall|i: int| 0 <= i < v.workspaces.len() ==> !view_contains(#[trigger] v.workspaces[i], w),
    ensures
        sv_remove_window(sv_add_window(v, w), w).workspaces == v.workspaces,
{
    let a = v.active as int;
    lemma_added_window_found(v, w);
    assert(!view_contains(v.workspaces[a], w));
    crate::workspace::lemma_remove_undoes_add(v.workspaces[a], w);
    assert(sv_remove_window(sv_add_window(v, w), w).workspaces =~= v.workspaces);
}

/// When windows are distinct across workspaces, a window removed from the
/// switcher is held by no workspace afterwards, and every other window is
/// held where it was.
pub proof fn lemma_removed_window_gone(v: SwitcherView, w: WindowId)
    requires
        windows_distinct(v.workspaces),
        suns_first(v.workspaces),
    ensures
        sv_remove_window(v, w).workspaces.len() == v.workspaces.len(),
        forall|i: int|
            0 <= i < v.workspaces.len() ==> !view_contains(#[trigger] sv_remove_window(v, w).workspaces[i], w),
        forall|i: int, x: WindowId|
            #![trigger view_contains(sv_remove_window(v, w).workspaces[i], x)]
            0 <= i < v.workspaces.len() && x != w ==> view_contains(sv_remove_window(v, w).workspaces[i], x)
                == view_contains(v.workspaces[i], x),
{
    let views = v.workspaces;
    let hs = holders(views, w);
    hs.index_of_first_ensures(true);
    let after = sv_remove_window(v, w).workspaces;
    match hs.index_of_first(true) {
        Some(k) => {
            assert(view_distinct(views[k]));
            crate::workspace::lemma_remove_window_forgets(views[k], w, w);
            assert forall|i: int| 0 <= i < after.len() implies !view_contains(#[trigger] after[i], w) by {
                if i != k {
                    assert(view_contains(views[k], w));
                }
            }
            assert forall|i: int, x: WindowId|
                #![trigger view_contains(after[i], x)]
                0 <= i < views.len() && x != w implies view_contains(after[i], x)
                == view_contains(views[i], x) by {
                crate::workspace::lemma_remove_window_forgets(views[k], w, x);
            }
        },
        None => {
            assert forall|i: int| 0 <= i < views.len() implies !view_contains(#[trigger] views[i], w) by {
                if view_contains(views[i], w) {
                    assert(hs[i]);
                }
            }
        },
    }
}

/// Distinct windows stay distinct when one workspace changes into a
/// distinct one that holds only its old windows and `w`, and no other
/// workspace holds `w`.
proof fn lemma_distinct_after_update(old: Seq<WorkspaceView>, new: Seq<WorkspaceView>, a: int, w: WindowId)
    requires
        windows_distinct(old),
        new.len() == old.len(),
        0 <= a < old.len(),
        forall|i: int| 0 <= i < new.len() && i != a ==> new[i] == old[i],
        view_distinct(new[a]),
        forall|x: WindowId| #[trigger] view_contains(new[a], x) ==> view_contains(old[a], x) || x == w,
        forall|j: int| 0 <= j < old.len() && j != a ==> !view_contains(#[trigger] old[j], w),
    ensures
        windows_distinct(new),
{
    assert forall|i: int| 0 <= i < new.len() implies view_distinct(#[trigger] new[i]) by {
        if i != a {
            assert(view_distinct(old[i]));
        }
    }
    assert forall|i: int, j: int, x: WindowId|
        0 <= i < new.len() && 0 <= j < new.len() && i != j && view_contains(new[i], x) implies !view_contains(
        new[j],
        x,
    ) by {
        if view_contains(new[j], x) {
            if i == a {
                assert(new[j] == old[j]);
                if x != w {
                    assert(view_contains(old[a], x));
                }
            } else if j == a {
                assert(new[i] == old[i]);
                if x != w {
                    assert(view_contains(old[a], x));
                }
            } else {
                assert(new[i] == old[i]);
                assert(new[j] == old[j]);
            }
        }
    }
}

/// Every operation that changes the workspaces keeps the windows of all
/// workspaces distinct and every sunless workspace empty: adding a window no
/// workspace holds, removing a window, promoting a window to sun, confirming
/// the highlighted planet, appending a workspace and setting a layout.
pub proof fn lemma_switcher_keeps_windows_distinct(v: SwitcherView, w: WindowId, mode: LayoutMode)
    requires
        v.active < v.workspaces.len(),
        windows_distinct(v.workspaces),
        suns_first(v.workspaces),
    ensures
        (forall|i: int| 0 <= i < v.workspaces.len() ==> !view_contains(#[trigger] v.workspaces[i], w)) ==> (
        windows_distinct(sv_add_window(v, w).workspaces) && suns_first(sv_add_window(v, w).workspaces)),
        windows_distinct(sv_remove_window(v, w).workspaces),
        suns_first(sv_remove_window(v, w).workspaces),
        windows_distinct(sv_set_sun(v, w).workspaces),
        suns_first(sv_set_sun(v, w).workspaces),
        windows_distinct(sv_confirm(v).workspaces),
        suns_first(sv_confirm(v).workspaces),
        windows_distinct(sv_new_workspace(v).workspaces),
        suns_first(sv_new_workspace(v).workspaces),
        windows_distinct(sv_set_layout(v, mode).workspaces),
        suns_first(sv_set_layout(v, mode).workspaces),
{
    let views = v.workspaces;
    let a = v.active as int;
    assert(view_distinct(views[a]));
    // Adding a new window.
    if forall|i: int| 0 <= i < views.len() ==> !view_contains(#[trigger] views[i], w) {
        let nv = sv_add_window(v, w).workspaces;
        crate::workspace::lemma_add_window_distinct(views[a], w);
        assert forall|x: WindowId| #[trigger] view_contains(nv[a], x) implies view_contains(views[a], x) || x
            == w by {
            crate::workspace::lemma_add_window_contains(views[a], w, x);
        }
        lemma_distinct_after_update(views, nv, a, w);
    }
    // Removing a window.
    lemma_removed_window_gone(v, w);
    let hs = holders(views, w);
    hs.index_of_first_ensures(true);
    match hs.index_of_first(true) {
        Some(k) => {
            let nv = sv_remove_window(v, w).workspaces;
            assert(view_distinct(views[k]));
            crate::workspace::lemma_remove_window_forgets(views[k], w, w);
            assert forall|x: WindowId| #[trigger] view_contains(nv[k], x) implies view_contains(views[k], x) || x
                == w by {
                crate::workspace::lemma_remove_window_forgets(views[k], w, x);
            }
            assert forall|j: int| 0 <= j < views.len() && j != k implies !view_contains(#[trigger] views[j], w) by {
                assert(view_contains(views[k], w));
            }
            lemma_distinct_after_update(views, nv, k, w);
        },
        None => {},
    }
    // Promoting a window.
    let t = sun_target(v, w);
    assert(0 <= t < views.len());
    let sv = sv_set_sun(v, w).workspaces;
    assert(view_distinct(views[t]));
    crate::workspace::lemma_set_sun_distinct(views[t], w);
    crate::workspace::lemma_set_sun_keeps_windows(views[t], w, w);
    assert forall|x: WindowId| #[trigger] view_contains(sv[t], x) implies view_contains(views[t], x) || x == w by {
        crate::workspace::lemma_set_sun_keeps_windows(views[t], w, x);
    }
    assert forall|j: int| 0 <= j < views.len() && j != t implies !view_contains(#[trigger] views[j], w) by {
        match hs.index_of_first(true) {
            Some(k) => {
                assert(hs[k]);
                assert(view_contains(views[k], w));
            },
            None => {
                if view_contains(views[j], w) {
                    assert(hs[j]);
                }
            },
        }
    }
    lemma_distinct_after_update(views, sv, t, w);
    // Confirming the highlighted planet.
    match v.hovered_planet {
        Some(i) => if i < views[a].planets.len() {
            let cv = sv_confirm(v).workspaces;
            let s = views[a].sun.unwrap();
            crate::workspace::lemma_promote_planet_keeps(views[a], i as int, s);
            assert forall|x: WindowId| #[trigger] view_contains(cv[a], x) implies view_contains(views[a], x)
                || x == s by {
                crate::workspace::lemma_promote_planet_keeps(views[a], i as int, x);
            }
            assert(view_contains(views[a], s));
            lemma_distinct_after_update(views, cv, a, s);
        },
        None => {},
    }
    // Appending a workspace.
    let nw = sv_new_workspace(v).workspaces;
    assert(view_distinct(nw[views.len() as int]));
    assert forall|i: int| 0 <= i < nw.len() implies view_distinct(#[trigger] nw[i]) by {
        if i < views.len() {
            assert(nw[i] == views[i]);
        }
    }
    assert forall|i: int, j: int, x: WindowId|
        0 <= i < nw.len() && 0 <= j < nw.len() && i != j && view_contains(nw[i], x) implies !view_contains(
        nw[j],
        x,
    ) by {
        if i < views.len() && j < views.len() {
            assert(nw[i] == views[i]);
            assert(nw[j] == views[j]);
        }
    }
    // Setting a layout.
    let lv = sv_set_layout(v, mode).workspaces;
    assert forall|k: int| 0 <= k < lv.len() implies (#[trigger] lv[k]).sun == views[k].sun && lv[k].planets
        == views[k].planets by {}
    assert forall|i: int| 0 <= i < lv.len() implies view_distinct(#[trigger] lv[i]) by {
        assert(view_distinct(views[i]));
    }
    assert forall|i: int, j: int, x: WindowId|
        0 <= i < lv.len() && 0 <= j < lv.len() && i != j && view_contains(lv[i], x) implies !view_contains(
        lv[j],
        x,
    ) by {
        assert(lv[i].sun == views[i].sun && lv[i].planets == views[i].planets);
        assert(lv[j].sun == views[j].sun && lv[j].planets == views[j].planets);
        assert(view_contains(views[i], x));
        if view_contains(lv[j], x) {
            assert(view_contains(views[j], x));
        }
    }
}

/// Moving between workspaces, opening and closing the overlay and moving
/// the highlight leave every workspace as it was.
pub proof fn lemma_navigation_keeps_workspaces(v: SwitcherView, idx: usize, i: usize)
    ensures
        sv_switch(v, idx).workspaces == v.workspaces,
        sv_next(v).workspaces == v.workspaces,
        sv_prev(v).workspaces == v.workspaces,
        sv_open(v).workspaces == v.workspaces,
        sv_close(v).workspaces == v.workspaces,
        sv_highlight_next(v).workspaces == v.workspaces,
        sv_highlight_prev(v).workspaces == v.workspaces,
        sv_pick_planet(v, i).workspaces == v.workspaces,
        sv_enter_galaxy(v).workspaces == v.workspaces,
        sv_exit_galaxy(v).workspaces == v.workspaces,
        sv_highlight_next_ws(v).workspaces == v.workspaces,
        sv_highlight_prev_ws(v).workspaces == v.workspaces,
        sv_confirm_ws(v).workspaces == v.workspaces,
{
}

/// Promoting a window through the switcher makes it the sun of the active
/// workspace — its own workspace when one held it — and loses no window of
/// any workspace.
pub proof fn lemma_set_sun_focuses(v: SwitcherView, w: WindowId, x: WindowId)
    requires
        v.active < v.workspaces.len() <= usize::MAX,
        windows_distinct(v.workspaces),
    ensures
        sv_active(sv_set_sun(v, w)).sun == Some(w),
        sv_set_sun(v, w).workspaces.len() == v.workspaces.len(),
        forall|i: int|
            0 <= i < v.workspaces.len() ==> view_contains(#[trigger] sv_set_sun(v, w).workspaces[i], x) == (
            view_contains(v.workspaces[i], x) || (i == sun_target(v, w) && x == w)),
{
    let a = sun_target(v, w);
    holders(v.workspaces, w).index_of_first_ensures(true);
    assert(0 <= a < v.workspaces.len());
    assert(view_distinct(v.workspaces[a]));
    assert(sv_set_sun(v, w).active as int == a);
    crate::workspace::lemma_set_sun_keeps_windows(v.workspaces[a], w, x);
    crate::workspace::lemma_set_sun_keeps_windows(v.workspaces[a], w, w);
}

/// Closing the overlay right after opening it from work mode gives back the
/// work view the switcher was in.
pub proof fn lemma_close_after_open(v: SwitcherView)
    requires
        v.state == SwitcherState::Hidden,
        v.hovered_planet is None,
        v.camera == zoomed_to(ZoomLevel::Work, sv_active(v).world_pos),
    ensures
        sv_close(sv_open(v)) == v,
{
}

} // verus!
