use milkywm::layout::LayoutMode;
use milkywm::orbital::{CameraAim, CameraTarget, OrbitalSwitcher, SwitcherState, ZoomLevel, ZoomTarget};
use milkywm::workspace::WorldPos;

fn planets_of(sw: &OrbitalSwitcher) -> Vec<u64> {
    sw.planets().iter().map(|p| p.window).collect()
}

fn at(x: i128) -> CameraAim {
    CameraAim::Point(WorldPos { x, y: 0 })
}

#[test]
fn starts_with_one_workspace_in_work_mode() {
    let sw = OrbitalSwitcher::new();
    assert_eq!(sw.workspaces.len(), 1);
    assert_eq!(sw.active, 0);
    assert_eq!(sw.state, SwitcherState::Hidden);
    assert_eq!(sw.sun(), None);
    assert_eq!(
        sw.camera,
        CameraTarget { level: ZoomLevel::Work, aim: at(0), zoom: ZoomTarget::Level(ZoomLevel::Work) }
    );
}

#[test]
fn new_workspaces_stand_spacing_apart() {
    let mut sw = OrbitalSwitcher::new();
    assert_eq!(sw.new_workspace(), 1);
    assert_eq!(sw.new_workspace(), 2);
    assert_eq!(sw.workspaces[1].world_pos, WorldPos { x: 2800, y: 0 });
    assert_eq!(sw.workspaces[2].world_pos, WorldPos { x: 5600, y: 0 });
    assert_eq!(sw.workspaces[2].id, 2);
    assert_eq!(sw.active, 0);
}

#[test]
fn next_and_prev_wrap_around() {
    let mut sw = OrbitalSwitcher::new();
    sw.new_workspace();
    sw.new_workspace();
    sw.next_workspace();
    assert_eq!(sw.active, 1);
    assert_eq!(sw.camera.aim, at(2800));
    assert_eq!(sw.camera.zoom, ZoomTarget::Level(ZoomLevel::Work));
    sw.prev_workspace();
    assert_eq!(sw.active, 0);
    sw.prev_workspace();
    assert_eq!(sw.active, 2);
    sw.next_workspace();
    assert_eq!(sw.active, 0);
}

#[test]
fn switch_out_of_range_changes_nothing() {
    let mut sw = OrbitalSwitcher::new();
    sw.open();
    sw.switch_workspace(4);
    assert_eq!(sw.state, SwitcherState::Visible);
    assert_eq!(sw.active, 0);
}

#[test]
fn windows_go_to_active_workspace_and_leave_from_their_own() {
    let mut sw = OrbitalSwitcher::new();
    sw.add_window(1);
    sw.new_workspace();
    sw.switch_workspace(1);
    sw.add_window(2);
    assert_eq!(sw.workspace_of(1), Some(0));
    assert_eq!(sw.workspace_of(2), Some(1));
    assert_eq!(sw.workspace_of(3), None);
    sw.remove_window(1);
    assert_eq!(sw.workspace_of(1), None);
    assert!(sw.workspaces[0].is_empty());
    assert_eq!(sw.sun(), Some(2));
}

#[test]
fn set_sun_flies_to_owning_workspace() {
    let mut sw = OrbitalSwitcher::new();
    sw.add_window(1);
    sw.add_window(2);
    sw.new_workspace();
    sw.switch_workspace(1);
    sw.add_window(3);
    sw.set_sun(2);
    assert_eq!(sw.active, 0);
    assert_eq!(sw.sun(), Some(2));
    assert_eq!(planets_of(&sw), vec![1]);
    assert_eq!(
        sw.camera,
        CameraTarget { level: ZoomLevel::Work, aim: at(0), zoom: ZoomTarget::Level(ZoomLevel::Work) }
    );
    sw.set_sun(9);
    assert_eq!(sw.active, 0);
    assert_eq!(sw.sun(), Some(9));
    assert_eq!(planets_of(&sw), vec![1, 2]);
}

#[test]
fn open_highlights_first_planet_and_close_returns() {
    let mut sw = OrbitalSwitcher::new();
    sw.add_window(1);
    sw.add_window(2);
    let before = sw.camera;
    sw.open();
    assert_eq!(sw.state, SwitcherState::Visible);
    assert_eq!(sw.hovered_planet, Some(0));
    assert_eq!(sw.camera.level, ZoomLevel::System);
    assert_eq!(sw.camera.zoom, ZoomTarget::Level(ZoomLevel::System));
    sw.close();
    assert_eq!(sw.state, SwitcherState::Hidden);
    assert_eq!(sw.hovered_planet, None);
    assert_eq!(sw.camera, before);
}

#[test]
fn open_without_planets_highlights_nothing() {
    let mut sw = OrbitalSwitcher::new();
    sw.add_window(1);
    sw.open();
    assert_eq!(sw.hovered_planet, None);
}

#[test]
fn highlight_cycles_and_confirm_promotes() {
    let mut sw = OrbitalSwitcher::new();
    for w in [1, 2, 3, 4] {
        sw.add_window(w);
    }
    sw.open();
    sw.highlight_next();
    sw.highlight_next();
    assert_eq!(sw.hovered_planet, Some(2));
    sw.highlight_next();
    assert_eq!(sw.hovered_planet, Some(0));
    sw.highlight_prev();
    assert_eq!(sw.hovered_planet, Some(2));
    sw.highlight_prev();
    sw.highlight_next();
    assert_eq!(sw.hovered_planet, Some(2));
    sw.confirm_selection();
    assert_eq!(sw.sun(), Some(4));
    assert_eq!(planets_of(&sw), vec![2, 3, 1]);
    assert_eq!(sw.state, SwitcherState::Hidden);
    assert_eq!(sw.hovered_planet, None);
}

#[test]
fn confirm_with_stale_highlight_only_closes() {
    let mut sw = OrbitalSwitcher::new();
    sw.add_window(1);
    sw.add_window(2);
    sw.open();
    sw.pick_planet(5);
    sw.confirm_selection();
    assert_eq!(sw.sun(), Some(1));
    assert_eq!(planets_of(&sw), vec![2]);
    assert_eq!(sw.state, SwitcherState::Hidden);
}

#[test]
fn galaxy_view_highlights_and_flies() {
    let mut sw = OrbitalSwitcher::new();
    sw.new_workspace();
    sw.new_workspace();
    sw.enter_galaxy();
    assert_eq!(sw.state, SwitcherState::Galaxy);
    assert_eq!(sw.hovered_ws, Some(0));
    assert_eq!(sw.camera.aim, CameraAim::Centroid);
    assert_eq!(sw.camera.zoom, ZoomTarget::FitAll);
    sw.highlight_prev_ws();
    assert_eq!(sw.hovered_ws, Some(2));
    sw.highlight_next_ws();
    assert_eq!(sw.hovered_ws, Some(0));
    sw.highlight_next_ws();
    sw.confirm_ws_selection();
    assert_eq!(sw.active, 1);
    assert_eq!(sw.state, SwitcherState::Hidden);
    assert_eq!(sw.hovered_ws, None);
    assert_eq!(sw.camera.aim, at(2800));
}

#[test]
fn exit_galaxy_flies_back_to_active() {
    let mut sw = OrbitalSwitcher::new();
    sw.new_workspace();
    sw.switch_workspace(1);
    sw.enter_galaxy();
    sw.hovered_ws = None;
    sw.confirm_ws_selection();
    assert_eq!(sw.state, SwitcherState::Hidden);
    assert_eq!(sw.active, 1);
    assert_eq!(sw.camera.aim, at(2800));
}

#[test]
fn set_layout_changes_active_workspace_only() {
    let mut sw = OrbitalSwitcher::new();
    sw.new_workspace();
    sw.set_layout(LayoutMode::VertSplit);
    assert_eq!(sw.workspaces[0].layout, LayoutMode::VertSplit);
    assert_eq!(sw.workspaces[1].layout, LayoutMode::Monocle);
    assert_eq!(sw.active_ws().layout, LayoutMode::VertSplit);
    sw.active_ws_mut().layout = LayoutMode::HorizSplit;
    assert_eq!(sw.workspaces[0].layout, LayoutMode::HorizSplit);
}

fn holders_of(sw: &OrbitalSwitcher, w: u64) -> usize {
    sw.workspaces.iter().filter(|ws| ws.contains(w)).count()
}

#[test]
fn windows_stay_in_one_workspace() {
    let mut sw = OrbitalSwitcher::new();
    sw.add_window(1);
    sw.add_window(2);
    sw.new_workspace();
    sw.switch_workspace(1);
    sw.add_window(3);
    sw.add_window(4);
    sw.set_sun(2);
    assert_eq!(sw.active, 0);
    sw.set_sun(5);
    sw.open();
    sw.highlight_next();
    sw.confirm_selection();
    sw.remove_window(3);
    sw.set_layout(LayoutMode::VertSplit);
    for w in [1, 2, 4, 5] {
        assert_eq!(holders_of(&sw, w), 1, "window {w}");
    }
    assert_eq!(holders_of(&sw, 3), 0);
    for ws in &sw.workspaces {
        assert!(ws.sun.is_some() || ws.planets.is_empty());
    }
}

#[test]
fn navigation_leaves_workspaces_alone() {
    let mut sw = OrbitalSwitcher::new();
    sw.add_window(1);
    sw.add_window(2);
    sw.new_workspace();
    let before: Vec<(Option<u64>, Vec<u64>)> =
        sw.workspaces.iter().map(|ws| (ws.sun, ws.planets.iter().map(|p| p.window).collect())).collect();
    sw.next_workspace();
    sw.prev_workspace();
    sw.open();
    sw.highlight_next();
    sw.highlight_prev();
    sw.close();
    sw.enter_galaxy();
    sw.highlight_next_ws();
    sw.confirm_ws_selection();
    let after: Vec<(Option<u64>, Vec<u64>)> =
        sw.workspaces.iter().map(|ws| (ws.sun, ws.planets.iter().map(|p| p.window).collect())).collect();
    assert_eq!(before, after);
    assert_eq!(sw.active, 1);
}

#[test]
fn removing_a_new_window_undoes_adding_it() {
    let mut sw = OrbitalSwitcher::new();
    sw.add_window(1);
    sw.add_window(2);
    let before: Vec<u64> = planets_of(&sw);
    sw.add_window(9);
    assert_eq!(planets_of(&sw), vec![2, 9]);
    sw.remove_window(9);
    assert_eq!(planets_of(&sw), before);
    assert_eq!(sw.sun(), Some(1));
    let mut empty = OrbitalSwitcher::new();
    empty.add_window(5);
    empty.remove_window(5);
    assert_eq!(empty.sun(), None);
    assert!(empty.planets().is_empty());
}

#[test]
fn thumbnails_follow_the_open_overlay() {
    let mut sw = OrbitalSwitcher::new();
    for w in [1, 2, 3] {
        sw.add_window(w);
    }
    assert_eq!(sw.thumbnail_windows(), None);
    sw.open();
    assert_eq!(sw.thumbnail_windows(), Some(vec![2, 3]));
    sw.enter_galaxy();
    assert_eq!(sw.thumbnail_windows(), Some(vec![2, 3]));
    sw.exit_galaxy();
    assert_eq!(sw.thumbnail_windows(), None);
}
