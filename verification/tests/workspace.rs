use milkywm::layout::{LayoutMode, Rect};
use milkywm::orbit::{assign_orbits, Planet};
use milkywm::workspace::{Workspace, WorldPos};

fn planet_windows(ws: &Workspace) -> Vec<u64> {
    ws.planets.iter().map(|p| p.window).collect()
}

fn origin_ws() -> Workspace {
    Workspace::new(0, WorldPos { x: 0, y: 0 })
}

#[test]
fn new_workspace_is_empty() {
    let ws = Workspace::new(3, WorldPos { x: 8400, y: 0 });
    assert_eq!(ws.id, 3);
    assert_eq!(ws.world_pos, WorldPos { x: 8400, y: 0 });
    assert!(ws.is_empty());
    assert_eq!(ws.window_count(), 0);
    assert_eq!(ws.layout, LayoutMode::Monocle);
    assert!(ws.label.is_none());
}

#[test]
fn first_window_becomes_sun_others_planets() {
    let mut ws = origin_ws();
    ws.add_window(10);
    assert_eq!(ws.sun, Some(10));
    assert!(ws.planets.is_empty());
    ws.add_window(11);
    ws.add_window(12);
    assert_eq!(ws.sun, Some(10));
    assert_eq!(planet_windows(&ws), vec![11, 12]);
    assert_eq!(ws.window_count(), 3);
    assert!(!ws.is_empty());
    assert!(ws.contains(12));
    assert!(!ws.contains(13));
}

#[test]
fn removing_sun_promotes_first_planet() {
    let mut ws = origin_ws();
    for w in [1, 2, 3] {
        ws.add_window(w);
    }
    assert!(ws.remove_window(1));
    assert_eq!(ws.sun, Some(2));
    assert_eq!(planet_windows(&ws), vec![3]);
    assert_eq!(ws.planets[0].orbit_index, 0);
    assert_eq!(ws.planets[0].slot, 0);
    assert_eq!(ws.planets[0].ring_size, 1);
}

#[test]
fn removing_planet_and_absent_window() {
    let mut ws = origin_ws();
    for w in [1, 2, 3, 4] {
        ws.add_window(w);
    }
    assert!(ws.remove_window(3));
    assert_eq!(planet_windows(&ws), vec![2, 4]);
    assert!(!ws.remove_window(99));
    assert_eq!(planet_windows(&ws), vec![2, 4]);
    assert_eq!(ws.sun, Some(1));
}

#[test]
fn removing_last_window_empties_workspace() {
    let mut ws = origin_ws();
    ws.add_window(5);
    assert!(ws.remove_window(5));
    assert!(ws.is_empty());
}

#[test]
fn remove_undoes_add() {
    let mut ws = origin_ws();
    for w in [1, 2, 3] {
        ws.add_window(w);
    }
    let before = planet_windows(&ws);
    ws.add_window(9);
    ws.remove_window(9);
    assert_eq!(planet_windows(&ws), before);
    assert_eq!(ws.sun, Some(1));
}

#[test]
fn set_sun_demotes_old_sun_to_outer_planet() {
    let mut ws = origin_ws();
    for w in [1, 2, 3] {
        ws.add_window(w);
    }
    ws.set_sun(2);
    assert_eq!(ws.sun, Some(2));
    assert_eq!(planet_windows(&ws), vec![3, 1]);
    ws.set_sun(2);
    assert_eq!(planet_windows(&ws), vec![3, 1]);
    ws.set_sun(7);
    assert_eq!(ws.sun, Some(7));
    assert_eq!(planet_windows(&ws), vec![3, 1, 2]);
}

#[test]
fn set_sun_on_empty_workspace() {
    let mut ws = origin_ws();
    ws.set_sun(4);
    assert_eq!(ws.sun, Some(4));
    assert!(ws.planets.is_empty());
}

#[test]
fn tile_rects_pairs_sun_first() {
    let mut ws = origin_ws();
    for w in [1, 2, 3] {
        ws.add_window(w);
    }
    let screen = Rect::new(0, 0, 900, 600);
    assert_eq!(ws.tile_rects(screen), vec![(1, screen)]);
    ws.layout = LayoutMode::HorizSplit;
    assert_eq!(
        ws.tile_rects(screen),
        vec![(1, Rect::new(0, 0, 300, 600)), (2, Rect::new(300, 0, 300, 600)), (3, Rect::new(600, 0, 300, 600))]
    );
    assert!(origin_ws().tile_rects(screen).is_empty());
}

#[test]
fn orbits_hold_seven_per_ring() {
    let mut planets: Vec<Planet> = (0..9u64).map(|w| Planet::new(w, 5)).collect();
    assign_orbits(&mut planets);
    for (i, p) in planets.iter().enumerate() {
        assert_eq!(p.window, i as u64);
        assert_eq!(p.orbit_index, i / 7);
        assert_eq!(p.slot, i % 7);
    }
    assert!(planets[..7].iter().all(|p| p.ring_size == 7));
    assert!(planets[7..].iter().all(|p| p.ring_size == 2));
}

#[test]
fn planet_new_sits_at_angle_zero() {
    let p = Planet::new(42, 3);
    assert_eq!(p, Planet { window: 42, orbit_index: 3, slot: 0, ring_size: 1 });
}

#[test]
fn tile_of_each_window() {
    let mut ws = origin_ws();
    ws.add_window(1);
    ws.add_window(2);
    ws.layout = LayoutMode::HorizSplit;
    let screen = Rect::new(0, 0, 1920, 1080);
    assert_eq!(ws.tile_of(screen, 1), Some(Rect::new(0, 0, 960, 1080)));
    assert_eq!(ws.tile_of(screen, 2), Some(Rect::new(960, 0, 960, 1080)));
    assert_eq!(ws.tile_of(screen, 3), None);
    // Monocle gives only the sun a tile.
    ws.layout = LayoutMode::Monocle;
    assert_eq!(ws.tile_of(screen, 1), Some(screen));
    assert_eq!(ws.tile_of(screen, 2), None);
}
