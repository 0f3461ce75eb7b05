use milkywm::input::{handle_shortcut, pointer_button, KeyOutcome, Modifiers, PointerOutcome};
use milkywm::keysyms::{
    KEY_Alt_L, KEY_G, KEY_Left, KEY_M, KEY_Q, KEY_Return, KEY_Right, KEY_Super_L, KEY_Tab, KEY_h, KEY_n, KEY_t, KEY_v,
};
use milkywm::layout::LayoutMode;
use milkywm::orbital::{OrbitalSwitcher, SwitcherState};

const SUPER: Modifiers = Modifiers { alt: false, logo: true };
const ALT: Modifiers = Modifiers { alt: true, logo: false };
const NONE: Modifiers = Modifiers { alt: false, logo: false };

fn outcome(intercept: bool, re_tile: bool, focus_sun: bool) -> KeyOutcome {
    KeyOutcome { intercept, launch_terminal: false, quit: false, re_tile, focus_sun }
}

#[test]
fn super_t_launches_terminal_and_closes_overlay() {
    let mut sw = OrbitalSwitcher::new();
    sw.open();
    let out = handle_shortcut(&mut sw, KEY_t, true, SUPER, false);
    assert_eq!(out, KeyOutcome { intercept: true, launch_terminal: true, quit: false, re_tile: false, focus_sun: false });
    assert_eq!(sw.state, SwitcherState::Hidden);
}

#[test]
fn super_q_quits() {
    let mut sw = OrbitalSwitcher::new();
    let out = handle_shortcut(&mut sw, KEY_Q, true, SUPER, false);
    assert!(out.quit && out.intercept);
}

#[test]
fn nested_uses_alt_as_modifier() {
    let mut sw = OrbitalSwitcher::new();
    let out = handle_shortcut(&mut sw, KEY_t, true, SUPER, true);
    assert_eq!(out, outcome(false, false, false));
    let out = handle_shortcut(&mut sw, KEY_t, true, ALT, true);
    assert!(out.launch_terminal);
}

#[test]
fn toggle_key_opens_and_closes_without_intercepting() {
    let mut sw = OrbitalSwitcher::new();
    let out = handle_shortcut(&mut sw, KEY_Super_L, true, NONE, false);
    assert_eq!(out, outcome(false, false, false));
    assert_eq!(sw.state, SwitcherState::Visible);
    handle_shortcut(&mut sw, KEY_Super_L, false, NONE, false);
    assert_eq!(sw.state, SwitcherState::Hidden);
    handle_shortcut(&mut sw, KEY_Alt_L, true, NONE, true);
    assert_eq!(sw.state, SwitcherState::Visible);
}

#[test]
fn tab_and_return_navigate_open_overlay() {
    let mut sw = OrbitalSwitcher::new();
    for w in [1, 2, 3] {
        sw.add_window(w);
    }
    assert_eq!(handle_shortcut(&mut sw, KEY_Tab, true, NONE, false), outcome(false, false, false));
    handle_shortcut(&mut sw, KEY_Super_L, true, NONE, false);
    assert_eq!(sw.hovered_planet, Some(0));
    assert_eq!(handle_shortcut(&mut sw, KEY_Tab, true, NONE, false), outcome(true, false, false));
    assert_eq!(sw.hovered_planet, Some(1));
    assert_eq!(handle_shortcut(&mut sw, KEY_Return, true, NONE, false), outcome(true, true, true));
    assert_eq!(sw.sun(), Some(3));
    assert_eq!(sw.state, SwitcherState::Hidden);
}

#[test]
fn workspace_and_layout_shortcuts() {
    let mut sw = OrbitalSwitcher::new();
    assert_eq!(handle_shortcut(&mut sw, KEY_n, true, SUPER, false), outcome(true, false, false));
    assert_eq!(sw.workspaces.len(), 2);
    assert_eq!(handle_shortcut(&mut sw, KEY_Right, true, SUPER, false), outcome(true, true, false));
    assert_eq!(sw.active, 1);
    assert_eq!(handle_shortcut(&mut sw, KEY_Left, true, SUPER, false), outcome(true, true, false));
    assert_eq!(sw.active, 0);
    assert_eq!(handle_shortcut(&mut sw, KEY_v, true, SUPER, false), outcome(true, true, false));
    assert_eq!(sw.active_ws().layout, LayoutMode::VertSplit);
    handle_shortcut(&mut sw, KEY_h, true, SUPER, false);
    assert_eq!(sw.active_ws().layout, LayoutMode::HorizSplit);
    handle_shortcut(&mut sw, KEY_M, true, SUPER, false);
    assert_eq!(sw.active_ws().layout, LayoutMode::Monocle);
    assert_eq!(handle_shortcut(&mut sw, KEY_G, true, SUPER, false), outcome(true, false, false));
    assert_eq!(sw.state, SwitcherState::Galaxy);
    handle_shortcut(&mut sw, KEY_G, true, SUPER, false);
    assert_eq!(sw.state, SwitcherState::Hidden);
}

#[test]
fn plain_letters_are_forwarded() {
    let mut sw = OrbitalSwitcher::new();
    for k in [KEY_t, KEY_Q, KEY_n, KEY_h, KEY_Right] {
        assert_eq!(handle_shortcut(&mut sw, k, true, NONE, false), outcome(false, false, false));
    }
    assert_eq!(handle_shortcut(&mut sw, KEY_t, false, SUPER, false), outcome(false, false, false));
    assert_eq!(sw.workspaces.len(), 1);
}

#[test]
fn bare_keys_are_forwarded_on_a_tty() {
    let mut sw = OrbitalSwitcher::new();
    assert_eq!(handle_shortcut(&mut sw, KEY_n, true, NONE, false), outcome(false, false, false));
    assert_eq!(sw.workspaces.len(), 1);
    let out = handle_shortcut(&mut sw, KEY_Q, true, NONE, false);
    assert!(!out.quit && !out.intercept);
    assert_eq!(handle_shortcut(&mut sw, KEY_n, true, SUPER, false), outcome(true, false, false));
    assert_eq!(sw.workspaces.len(), 2);
}

#[test]
fn clicks_in_each_view() {
    let mut sw = OrbitalSwitcher::new();
    for w in [1, 2, 3] {
        sw.add_window(w);
    }
    let none = PointerOutcome { re_tile: false, focus_sun: false, focus_window: None };
    assert_eq!(pointer_button(&mut sw, true, None, None, None), none);
    let out = pointer_button(&mut sw, true, None, None, Some(3));
    assert_eq!(out, PointerOutcome { re_tile: true, focus_sun: false, focus_window: Some(3) });
    assert_eq!(sw.sun(), Some(3));
    sw.open();
    assert_eq!(pointer_button(&mut sw, false, Some(1), None, None), none);
    let out = pointer_button(&mut sw, true, Some(1), None, None);
    assert_eq!(out, PointerOutcome { re_tile: true, focus_sun: true, focus_window: None });
    assert_eq!(sw.sun(), Some(1));
    sw.new_workspace();
    sw.enter_galaxy();
    let out = pointer_button(&mut sw, true, None, Some(1), None);
    assert!(out.re_tile && out.focus_sun);
    assert_eq!(sw.active, 1);
    sw.enter_galaxy();
    assert_eq!(pointer_button(&mut sw, true, None, None, None), none);
    assert_eq!(sw.state, SwitcherState::Hidden);
}

#[test]
fn click_on_nothing_keeps_the_overlay_open() {
    let mut sw = OrbitalSwitcher::new();
    for w in [1, 2] {
        sw.add_window(w);
    }
    sw.open();
    let none = PointerOutcome { re_tile: false, focus_sun: false, focus_window: None };
    assert_eq!(pointer_button(&mut sw, true, None, None, None), none);
    assert_eq!(sw.state, SwitcherState::Visible);
    assert_eq!(sw.sun(), Some(1));
}
