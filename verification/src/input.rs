//! Keyboard and pointer decisions: what a key or a click does to the
//! orbital switcher, and which effects the compositor must carry out.
use vstd::prelude::*;
use crate::keysyms::{
    KEY_Alt_L, KEY_Alt_R, KEY_G, KEY_H, KEY_Left, KEY_M, KEY_N, KEY_Q, KEY_Return, KEY_Right,
    KEY_Super_L, KEY_Super_R, KEY_T, KEY_Tab, KEY_V, KEY_bracketleft, KEY_bracketright, KEY_g,
    KEY_h, KEY_m, KEY_n, KEY_q, KEY_t, KEY_v,
};
use crate::layout::LayoutMode;
use crate::orbit::WindowId;
use crate::orbital::{
    OrbitalSwitcher, SwitcherState, SwitcherView, sv_close, sv_confirm, sv_confirm_ws,
    sv_enter_galaxy, sv_exit_galaxy, sv_highlight_next, sv_highlight_next_ws, sv_new_workspace,
    sv_next, sv_open, sv_pick_planet, sv_prev, sv_set_layout, sv_set_sun, sv_switch,
};

verus! {

/// The modifier keys held during a key event.
#[derive(Debug, Clone, Copy, PartialEq, Eq, Structural)]
pub struct Modifiers {
    pub alt: bool,
    pub logo: bool,
}

/// What the compositor must do after a key event.
#[derive(Debug, Clone, Copy, PartialEq, Eq, Structural)]
pub struct KeyOutcome {
    /// The key is consumed and not forwarded to the focused client.
    pub intercept: bool,
    /// Launch a terminal.
    pub launch_terminal: bool,
    /// Stop the compositor.
    pub quit: bool,
    /// Re-tile the active workspace.
    pub re_tile: bool,
    /// Give keyboard focus to the active workspace's sun.
    pub focus_sun: bool,
}

/// What a key means to the compositor.
#[derive(Debug, Clone, Copy, PartialEq, Eq, Structural)]
pub enum Shortcut {
    Terminal,
    Quit,
    Toggle,
    Navigate,
    Confirm,
    Galaxy,
    NewWorkspace,
    NextWorkspace,
    PrevWorkspace,
    Layout(LayoutMode),
    Pass,
}

/// A key that is either of two keysyms.
pub open spec fn either(k: u32, a: u32, b: u32) -> bool {
    k == a || k == b
}

/// The modifier of the shortcuts: Alt when nested in another compositor
/// (which keeps Super for itself), Super otherwise.
pub open spec fn mod_held(mods: Modifiers, nested: bool) -> bool {
    if nested {
        mods.alt
    } else {
        mods.logo
    }
}

/// The key that toggles the overlay: Alt nested, Super otherwise.
pub open spec fn is_toggle_key(keysym: u32, nested: bool) -> bool {
    if nested {
        either(keysym, KEY_Alt_L, KEY_Alt_R)
    } else {
        either(keysym, KEY_Super_L, KEY_Super_R)
    }
}

/// The shortcut table, read top to bottom: the first line whose key and
/// condition match decides.
pub open spec fn spec_classify(
    keysym: u32,
    pressed: bool,
    modk: bool,
    toggle: bool,
    state: SwitcherState,
) -> Shortcut {
    let chord = pressed && modk;
    if either(keysym, KEY_t, KEY_T) && chord {
        Shortcut::Terminal
    } else if either(keysym, KEY_q, KEY_Q) && chord {
        Shortcut::Quit
    } else if toggle {
        Shortcut::Toggle
    } else if keysym == KEY_Tab && pressed && state != SwitcherState::Hidden {
        Shortcut::Navigate
    } else if keysym == KEY_Return && pressed && state != SwitcherState::Hidden {
        Shortcut::Confirm
    } else if either(keysym, KEY_g, KEY_G) && chord {
        Shortcut::Galaxy
    } else if either(keysym, KEY_n, KEY_N) && chord {
        Shortcut::NewWorkspace
    } else if either(keysym, KEY_bracketright, KEY_Right) && chord {
        Shortcut::NextWorkspace
    } else if either(keysym, KEY_bracketleft, KEY_Left) && chord {
        Shortcut::PrevWorkspace
    } else if either(keysym, KEY_h, KEY_H) && chord {
        Shortcut::Layout(LayoutMode::HorizSplit)
    } else if either(keysym, KEY_v, KEY_V) && chord {
        Shortcut::Layout(LayoutMode::VertSplit)
    } else if either(keysym, KEY_m, KEY_M) && chord {
        Shortcut::Layout(LayoutMode::Monocle)
    } else {
        Shortcut::Pass
    }
}

/// An outcome with only the given flags set.
pub open spec fn outcome(intercept: bool, re_tile: bool, focus_sun: bool) -> KeyOutcome {
    KeyOutcome { intercept, launch_terminal: false, quit: false, re_tile, focus_sun }
}

/// The toggle key: pressing it opens the hidden overlay, releasing it closes
/// the visible overlay.
pub open spec fn toggle_effect(v: SwitcherView, pressed: bool) -> SwitcherView {
    if pressed {
        if v.state == SwitcherState::Hidden {
            sv_open(v)
        } else {
            v
        }
    } else if v.state == SwitcherState::Visible {
        sv_close(v)
    } else {
        v
    }
}

/// What a shortcut does to the switcher and what it asks of the compositor.
pub open spec fn shortcut_effect(v: SwitcherView, sc: Shortcut, pressed: bool) -> (SwitcherView, KeyOutcome) {
    match sc {
        Shortcut::Terminal => (
            if v.state == SwitcherState::Visible {
                sv_close(v)
            } else {
                v
            },
            KeyOutcome { launch_terminal: true, ..outcome(true, false, false) },
        ),
        Shortcut::Quit => (v, KeyOutcome { quit: true, ..outcome(true, false, false) }),
        Shortcut::Toggle => (toggle_effect(v, pressed), outcome(false, false, false)),
        Shortcut::Navigate => (
            match v.state {
                SwitcherState::Visible => sv_highlight_next(v),
                SwitcherState::Galaxy => sv_highlight_next_ws(v),
                SwitcherState::Hidden => v,
            },
            outcome(true, false, false),
        ),
        Shortcut::Confirm => match v.state {
            SwitcherState::Visible => (sv_confirm(v), outcome(true, true, true)),
            SwitcherState::Galaxy => (sv_confirm_ws(v), outcome(true, true, true)),
            SwitcherState::Hidden => (v, outcome(true, false, false)),
        },
        Shortcut::Galaxy => (
            match v.state {
                SwitcherState::Galaxy => sv_exit_galaxy(v),
                _ => sv_enter_galaxy(v),
            },
            outcome(true, false, false),
        ),
        Shortcut::NewWorkspace => (sv_new_workspace(v), outcome(true, false, false)),
        Shortcut::NextWorkspace => (sv_next(v), outcome(true, true, false)),
        Shortcut::PrevWorkspace => (sv_prev(v), outcome(true, true, false)),
        Shortcut::Layout(m) => (sv_set_layout(v, m), outcome(true, true, false)),
        Shortcut::Pass => (v, outcome(false, false, false)),
    }
}

fn is_either(k: u32, a: u32, b: u32) -> (r: bool)
    ensures
        r == either(k, a, b),
{
    k == a || k == b
}

/// Classifies a key event by the shortcut table.
pub fn classify_shortcut(
    keysym: u32,
    pressed: bool,
    modk: bool,
    toggle: bool,
    state: SwitcherState,
) -> (sc: Shortcut)
    ensures
        sc == spec_classify(keysym, pressed, modk, toggle, state),
{
    let chord = pressed && modk;
    let open = !matches!(state, SwitcherState::Hidden);
    if is_either(keysym, KEY_t, KEY_T) && chord {
        Shortcut::Terminal
    } else if is_either(keysym, KEY_q, KEY_Q) && chord {
        Shortcut::Quit
    } else if toggle {
        Shortcut::Toggle
    } else if keysym == KEY_Tab && pressed && open {
        Shortcut::Navigate
    } else if keysym == KEY_Return && pressed && open {
        Shortcut::Confirm
    } else if is_either(keysym, KEY_g, KEY_G) && chord {
        Shortcut::Galaxy
    } else if is_either(keysym, KEY_n, KEY_N) && chord {
        Shortcut::NewWorkspace
    } else if is_either(keysym, KEY_bracketright, KEY_Right) && chord {
        Shortcut::NextWorkspace
    } else if is_either(keysym, KEY_bracketleft, KEY_Left) && chord {
        Shortcut::PrevWorkspace
    } else if is_either(keysym, KEY_h, KEY_H) && chord {
        Shortcut::Layout(LayoutMode::HorizSplit)
    } else if is_either(keysym, KEY_v, KEY_V) && chord {
        Shortcut::Layout(LayoutMode::VertSplit)
    } else if is_either(keysym, KEY_m, KEY_M) && chord {
        Shortcut::Layout(LayoutMode::Monocle)
    } else {
        Shortcut::Pass
    }
}

fn no_effect(intercept: bool, re_tile: bool, focus_sun: bool) -> (o: KeyOutcome)
    ensures
        o == outcome(intercept, re_tile, focus_sun),
{
    KeyOutcome { intercept, launch_terminal: false, quit: false, re_tile, focus_sun }
}

/// Handle a keyboard shortcut: update the switcher and say whether the key
/// is intercepted and which effects (terminal, quit, re-tile, focus) follow.
///
/// Nested in another compositor the modifier and the toggle key are Alt;
/// on a TTY they are Super.
pub fn handle_shortcut(
    sw: &mut OrbitalSwitcher,
    keysym: u32,
    pressed: bool,
    mods: Modifiers,
    nested: bool,
) -> (out: KeyOutcome)
    requires
        old(sw).wf(),
    ensures
        final(sw).wf(),
        (final(sw)@, out) == shortcut_effect(
            old(sw)@,
            spec_classify(keysym, pressed, mod_held(mods, nested), is_toggle_key(keysym, nested), old(sw).state),
            pressed,
        ),
{
    let modk = if nested {
        mods.alt
    } else {
        mods.logo
    };
    let toggle = if nested {
        is_either(keysym, KEY_Alt_L, KEY_Alt_R)
    } else {
        is_either(keysym, KEY_Super_L, KEY_Super_R)
    };
    let sc = classify_shortcut(keysym, pressed, modk, toggle, sw.state);
    match sc {
        Shortcut::Terminal => {
            if matches!(sw.state, SwitcherState::Visible) {
                sw.close();
            }
            KeyOutcome { intercept: true, launch_terminal: true, quit: false, re_tile: false, focus_sun: false }
        },
        Shortcut::Quit => {
            KeyOutcome { intercept: true, launch_terminal: false, quit: true, re_tile: false, focus_sun: false }
        },
        Shortcut::Toggle => {
            if pressed {
                if matches!(sw.state, SwitcherState::Hidden) {
                    sw.open();
                }
            } else if matches!(sw.state, SwitcherState::Visible) {
                sw.close();
            }
            no_effect(false, false, false)
        },
        Shortcut::Navigate => {
            match sw.state {
                SwitcherState::Visible => sw.highlight_next(),
                SwitcherState::Galaxy => sw.highlight_next_ws(),
                SwitcherState::Hidden => {},
            }
            no_effect(true, false, false)
        },
        Shortcut::Confirm => {
            match sw.state {
                SwitcherState::Visible => {
                    sw.confirm_selection();
                    no_effect(true, true, true)
                },
                SwitcherState::Galaxy => {
                    sw.confirm_ws_selection();
                    no_effect(true, true, true)
                },
                SwitcherState::Hidden => no_effect(true, false, false),
            }
        },
        Shortcut::Galaxy => {
            match sw.state {
                SwitcherState::Galaxy => sw.exit_galaxy(),
                _ => sw.enter_galaxy(),
            }
            no_effect(true, false, false)
        },
        Shortcut::NewWorkspace => {
            sw.new_workspace();
            no_effect(true, false, false)
        },
        Shortcut::NextWorkspace => {
            sw.next_workspace();
            no_effect(true, true, false)
        },
        Shortcut::PrevWorkspace => {
            sw.prev_workspace();
            no_effect(true, true, false)
        },
        Shortcut::Layout(m) => {
            sw.set_layout(m);
            no_effect(true, true, false)
        },
        Shortcut::Pass => no_effect(false, false, false),
    }
}

/// Without the modifier, a key is forwarded to the client unless it is Tab
/// or Return while the overlay is open; and no key but Mod+T launches a
/// terminal, no key but Mod+Q quits.
pub proof fn lemma_plain_keys_forwarded(
    v: SwitcherView,
    keysym: u32,
    pressed: bool,
    mods: Modifiers,
    nested: bool,
)
    ensures
        ({
            let sc = spec_classify(
                keysym,
                pressed,
                mod_held(mods, nested),
                is_toggle_key(keysym, nested),
                v.state,
            );
            let out = shortcut_effect(v, sc, pressed).1;
            &&& !mod_held(mods, nested) && !(pressed && v.state != SwitcherState::Hidden && (keysym
                == KEY_Tab || keysym == KEY_Return)) ==> !out.intercept
            &&& out.launch_terminal ==> either(keysym, KEY_t, KEY_T) && pressed && mod_held(mods, nested)
            &&& out.quit ==> either(keysym, KEY_q, KEY_Q) && pressed && mod_held(mods, nested)
        }),
{
}

/// What the compositor must do after a pointer button event.
#[derive(Debug, Clone, Copy, PartialEq, Eq, Structural)]
pub struct PointerOutcome {
    /// Re-tile the active workspace.
    pub re_tile: bool,
    /// Give keyboard focus to the active workspace's sun.
    pub focus_sun: bool,
    /// Give keyboard focus to this window.
    pub focus_window: Option<WindowId>,
}

/// A pointer outcome with the given flags.
pub open spec fn pointer_outcome(re_tile: bool, focus_sun: bool, focus_window: Option<WindowId>) -> PointerOutcome {
    PointerOutcome { re_tile, focus_sun, focus_window }
}

/// What a button event does, given what lies under the pointer: the planet
/// picked in System view, the workspace picked in Galaxy view, and the
/// window under the cursor in Work mode. A release does nothing.
pub open spec fn pointer_effect(
    v: SwitcherView,
    pressed: bool,
    planet_hit: Option<usize>,
    ws_hit: Option<usize>,
    window_under: Option<WindowId>,
) -> (SwitcherView, PointerOutcome) {
    if !pressed {
        (v, pointer_outcome(false, false, None))
    } else {
        match v.state {
            SwitcherState::Visible => match planet_hit {
                Some(i) => (sv_confirm(sv_pick_planet(v, i)), pointer_outcome(true, true, None)),
                None => (v, pointer_outcome(false, false, None)),
            },
            SwitcherState::Galaxy => match ws_hit {
                Some(idx) => (sv_switch(v, idx), pointer_outcome(true, true, None)),
                None => (sv_exit_galaxy(v), pointer_outcome(false, false, None)),
            },
            SwitcherState::Hidden => match window_under {
                Some(w) => (sv_set_sun(v, w), pointer_outcome(true, false, Some(w))),
                None => (v, pointer_outcome(false, false, None)),
            },
        }
    }
}

/// Interpret a pointer button against the switcher: pick a planet or a
/// workspace while the overlay is open, focus the clicked window otherwise.
pub fn pointer_button(
    sw: &mut OrbitalSwitcher,
    pressed: bool,
    planet_hit: Option<usize>,
    ws_hit: Option<usize>,
    window_under: Option<WindowId>,
) -> (out: PointerOutcome)
    requires
        old(sw).wf(),
        planet_hit matches Some(i) ==> i < usize::MAX,
    ensures
        final(sw).wf(),
        (final(sw)@, out) == pointer_effect(old(sw)@, pressed, planet_hit, ws_hit, window_under),
{
    let none = PointerOutcome { re_tile: false, focus_sun: false, focus_window: None };
    if !pressed {
        return none;
    }
    match sw.state {
        SwitcherState::Visible => match planet_hit {
            Some(i) => {
                sw.pick_planet(i);
                sw.confirm_selection();
                PointerOutcome { re_tile: true, focus_sun: true, focus_window: None }
            },
            None => none,
        },
        SwitcherState::Galaxy => match ws_hit {
            Some(idx) => {
                sw.switch_workspace(idx);
                PointerOutcome { re_tile: true, focus_sun: true, focus_window: None }
            },
            None => {
                sw.exit_galaxy();
                none
            },
        },
        SwitcherState::Hidden => match window_under {
            Some(w) => {
                sw.set_sun(w);
                PointerOutcome { re_tile: true, focus_sun: false, focus_window: Some(w) }
            },
            None => none,
        },
    }
}

/// With the modifier held, `]` or Right switches to the next workspace and
/// `[` or Left to the previous one, wrapping around at either end: the key
/// is consumed, the workspace re-tiled, the overlay closed, and no workspace
/// changes.
pub proof fn lemma_bracket_keys_step_workspaces(v: SwitcherView, keysym: u32, mods: Modifiers, nested: bool)
    requires
        v.active < v.workspaces.len() <= usize::MAX,
        mod_held(mods, nested),
        keysym == KEY_bracketright || keysym == KEY_Right || keysym == KEY_bracketleft || keysym == KEY_Left,
    ensures
        forall|s: SwitcherState|
            spec_classify(KEY_bracketright, true, true, false, s) == Shortcut::NextWorkspace
                && spec_classify(KEY_Right, true, true, false, s) == Shortcut::NextWorkspace
                && spec_classify(KEY_bracketleft, true, true, false, s) == Shortcut::PrevWorkspace
                && spec_classify(KEY_Left, true, true, false, s) == Shortcut::PrevWorkspace,
        ({
            let n = v.workspaces.len() as int;
            let (after, out) = shortcut_effect(
                v,
                spec_classify(keysym, true, mod_held(mods, nested), is_toggle_key(keysym, nested), v.state),
                true,
            );
            &&& after.workspaces == v.workspaces
            &&& after.state == SwitcherState::Hidden
            &&& out.intercept && out.re_tile && !out.quit && !out.launch_terminal && !out.focus_sun
            &&& (keysym == KEY_bracketright || keysym == KEY_Right) ==> after.active == (v.active + 1) % n
            &&& (keysym == KEY_bracketleft || keysym == KEY_Left) ==> after.active == if v.active == 0 {
                n - 1
            } else {
                v.active - 1
            }
        }),
{
    let n = v.workspaces.len() as int;
    vstd::arithmetic::div_mod::lemma_mod_pos_bound(v.active + 1, n);
}

/// With the modifier held, the letter shortcuts do what they are named for,
/// in either case of the letter: T launches a terminal and Q quits (both
/// leave the workspaces alone); H, V and M give the active workspace the
/// horizontal split, the vertical split and monocle layout and re-tile; N
/// appends a workspace and stays on the active one; G enters Galaxy view, or
/// leaves it when already there. Every one of these keys is consumed.
pub proof fn lemma_mod_letter_keys(v: SwitcherView, keysym: u32, mods: Modifiers, nested: bool)
    requires
        v.active < v.workspaces.len(),
        mod_held(mods, nested),
    ensures
        ({
            let (after, out) = shortcut_effect(
                v,
                spec_classify(keysym, true, mod_held(mods, nested), is_toggle_key(keysym, nested), v.state),
                true,
            );
            let a = v.active as int;
            &&& (keysym == KEY_t || keysym == KEY_T) ==> out.launch_terminal && out.intercept && !out.quit
                && after.workspaces == v.workspaces
            &&& (keysym == KEY_q || keysym == KEY_Q) ==> out.quit && out.intercept && !out.launch_terminal
                && after == v
            &&& (keysym == KEY_h || keysym == KEY_H) ==> after.workspaces[a].layout == LayoutMode::HorizSplit
                && out.re_tile && out.intercept
            &&& (keysym == KEY_v || keysym == KEY_V) ==> after.workspaces[a].layout == LayoutMode::VertSplit
                && out.re_tile && out.intercept
            &&& (keysym == KEY_m || keysym == KEY_M) ==> after.workspaces[a].layout == LayoutMode::Monocle
                && out.re_tile && out.intercept
            &&& (keysym == KEY_n || keysym == KEY_N) ==> after.workspaces.len() == v.workspaces.len() + 1
                && after.active == v.active && out.intercept && !out.launch_terminal && !out.quit
            &&& (keysym == KEY_g || keysym == KEY_G) ==> after.state == (if v.state == SwitcherState::Galaxy {
                SwitcherState::Hidden
            } else {
                SwitcherState::Galaxy
            }) && out.intercept
        }),
{
}

} // verus!
