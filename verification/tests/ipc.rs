use milkywm::ipc::{execute, layout_name, IpcCommand, IpcEffects, IpcResponse, LayoutArg, StatusData};
use milkywm::layout::LayoutMode;
use milkywm::orbital::{OrbitalSwitcher, SwitcherState};

const NONE: IpcEffects = IpcEffects { re_tile: false, stop: false };
const TILE: IpcEffects = IpcEffects { re_tile: true, stop: false };

#[test]
fn response_constructors() {
    let r = IpcResponse::ok();
    assert!(r.ok && r.error.is_none() && r.status.is_none());
    let r = IpcResponse::err("boom".to_string());
    assert!(!r.ok);
    assert_eq!(r.error.as_deref(), Some("boom"));
    let r = IpcResponse::with_status(StatusData { workspaces: 2, active: 1, layout: "monocle".to_string() });
    assert!(r.ok);
    assert_eq!(r.status.unwrap().active, 1);
}

#[test]
fn layout_arg_maps_to_mode() {
    assert_eq!(LayoutMode::from(LayoutArg::Horiz), LayoutMode::HorizSplit);
    assert_eq!(LayoutMode::from(LayoutArg::Vert), LayoutMode::VertSplit);
    assert_eq!(LayoutMode::from(LayoutArg::Monocle), LayoutMode::Monocle);
    assert_eq!(layout_name(LayoutMode::HorizSplit), "horizsplit");
    assert_eq!(layout_name(LayoutMode::VertSplit), "vertsplit");
    assert_eq!(layout_name(LayoutMode::Monocle), "monocle");
}

#[test]
fn switch_out_of_range_is_refused() {
    let mut sw = OrbitalSwitcher::new();
    let (r, fx) = execute(IpcCommand::SwitchWorkspace { index: 3 }, &mut sw);
    assert!(!r.ok);
    assert_eq!(r.error.as_deref(), Some("workspace 3 out of range (1)"));
    assert_eq!(fx, NONE);
    assert_eq!(sw.active, 0);
}

#[test]
fn workspace_commands() {
    let mut sw = OrbitalSwitcher::new();
    let (r, fx) = execute(IpcCommand::NewWorkspace, &mut sw);
    assert!(r.ok);
    assert_eq!(fx, NONE);
    let (r, fx) = execute(IpcCommand::SwitchWorkspace { index: 1 }, &mut sw);
    assert!(r.ok);
    assert_eq!(fx, TILE);
    assert_eq!(sw.active, 1);
    assert_eq!(execute(IpcCommand::NextWorkspace, &mut sw).1, TILE);
    assert_eq!(sw.active, 0);
    assert_eq!(execute(IpcCommand::PrevWorkspace, &mut sw).1, TILE);
    assert_eq!(sw.active, 1);
    assert_eq!(execute(IpcCommand::SetLayout { layout: LayoutArg::Vert }, &mut sw).1, TILE);
    assert_eq!(sw.active_ws().layout, LayoutMode::VertSplit);
}

#[test]
fn status_reports_counts_and_layout() {
    let mut sw = OrbitalSwitcher::new();
    execute(IpcCommand::NewWorkspace, &mut sw);
    execute(IpcCommand::SetLayout { layout: LayoutArg::Horiz }, &mut sw);
    let (r, fx) = execute(IpcCommand::Status, &mut sw);
    assert_eq!(fx, NONE);
    let st = r.status.unwrap();
    assert_eq!(st.workspaces, 2);
    assert_eq!(st.active, 0);
    assert_eq!(st.layout, "horizsplit");
}

#[test]
fn toggle_galaxy_and_exit_commands() {
    let mut sw = OrbitalSwitcher::new();
    execute(IpcCommand::ToggleSwitcher, &mut sw);
    assert_eq!(sw.state, SwitcherState::Visible);
    execute(IpcCommand::ToggleSwitcher, &mut sw);
    assert_eq!(sw.state, SwitcherState::Hidden);
    execute(IpcCommand::EnterGalaxy, &mut sw);
    assert_eq!(sw.state, SwitcherState::Galaxy);
    execute(IpcCommand::ToggleSwitcher, &mut sw);
    assert_eq!(sw.state, SwitcherState::Hidden);
    execute(IpcCommand::EnterGalaxy, &mut sw);
    execute(IpcCommand::ExitGalaxy, &mut sw);
    assert_eq!(sw.state, SwitcherState::Hidden);
    let (r, fx) = execute(IpcCommand::Exit, &mut sw);
    assert!(r.ok);
    assert_eq!(fx, IpcEffects { re_tile: false, stop: true });
}
