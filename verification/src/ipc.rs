//! The IPC protocol of MilkyWM: the commands a client may send, the
//! responses it gets back, and what each command does to the switcher.
use vstd::prelude::*;
use vstd::std_specs::convert::FromSpecImpl;
use crate::layout::LayoutMode;
use crate::orbital::{
    OrbitalSwitcher, SwitcherState, SwitcherView, sv_active, sv_close, sv_enter_galaxy,
    sv_exit_galaxy, sv_new_workspace, sv_next, sv_open, sv_prev, sv_set_layout, sv_switch,
};
use crate::text::{decimal, write_decimal};

verus! {

/// Layout names accepted over IPC.
#[derive(Debug, Clone, Copy, PartialEq, Eq, Structural)]
pub enum LayoutArg {
    Horiz,
    Vert,
    Monocle,
}

/// Commands accepted over the IPC socket.
#[derive(Debug, Clone, Copy, PartialEq, Eq, Structural)]
pub enum IpcCommand {
    NextWorkspace,
    PrevWorkspace,
    NewWorkspace,
    SwitchWorkspace { index: usize },
    SetLayout { layout: LayoutArg },
    ToggleSwitcher,
    EnterGalaxy,
    ExitGalaxy,
    Exit,
    Status,
}

/// The layout mode an IPC layout name stands for.
pub open spec fn layout_of_arg(a: LayoutArg) -> LayoutMode {
    match a {
        LayoutArg::Horiz => LayoutMode::HorizSplit,
        LayoutArg::Vert => LayoutMode::VertSplit,
        LayoutArg::Monocle => LayoutMode::Monocle,
    }
}

impl From<LayoutArg> for LayoutMode {
    fn from(a: LayoutArg) -> (m: LayoutMode) {
        match a {
            LayoutArg::Horiz => LayoutMode::HorizSplit,
            LayoutArg::Vert => LayoutMode::VertSplit,
            LayoutArg::Monocle => LayoutMode::Monocle,
        }
    }
}

impl FromSpecImpl<LayoutArg> for LayoutMode {
    open spec fn obeys_from_spec() -> bool {
        true
    }

    open spec fn from_spec(a: LayoutArg) -> LayoutMode {
        layout_of_arg(a)
    }
}

/// Status data sent back for the `status` command.
#[derive(Debug)]
pub struct StatusData {
    pub workspaces: usize,
    pub active: usize,
    pub layout: String,
}

/// Response sent back over the socket.
#[derive(Debug)]
pub struct IpcResponse {
    pub ok: bool,
    pub error: Option<String>,
    pub status: Option<StatusData>,
}

/// Status data with the layout name as text.
pub struct StatusView {
    pub workspaces: usize,
    pub active: usize,
    pub layout: Seq<char>,
}

/// A response with its texts.
pub struct ResponseView {
    pub ok: bool,
    pub error: Option<Seq<char>>,
    pub status: Option<StatusView>,
}

impl View for StatusData {
    type V = StatusView;

    open spec fn view(&self) -> StatusView {
        StatusView { workspaces: self.workspaces, active: self.active, layout: self.layout@ }
    }
}

impl View for IpcResponse {
    type V = ResponseView;

    open spec fn view(&self) -> ResponseView {
        ResponseView {
            ok: self.ok,
            error: match &self.error {
                Some(e) => Some(e@),
                None => None,
            },
            status: match &self.status {
                Some(s) => Some(s@),
                None => None,
            },
        }
    }
}

/// The plain success response.
pub open spec fn ok_view() -> ResponseView {
    ResponseView { ok: true, error: None, status: None }
}

/// A failure carrying a message.
pub open spec fn err_view(msg: Seq<char>) -> ResponseView {
    ResponseView { ok: false, error: Some(msg), status: None }
}

impl IpcResponse {
    pub fn ok() -> (r: Self)
        ensures
            r@ == ok_view(),
    {
        IpcResponse { ok: true, error: None, status: None }
    }

    pub fn err(msg: String) -> (r: Self)
        ensures
            r@ == err_view(msg@),
    {
        IpcResponse { ok: false, error: Some(msg), status: None }
    }

    pub fn with_status(data: StatusData) -> (r: Self)
        ensures
            r@ == (ResponseView { ok: true, error: None, status: Some(data@) }),
    {
        IpcResponse { ok: true, error: None, status: Some(data) }
    }
}

/// The name a layout is reported under: its mode's name in lower case.
pub open spec fn spec_layout_name(m: LayoutMode) -> Seq<char> {
    match m {
        LayoutMode::Monocle => "monocle"@,
        LayoutMode::HorizSplit => "horizsplit"@,
        LayoutMode::VertSplit => "vertsplit"@,
    }
}

/// The name a layout is reported under.
pub fn layout_name(m: LayoutMode) -> (s: String)
    ensures
        s@ == spec_layout_name(m),
{
    match m {
        LayoutMode::Monocle => String::from_str("monocle"),
        LayoutMode::HorizSplit => String::from_str("horizsplit"),
        LayoutMode::VertSplit => String::from_str("vertsplit"),
    }
}

/// The message for a switch to a workspace that does not exist.
pub open spec fn spec_out_of_range(index: usize, len: nat) -> Seq<char> {
    "workspace "@ + decimal(index as nat) + " out of range ("@ + decimal(len) + ")"@
}

/// Effects the compositor must carry out after a command.
#[derive(Debug, Clone, Copy, PartialEq, Eq, Structural)]
pub struct IpcEffects {
    /// Re-tile the active workspace.
    pub re_tile: bool,
    /// Stop the compositor.
    pub stop: bool,
}

/// The status a `status` command reports.
pub open spec fn spec_status(v: SwitcherView) -> StatusView {
    StatusView {
        workspaces: v.workspaces.len() as usize,
        active: v.active,
        layout: if v.active < v.workspaces.len() {
            spec_layout_name(sv_active(v).layout)
        } else {
            "unknown"@
        },
    }
}

/// What a command does: the new switcher, the response and the effects.
pub open spec fn ipc_step(v: SwitcherView, cmd: IpcCommand) -> (SwitcherView, ResponseView, IpcEffects) {
    let none = IpcEffects { re_tile: false, stop: false };
    let tile = IpcEffects { re_tile: true, stop: false };
    match cmd {
        IpcCommand::NextWorkspace => (sv_next(v), ok_view(), tile),
        IpcCommand::PrevWorkspace => (sv_prev(v), ok_view(), tile),
        IpcCommand::NewWorkspace => (sv_new_workspace(v), ok_view(), none),
        IpcCommand::SwitchWorkspace { index } => if index < v.workspaces.len() {
            (sv_switch(v, index), ok_view(), tile)
        } else {
            (v, err_view(spec_out_of_range(index, v.workspaces.len())), none)
        },
        IpcCommand::SetLayout { layout } => (sv_set_layout(v, layout_of_arg(layout)), ok_view(), tile),
        IpcCommand::ToggleSwitcher => (
            match v.state {
                SwitcherState::Hidden => sv_open(v),
                SwitcherState::Visible => sv_close(v),
                SwitcherState::Galaxy => sv_exit_galaxy(v),
            },
            ok_view(),
            none,
        ),
        IpcCommand::EnterGalaxy => (sv_enter_galaxy(v), ok_view(), none),
        IpcCommand::ExitGalaxy => (sv_exit_galaxy(v), ok_view(), none),
        IpcCommand::Exit => (v, ok_view(), IpcEffects { re_tile: false, stop: true }),
        IpcCommand::Status => (
            v,
            ResponseView { ok: true, error: None, status: Some(spec_status(v)) },
            none,
        ),
    }
}

/// Execute a command against the switcher.
pub fn execute(cmd: IpcCommand, sw: &mut OrbitalSwitcher) -> (res: (IpcResponse, IpcEffects))
    requires
        old(sw).wf(),
    ensures
        final(sw).wf(),
        (final(sw)@, res.0@, res.1) == ipc_step(old(sw)@, cmd),
{
    let none = IpcEffects { re_tile: false, stop: false };
    let tile = IpcEffects { re_tile: true, stop: false };
    match cmd {
        IpcCommand::NextWorkspace => {
            sw.next_workspace();
            (IpcResponse::ok(), tile)
        },
        IpcCommand::PrevWorkspace => {
            sw.prev_workspace();
            (IpcResponse::ok(), tile)
        },
        IpcCommand::NewWorkspace => {
            sw.new_workspace();
            (IpcResponse::ok(), none)
        },
        IpcCommand::SwitchWorkspace { index } => {
            let len = sw.workspaces.len();
            if index < len {
                sw.switch_workspace(index);
                (IpcResponse::ok(), tile)
            } else {
                let mut msg = String::from_str("workspace ");
                write_decimal(index as u64, &mut msg);
                msg.append(" out of range (");
                write_decimal(len as u64, &mut msg);
                msg.append(")");
                (IpcResponse::err(msg), none)
            }
        },
        IpcCommand::SetLayout { layout } => {
            sw.set_layout(LayoutMode::from(layout));
            (IpcResponse::ok(), tile)
        },
        IpcCommand::ToggleSwitcher => {
            match sw.state {
                SwitcherState::Hidden => sw.open(),
                SwitcherState::Visible => sw.close(),
                SwitcherState::Galaxy => sw.exit_galaxy(),
            }
            (IpcResponse::ok(), none)
        },
        IpcCommand::EnterGalaxy => {
            sw.enter_galaxy();
            (IpcResponse::ok(), none)
        },
        IpcCommand::ExitGalaxy => {
            sw.exit_galaxy();
            (IpcResponse::ok(), none)
        },
        IpcCommand::Exit => (IpcResponse::ok(), IpcEffects { re_tile: false, stop: true }),
        IpcCommand::Status => {
            let active = sw.active;
            let layout = if active < sw.workspaces.len() {
                layout_name(sw.workspaces[active].layout)
            } else {
                String::from_str("unknown")
            };
            let data = StatusData { workspaces: sw.workspaces.len(), active, layout };
            (IpcResponse::with_status(data), none)
        },
    }
}

/// Every command succeeds except a switch to a workspace that does not
/// exist, which is refused with its message and changes nothing.
pub proof fn lemma_only_bad_switch_refused(v: SwitcherView, cmd: IpcCommand)
    ensures
        ipc_step(v, cmd).1.ok == !(cmd matches IpcCommand::SwitchWorkspace { index } && index
            >= v.workspaces.len()),
        match cmd {
            IpcCommand::SwitchWorkspace { index } => index >= v.workspaces.len() ==> {
                &&& ipc_step(v, cmd).0 == v
                &&& ipc_step(v, cmd).1.error == Some(spec_out_of_range(index, v.workspaces.len()))
                &&& !ipc_step(v, cmd).2.re_tile
            },
            _ => true,
        },
        ipc_step(v, cmd).2.stop <==> cmd == IpcCommand::Exit,
{
}

/// The workspace commands move the active workspace as their names say:
/// `next_workspace` to the following one and `prev_workspace` to the one
/// before, wrapping around at either end; `switch_workspace` to the given
/// index when it exists; `new_workspace` appends one and stays put;
/// `set_layout` gives the active workspace the named layout. Moving
/// re-tiles; none of them changes which windows a workspace holds.
pub proof fn lemma_workspace_commands_move_as_named(v: SwitcherView, index: usize)
    requires
        v.active < v.workspaces.len() <= usize::MAX,
    ensures
        ({
            let n = v.workspaces.len() as int;
            let (nv, nr, ne) = ipc_step(v, IpcCommand::NextWorkspace);
            &&& nv.active == (v.active + 1) % n
            &&& nv.workspaces == v.workspaces
            &&& nr == ResponseView { ok: true, error: None, status: None }
            &&& ne.re_tile && !ne.stop
        }),
        ({
            let n = v.workspaces.len() as int;
            let (pv, pr, pe) = ipc_step(v, IpcCommand::PrevWorkspace);
            &&& pv.active == if v.active == 0 {
                n - 1
            } else {
                v.active - 1
            }
            &&& pv.workspaces == v.workspaces
            &&& pr == ResponseView { ok: true, error: None, status: None }
            &&& pe.re_tile && !pe.stop
        }),
        index < v.workspaces.len() ==> {
            let (sv, sr, se) = ipc_step(v, IpcCommand::SwitchWorkspace { index });
            &&& sv.active == index
            &&& sv.workspaces == v.workspaces
            &&& sr.ok
            &&& se.re_tile
        },
        ({
            let (wv, wr, we) = ipc_step(v, IpcCommand::NewWorkspace);
            &&& wv.workspaces.len() == v.workspaces.len() + 1
            &&& wv.workspaces.subrange(0, v.workspaces.len() as int) == v.workspaces
            &&& wv.active == v.active
            &&& wr.ok
        }),
        ipc_step(v, IpcCommand::SetLayout { layout: LayoutArg::Horiz }).0.workspaces[v.active as int].layout
            == LayoutMode::HorizSplit,
        ipc_step(v, IpcCommand::SetLayout { layout: LayoutArg::Vert }).0.workspaces[v.active as int].layout
            == LayoutMode::VertSplit,
        ipc_step(v, IpcCommand::SetLayout { layout: LayoutArg::Monocle }).0.workspaces[v.active as int].layout
            == LayoutMode::Monocle,
{
    let n = v.workspaces.len() as int;
    vstd::arithmetic::div_mod::lemma_mod_pos_bound(v.active + 1, n);
    let wv = ipc_step(v, IpcCommand::NewWorkspace).0;
    assert(wv.workspaces.subrange(0, v.workspaces.len() as int) =~= v.workspaces);
}

} // verus!
