//! Where MilkyWM keeps its IPC socket and its configuration file. The
//! caller reads the environment and joins the parts into a path.
use vstd::prelude::*;

verus! {

/// The socket file name for a Wayland socket name.
pub open spec fn spec_sock_file_name(socket_name: Seq<char>) -> Seq<char> {
    "milkywm-"@ + socket_name + ".sock"@
}

/// The IPC socket file name: `milkywm-<socket_name>.sock`.
pub fn sock_file_name(socket_name: &str) -> (s: String)
    ensures
        s@ == spec_sock_file_name(socket_name@),
{
    let mut s = String::from_str("milkywm-");
    s.append(socket_name);
    s.append(".sock");
    s
}

/// The directory of runtime files: `$XDG_RUNTIME_DIR`, or `/tmp` when unset.
pub fn runtime_dir(xdg_runtime_dir: Option<String>) -> (d: String)
    ensures
        d@ == match xdg_runtime_dir {
            Some(x) => x@,
            None => "/tmp"@,
        },
{
    match xdg_runtime_dir {
        Some(x) => x,
        None => String::from_str("/tmp"),
    }
}

/// Where `milkyctl` finds the compositor's socket.
pub enum CtlSocket {
    /// The path given by `$MILKYWM_SOCK`.
    Given(String),
    /// A file in a directory.
    InDir(String, String),
}

/// `milkyctl`'s socket: `$MILKYWM_SOCK` when set, otherwise
/// `milkywm-<$WAYLAND_DISPLAY or wayland-0>.sock` in the runtime directory.
pub fn ctl_socket(milkywm_sock: Option<String>, xdg_runtime_dir: Option<String>, wayland_display: Option<
    String,
>) -> (r: CtlSocket)
    ensures
        match milkywm_sock {
            Some(p) => r matches CtlSocket::Given(g) && g@ == p@,
            None => r matches CtlSocket::InDir(d, f) && d@ == match xdg_runtime_dir {
                Some(x) => x@,
                None => "/tmp"@,
            } && f@ == spec_sock_file_name(
                match wayland_display {
                    Some(w) => w@,
                    None => "wayland-0"@,
                },
            ),
        },
{
    match milkywm_sock {
        Some(p) => CtlSocket::Given(p),
        None => {
            let dir = runtime_dir(xdg_runtime_dir);
            let display = match wayland_display {
                Some(w) => w,
                None => String::from_str("wayland-0"),
            };
            let file = sock_file_name(display.as_str());
            CtlSocket::InDir(dir, file)
        },
    }
}

/// The text of an optional string.
pub open spec fn opt_text(o: &Option<String>) -> Option<Seq<char>> {
    match o {
        Some(s) => Some(s@),
        None => None,
    }
}

/// The components of the configuration file's path.
pub open spec fn spec_config_path_parts(xdg_config_home: Option<Seq<char>>, home: Option<Seq<char>>) -> Seq<
    Seq<char>,
> {
    match xdg_config_home {
        Some(x) => seq![x, "milkywm"@, "config.toml"@],
        None => seq![
            match home {
                Some(h) => h,
                None => "."@,
            },
            ".config"@,
            "milkywm"@,
            "config.toml"@,
        ],
    }
}

/// The configuration file: `$XDG_CONFIG_HOME/milkywm/config.toml`, or
/// `$HOME/.config/milkywm/config.toml` (`./.config/...` without a home).
pub fn config_path_parts(xdg_config_home: Option<String>, home: Option<String>) -> (parts: Vec<String>)
    ensures
        parts@.map_values(|s: String| s@) == spec_config_path_parts(opt_text(&xdg_config_home), opt_text(&home)),
{
    let ghost expected = spec_config_path_parts(opt_text(&xdg_config_home), opt_text(&home));
    let mut parts: Vec<String> = Vec::new();
    match xdg_config_home {
        Some(x) => {
            parts.push(x);
        },
        None => {
            let h = match home {
                Some(h) => h,
                None => String::from_str("."),
            };
            parts.push(h);
            parts.push(String::from_str(".config"));
        },
    }
    parts.push(String::from_str("milkywm"));
    parts.push(String::from_str("config.toml"));
    assert(parts@.map_values(|s: String| s@) =~= expected);
    parts
}

} // verus!
