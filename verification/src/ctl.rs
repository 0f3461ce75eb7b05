//! The command-line client `milkyctl`: turning arguments into an IPC
//! request and a response into the line it prints.
use vstd::prelude::*;
use crate::text::{decimal, parse_usize, spec_parse_usize, write_decimal};

verus! {

/// Why the arguments make no request.
#[derive(Debug, Clone, Copy, PartialEq, Eq, Structural)]
pub enum CtlError {
    /// The first argument names no command.
    UnknownCommand,
    /// `switch` without a workspace number.
    SwitchUsage,
    /// `layout` without a layout name.
    LayoutUsage,
    /// `layout` with a name that is none of horiz, vert, monocle.
    UnknownLayout,
}

/// The texts of a list of strings.
pub open spec fn texts(args: Seq<String>) -> Seq<Seq<char>> {
    args.map_values(|s: String| s@)
}

/// The request that asks to switch to workspace `idx`.
pub open spec fn switch_json(idx: usize) -> Seq<char> {
    "{\"cmd\":\"switch_workspace\",\"index\":"@ + decimal(idx as nat) + "}"@
}

/// The request for a layout name, if it is one.
pub open spec fn layout_json(name: Seq<char>) -> Result<Seq<char>, CtlError> {
    if name == "horiz"@ || name == "h"@ {
        Ok("{\"cmd\":\"set_layout\",\"layout\":\"horiz\"}"@)
    } else if name == "vert"@ || name == "v"@ {
        Ok("{\"cmd\":\"set_layout\",\"layout\":\"vert\"}"@)
    } else if name == "monocle"@ || name == "m"@ {
        Ok("{\"cmd\":\"set_layout\",\"layout\":\"monocle\"}"@)
    } else {
        Err(CtlError::UnknownLayout)
    }
}

/// The newline-free JSON request the arguments ask for.
pub open spec fn spec_build_command(args: Seq<Seq<char>>) -> Result<Seq<char>, CtlError> {
    let c = args[0];
    if c == "status"@ {
        Ok("{\"cmd\":\"status\"}"@)
    } else if c == "next-workspace"@ {
        Ok("{\"cmd\":\"next_workspace\"}"@)
    } else if c == "prev-workspace"@ {
        Ok("{\"cmd\":\"prev_workspace\"}"@)
    } else if c == "new-workspace"@ {
        Ok("{\"cmd\":\"new_workspace\"}"@)
    } else if c == "toggle-switcher"@ {
        Ok("{\"cmd\":\"toggle_switcher\"}"@)
    } else if c == "enter-galaxy"@ {
        Ok("{\"cmd\":\"enter_galaxy\"}"@)
    } else if c == "exit-galaxy"@ {
        Ok("{\"cmd\":\"exit_galaxy\"}"@)
    } else if c == "exit"@ {
        Ok("{\"cmd\":\"exit\"}"@)
    } else if c == "switch"@ {
        if args.len() > 1 && spec_parse_usize(args[1]) is Some {
            Ok(switch_json(spec_parse_usize(args[1]).unwrap()))
        } else {
            Err(CtlError::SwitchUsage)
        }
    } else if c == "layout"@ {
        if args.len() > 1 {
            layout_json(args[1])
        } else {
            Err(CtlError::LayoutUsage)
        }
    } else {
        Err(CtlError::UnknownCommand)
    }
}

/// `s` reads exactly `lit`.
fn is_text(s: &String, lit: &str) -> (b: bool)
    ensures
        b == (s@ == lit@),
{
    *s == String::from_str(lit)
}

fn text(lit: &str) -> (s: String)
    ensures
        s@ == lit@,
{
    String::from_str(lit)
}

/// The arguments ask for the help text: none given, or `--help`, or `-h`.
pub fn wants_help(args: &Vec<String>) -> (b: bool)
    ensures
        b == (args@.len() == 0 || args@[0]@ == "--help"@ || args@[0]@ == "-h"@),
{
    args.len() == 0 || is_text(&args[0], "--help") || is_text(&args[0], "-h")
}

/// Build the JSON request for the command line `args` (without the program
/// name).
pub fn build_command(args: &Vec<String>) -> (r: Result<String, CtlError>)
    requires
        args@.len() > 0,
    ensures
        match r {
            Ok(s) => spec_build_command(texts(args@)) == Ok::<Seq<char>, CtlError>(s@),
            Err(e) => spec_build_command(texts(args@)) == Err::<Seq<char>, CtlError>(e),
        },
{
    let ghost a = texts(args@);
    assert(a[0] == args@[0]@);
    let c = &args[0];
    if is_text(c, "status") {
        Ok(text("{\"cmd\":\"status\"}"))
    } else if is_text(c, "next-workspace") {
        Ok(text("{\"cmd\":\"next_workspace\"}"))
    } else if is_text(c, "prev-workspace") {
        Ok(text("{\"cmd\":\"prev_workspace\"}"))
    } else if is_text(c, "new-workspace") {
        Ok(text("{\"cmd\":\"new_workspace\"}"))
    } else if is_text(c, "toggle-switcher") {
        Ok(text("{\"cmd\":\"toggle_switcher\"}"))
    } else if is_text(c, "enter-galaxy") {
        Ok(text("{\"cmd\":\"enter_galaxy\"}"))
    } else if is_text(c, "exit-galaxy") {
        Ok(text("{\"cmd\":\"exit_galaxy\"}"))
    } else if is_text(c, "exit") {
        Ok(text("{\"cmd\":\"exit\"}"))
    } else if is_text(c, "switch") {
        if args.len() < 2 {
            return Err(CtlError::SwitchUsage);
        }
        assert(a[1] == args@[1]@);
        match parse_usize(args[1].as_str()) {
            Some(idx) => {
                let mut s = text("{\"cmd\":\"switch_workspace\",\"index\":");
                write_decimal(idx as u64, &mut s);
                s.append("}");
                Ok(s)
            },
            None => Err(CtlError::SwitchUsage),
        }
    } else if is_text(c, "layout") {
        if args.len() < 2 {
            return Err(CtlError::LayoutUsage);
        }
        assert(a[1] == args@[1]@);
        let l = &args[1];
        if is_text(l, "horiz") || is_text(l, "h") {
            Ok(text("{\"cmd\":\"set_layout\",\"layout\":\"horiz\"}"))
        } else if is_text(l, "vert") || is_text(l, "v") {
            Ok(text("{\"cmd\":\"set_layout\",\"layout\":\"vert\"}"))
        } else if is_text(l, "monocle") || is_text(l, "m") {
            Ok(text("{\"cmd\":\"set_layout\",\"layout\":\"monocle\"}"))
        } else {
            Err(CtlError::UnknownLayout)
        }
    } else {
        Err(CtlError::UnknownCommand)
    }
}

/// The status fields of a response, as far as they are present.
pub struct StatusFields {
    pub workspaces: Option<u64>,
    pub active: Option<u64>,
    pub layout: Option<String>,
}

/// The line printed for a status report.
pub open spec fn status_line(workspaces: u64, active: u64, layout: Seq<char>) -> Seq<char> {
    "workspaces: "@ + decimal(workspaces as nat) + "  active: "@ + decimal(active as nat) + "  layout: "@
        + layout
}

/// What a response means to the user: a failure with its message (or
/// "unknown error"), the status line, or "ok".
pub open spec fn spec_describe(
    ok: Option<bool>,
    error: Option<Seq<char>>,
    status: Option<(Option<u64>, Option<u64>, Option<Seq<char>>)>,
) -> Result<Seq<char>, Seq<char>> {
    if ok == Some(false) {
        Err(
            match error {
                Some(e) => e,
                None => "unknown error"@,
            },
        )
    } else {
        match status {
            Some((w, a, l)) => Ok(
                status_line(
                    match w {
                        Some(x) => x,
                        None => 0,
                    },
                    match a {
                        Some(x) => x,
                        None => 0,
                    },
                    match l {
                        Some(x) => x,
                        None => "?"@,
                    },
                ),
            ),
            None => Ok("ok"@),
        }
    }
}

/// Describe a response: `Err` with the message to report as an error, or
/// `Ok` with the line to print.
pub fn describe_response(ok: Option<bool>, error: Option<String>, status: Option<StatusFields>) -> (r:
    Result<String, String>)
    ensures
        ({
            let e = match error {
                Some(s) => Some(s@),
                None => None,
            };
            let st = match status {
                Some(f) => Some(
                    (
                        f.workspaces,
                        f.active,
                        match f.layout {
                            Some(l) => Some(l@),
                            None => None,
                        },
                    ),
                ),
                None => None,
            };
            match r {
                Ok(s) => spec_describe(ok, e, st) == Ok::<Seq<char>, Seq<char>>(s@),
                Err(s) => spec_describe(ok, e, st) == Err::<Seq<char>, Seq<char>>(s@),
            }
        }),
{
    if ok == Some(false) {
        return Err(
            match error {
                Some(e) => e,
                None => text("unknown error"),
            },
        );
    }
    match status {
        Some(f) => {
            let w = match f.workspaces {
                Some(x) => x,
                None => 0,
            };
            let a = match f.active {
                Some(x) => x,
                None => 0,
            };
            let mut s = text("workspaces: ");
            write_decimal(w, &mut s);
            s.append("  active: ");
            write_decimal(a, &mut s);
            s.append("  layout: ");
            match f.layout {
                Some(l) => s.append(l.as_str()),
                None => s.append("?"),
            }
            Ok(s)
        },
        None => Ok(text("ok")),
    }
}

/// What a response says, field by field, as far as each field is there.
pub struct ResponseFields {
    pub ok: Option<bool>,
    pub error: Option<String>,
    pub status: Option<StatusFields>,
}

/// The fields of a response as plain values: `ok`, `error`, and the status's
/// `workspaces`, `active` and `layout`.
pub type FieldsView = (Option<bool>, Option<Seq<char>>, Option<(Option<u64>, Option<u64>, Option<Seq<char>>)>);

/// The text of an optional string.
pub open spec fn opt_str(o: Option<String>) -> Option<Seq<char>> {
    match o {
        Some(s) => Some(s@),
        None => None,
    }
}

/// The plain fields of a status.
pub open spec fn status_view(st: Option<StatusFields>) -> Option<(Option<u64>, Option<u64>, Option<Seq<char>>)> {
    match st {
        Some(f) => Some((f.workspaces, f.active, opt_str(f.layout))),
        None => None,
    }
}

/// The plain fields of a parsed response.
pub open spec fn fields_view(r: Option<ResponseFields>) -> Option<FieldsView> {
    match r {
        Some(f) => Some((f.ok, opt_str(f.error), status_view(f.status))),
        None => None,
    }
}

/// The fields serde_json reads from a reply: `None` when the text is not
/// JSON; otherwise `ok` when it is a boolean, `error` when it is a string,
/// and, when `status` is present, its `workspaces` and `active` when they
/// are unsigned integers and its `layout` when it is a string.
pub uninterp spec fn json_response(text: Seq<char>) -> Option<FieldsView>;

/// Parses a reply with serde_json (`serde_json::from_str` into a `Value`,
/// then `Value::get`, `as_bool`, `as_u64` and `as_str` on its fields).
/// Trusted, not proved: the contract only names the result as a function
/// of the text, `json_response`; what JSON parsing gives is not spelled out.
#[verifier::external_body]
fn parse_response(text: &str) -> (r: Option<ResponseFields>)
    ensures
        fields_view(r) == json_response(text@),
{
    let v: serde_json::Value = serde_json::from_str(text).ok()?;
    Some(ResponseFields {
        ok: v.get("ok").and_then(serde_json::Value::as_bool),
        error: v.get("error").and_then(serde_json::Value::as_str).map(str::to_string),
        status: v.get("status").map(|s| StatusFields {
            workspaces: s.get("workspaces").and_then(serde_json::Value::as_u64),
            active: s.get("active").and_then(serde_json::Value::as_u64),
            layout: s.get("layout").and_then(serde_json::Value::as_str).map(str::to_string),
        }),
    })
}

/// What `milkyctl` does with a reply.
pub enum CtlOutput {
    /// Report this message as an error and fail.
    Failure(String),
    /// Print this line.
    Line(String),
    /// The reply is no JSON: print it as it came.
    Raw(String),
}

/// What `milkyctl` shows for the reply `text` (already trimmed): the
/// description of its fields, or the text itself when it is no JSON.
pub open spec fn spec_output(text: Seq<char>, o: CtlOutput) -> bool {
    match json_response(text) {
        Some((ok, e, st)) => match spec_describe(ok, e, st) {
            Ok(l) => o matches CtlOutput::Line(s) && s@ == l,
            Err(m) => o matches CtlOutput::Failure(s) && s@ == m,
        },
        None => o matches CtlOutput::Raw(s) && s@ == text,
    }
}

/// Turns a reply into what `milkyctl` shows.
pub fn response_output(text: &str) -> (o: CtlOutput)
    ensures
        spec_output(text@, o),
{
    match parse_response(text) {
        Some(f) => match describe_response(f.ok, f.error, f.status) {
            Ok(l) => CtlOutput::Line(l),
            Err(m) => CtlOutput::Failure(m),
        },
        None => CtlOutput::Raw(String::from_str(text)),
    }
}

/// `milkyctl layout` accepts each of the three layouts by its name or its
/// first letter (horiz or h, vert or v, monocle or m) and asks for that
/// layout; any other name is refused as an unknown layout.
pub proof fn lemma_layout_names_accepted(args: Seq<Seq<char>>)
    requires
        args.len() >= 2,
        args[0] == "layout"@,
    ensures
        args[1] == "horiz"@ || args[1] == "h"@ ==> spec_build_command(args) == Ok::<Seq<char>, CtlError>(
            "{\"cmd\":\"set_layout\",\"layout\":\"horiz\"}"@,
        ),
        args[1] == "vert"@ || args[1] == "v"@ ==> spec_build_command(args) == Ok::<Seq<char>, CtlError>(
            "{\"cmd\":\"set_layout\",\"layout\":\"vert\"}"@,
        ),
        args[1] == "monocle"@ || args[1] == "m"@ ==> spec_build_command(args) == Ok::<Seq<char>, CtlError>(
            "{\"cmd\":\"set_layout\",\"layout\":\"monocle\"}"@,
        ),
        !(args[1] == "horiz"@ || args[1] == "h"@ || args[1] == "vert"@ || args[1] == "v"@ || args[1]
            == "monocle"@ || args[1] == "m"@) ==> spec_build_command(args) == Err::<Seq<char>, CtlError>(
            CtlError::UnknownLayout,
        ),
{
    reveal_strlit("layout");
    reveal_strlit("status");
    reveal_strlit("next-workspace");
    reveal_strlit("prev-workspace");
    reveal_strlit("new-workspace");
    reveal_strlit("toggle-switcher");
    reveal_strlit("enter-galaxy");
    reveal_strlit("exit-galaxy");
    reveal_strlit("exit");
    reveal_strlit("switch");
    reveal_strlit("horiz");
    reveal_strlit("h");
    reveal_strlit("vert");
    reveal_strlit("v");
    reveal_strlit("monocle");
    reveal_strlit("m");
    // Every other command starts with another letter than `layout`.
    assert(args[0][0] == 'l');
    assert("status"@[0] == 's' && "switch"@[0] == 's' && "exit"@[0] == 'e' && "exit-galaxy"@[0] == 'e');
    assert("enter-galaxy"@[0] == 'e' && "new-workspace"@[0] == 'n' && "next-workspace"@[0] == 'n');
    assert("prev-workspace"@[0] == 'p' && "toggle-switcher"@[0] == 't');
    assert(args[0] != "status"@ && args[0] != "next-workspace"@ && args[0] != "prev-workspace"@);
    assert(args[0] != "new-workspace"@ && args[0] != "toggle-switcher"@ && args[0] != "enter-galaxy"@);
    assert(args[0] != "exit-galaxy"@ && args[0] != "exit"@ && args[0] != "switch"@);
    assert(spec_build_command(args) == layout_json(args[1]));
}

} // verus!
