use milkywm::ctl::{build_command, describe_response, response_output, wants_help, CtlError, CtlOutput, StatusFields};
use milkywm::text::{decimal_string, parse_usize};

fn args(a: &[&str]) -> Vec<String> {
    a.iter().map(|s| s.to_string()).collect()
}

#[test]
fn decimal_rendering() {
    assert_eq!(decimal_string(0), "0");
    assert_eq!(decimal_string(7), "7");
    assert_eq!(decimal_string(1080), "1080");
    assert_eq!(decimal_string(u64::MAX), u64::MAX.to_string());
}

#[test]
fn parsing_agrees_with_std() {
    for s in ["0", "42", "+7", "007", "", "+", "-1", "-0", "1a", " 1", "18446744073709551615", "18446744073709551616", "99999999999999999999"] {
        assert_eq!(parse_usize(s), s.parse::<usize>().ok(), "input {s:?}");
    }
}

#[test]
fn parse_decimal_roundtrip() {
    for n in [0usize, 1, 9, 10, 255, 65536, usize::MAX] {
        assert_eq!(parse_usize(&decimal_string(n as u64)), Some(n));
    }
}

#[test]
fn ctl_commands() {
    assert_eq!(build_command(&args(&["status"])).unwrap(), r#"{"cmd":"status"}"#);
    assert_eq!(build_command(&args(&["next-workspace"])).unwrap(), r#"{"cmd":"next_workspace"}"#);
    assert_eq!(build_command(&args(&["prev-workspace"])).unwrap(), r#"{"cmd":"prev_workspace"}"#);
    assert_eq!(build_command(&args(&["new-workspace"])).unwrap(), r#"{"cmd":"new_workspace"}"#);
    assert_eq!(build_command(&args(&["toggle-switcher"])).unwrap(), r#"{"cmd":"toggle_switcher"}"#);
    assert_eq!(build_command(&args(&["enter-galaxy"])).unwrap(), r#"{"cmd":"enter_galaxy"}"#);
    assert_eq!(build_command(&args(&["exit-galaxy"])).unwrap(), r#"{"cmd":"exit_galaxy"}"#);
    assert_eq!(build_command(&args(&["exit"])).unwrap(), r#"{"cmd":"exit"}"#);
    assert_eq!(build_command(&args(&["switch", "12"])).unwrap(), r#"{"cmd":"switch_workspace","index":12}"#);
    assert_eq!(build_command(&args(&["switch", "+3"])).unwrap(), r#"{"cmd":"switch_workspace","index":3}"#);
    assert_eq!(build_command(&args(&["layout", "h"])).unwrap(), r#"{"cmd":"set_layout","layout":"horiz"}"#);
    assert_eq!(build_command(&args(&["layout", "vert"])).unwrap(), r#"{"cmd":"set_layout","layout":"vert"}"#);
    assert_eq!(build_command(&args(&["layout", "m"])).unwrap(), r#"{"cmd":"set_layout","layout":"monocle"}"#);
}

#[test]
fn ctl_errors() {
    assert_eq!(build_command(&args(&["fly"])), Err(CtlError::UnknownCommand));
    assert_eq!(build_command(&args(&["switch"])), Err(CtlError::SwitchUsage));
    assert_eq!(build_command(&args(&["switch", "-1"])), Err(CtlError::SwitchUsage));
    assert_eq!(build_command(&args(&["layout"])), Err(CtlError::LayoutUsage));
    assert_eq!(build_command(&args(&["layout", "grid"])), Err(CtlError::UnknownLayout));
}

#[test]
fn ctl_help() {
    assert!(wants_help(&args(&[])));
    assert!(wants_help(&args(&["--help"])));
    assert!(wants_help(&args(&["-h", "status"])));
    assert!(!wants_help(&args(&["status"])));
}

#[test]
fn ctl_describes_responses() {
    assert_eq!(describe_response(Some(false), Some("bad".to_string()), None), Err("bad".to_string()));
    assert_eq!(describe_response(Some(false), None, None), Err("unknown error".to_string()));
    assert_eq!(describe_response(Some(true), None, None), Ok("ok".to_string()));
    assert_eq!(describe_response(None, None, None), Ok("ok".to_string()));
    let st = StatusFields { workspaces: Some(3), active: Some(1), layout: Some("vertsplit".to_string()) };
    assert_eq!(
        describe_response(Some(true), None, Some(st)),
        Ok("workspaces: 3  active: 1  layout: vertsplit".to_string())
    );
    let st = StatusFields { workspaces: None, active: None, layout: None };
    assert_eq!(describe_response(Some(true), None, Some(st)), Ok("workspaces: 0  active: 0  layout: ?".to_string()));
}

#[test]
fn reply_status_is_printed_as_a_line() {
    let out = response_output(r#"{"ok":true,"status":{"workspaces":2,"active":0,"layout":"monocle"}}"#);
    assert!(matches!(out, CtlOutput::Line(l) if l == "workspaces: 2  active: 0  layout: monocle"));
    let out = response_output(r#"{"ok":true}"#);
    assert!(matches!(out, CtlOutput::Line(l) if l == "ok"));
}

#[test]
fn reply_error_and_raw_text() {
    let out = response_output(r#"{"ok":false,"error":"workspace 7 out of range (2)"}"#);
    assert!(matches!(out, CtlOutput::Failure(m) if m == "workspace 7 out of range (2)"));
    let out = response_output(r#"{"ok":false}"#);
    assert!(matches!(out, CtlOutput::Failure(m) if m == "unknown error"));
    let out = response_output("not json");
    assert!(matches!(out, CtlOutput::Raw(t) if t == "not json"));
    let out = response_output(r#"{"status":{"layout":7}}"#);
    assert!(matches!(out, CtlOutput::Line(l) if l == "workspaces: 0  active: 0  layout: ?"));
}
