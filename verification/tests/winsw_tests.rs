use cmdcore::winsw::{
    build_command_args, build_command_args_with, effective_timeout, effective_winsw_path,
    error_response, outcome_response, requires_config, validate_action, ActionReq, ActionResp,
    WinswError,
};

#[test]
fn test_validate_action() {
    assert!(validate_action("start").is_ok());
    assert!(validate_action("START").is_ok());
    assert!(validate_action("  stop  ").is_ok());
    assert!(validate_action("invalid").is_err());
}

#[test]
fn test_requires_config() {
    assert!(requires_config("install"));
    assert!(requires_config("start"));
    assert!(requires_config("status"));
}

#[test]
fn test_action_resp_construction() {
    let resp = ActionResp::success(Some("ok".into()), None, 0);
    assert!(resp.ok);
    assert_eq!(resp.code, 0);

    let resp = ActionResp::failure(-1, "error".into());
    assert!(!resp.ok);
    assert_eq!(resp.code, -1);
}

#[test]
fn test_build_command_args() {
    let args = build_command_args("start", Some("test.xml"));
    assert!(args.is_err());

    let args = build_command_args("start", None);
    assert!(args.is_err());
}

#[test]
fn validate_action_normalizes_case_and_whitespace() {
    assert_eq!(validate_action("  STOP  ").unwrap(), "stop");
    assert_eq!(validate_action("Restart!").unwrap(), "restart!");
}

#[test]
fn validate_action_reports_the_original_spelling() {
    match validate_action(" bogus ") {
        Err(WinswError::UnsupportedAction(a)) => assert_eq!(a, " bogus "),
        _ => panic!("expected UnsupportedAction"),
    }
}

#[test]
fn missing_config_errors() {
    match build_command_args("start", Some("missing.xml")) {
        Err(WinswError::ConfigNotFound(p)) => assert_eq!(p, "missing.xml"),
        _ => panic!("expected ConfigNotFound"),
    }
    match build_command_args("start", None) {
        Err(WinswError::ConfigRequired(a)) => assert_eq!(a, "start"),
        _ => panic!("expected ConfigRequired"),
    }
}

#[test]
fn existing_config_is_appended() {
    let args = build_command_args_with("start", Some("service.xml"), true).unwrap();
    assert_eq!(args, vec!["start".to_string(), "service.xml".to_string()]);
}

#[test]
fn outcome_response_maps_exit_status() {
    let ok = outcome_response(true, Some(0), Some("out".into()), Some("err".into()));
    assert!(ok.ok);
    assert_eq!(ok.code, 0);
    assert_eq!(ok.stdout.unwrap(), "out");
    assert_eq!(ok.stderr.unwrap(), "err");
    assert!(ok.error.is_none());

    let failed = outcome_response(false, Some(2), Some("out".into()), Some("bad".into()));
    assert!(!failed.ok);
    assert_eq!(failed.code, 2);
    assert!(failed.stdout.is_none());
    assert_eq!(failed.error.unwrap(), "bad");

    let killed = outcome_response(false, None, None, None);
    assert_eq!(killed.code, -1);
    assert_eq!(killed.error.unwrap(), "service action failed");
}

#[test]
fn request_defaults() {
    assert_eq!(effective_winsw_path(&None), "winsw.exe");
    assert_eq!(effective_timeout(&None), 30);
    let req = Some(ActionReq {
        winsw_path: Some("c:\\tools\\winsw.exe".to_string()),
        config: None,
        timeout_seconds: Some(60),
        env_vars: None,
    });
    assert_eq!(effective_winsw_path(&req), "c:\\tools\\winsw.exe");
    assert_eq!(effective_timeout(&req), 60);
}

#[test]
fn winsw_error_messages() {
    assert_eq!(
        WinswError::Timeout(30).message(),
        "service action timed out after 30s"
    );
    assert_eq!(
        WinswError::ConfigNotFound("a.xml".to_string()).message(),
        "configuration file not found: a.xml"
    );
    let r = error_response(&WinswError::SpawnFailed("denied".to_string()));
    assert!(!r.ok);
    assert_eq!(r.code, -1);
    assert_eq!(r.error.unwrap(), "failed to start the service wrapper: denied");
}

#[test]
fn wait_failed_message() {
    let e = WinswError::WaitFailed("pipe closed".to_string());
    assert_eq!(e.message(), "failed to read the service wrapper output: pipe closed");
}

#[test]
fn unsupported_action_message() {
    let e = WinswError::UnsupportedAction("frobnicate".to_string());
    assert_eq!(e.message(), "unsupported service action: frobnicate");
    assert_eq!(
        WinswError::ConfigRequired("start".to_string()).message(),
        "action 'start' requires a configuration file path"
    );
}
