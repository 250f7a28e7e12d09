use cmdcore::scoop::{
    build_ps_command_args, install_package, install_scoop, package_outcome, parse_output,
    uninstall_package, version_from_output, BootstrapOptions, BootstrapPlan, DetectionCacheState,
    InstallOptions, Planned, ScoopError, ScoopPresence,
};
use cmdcore::scoop::{error_response, record_detection, DetectCmdResp, InstallReq};

fn completed(p: Planned) -> cmdcore::scoop::ActionResp {
    match p {
        Planned::Completed(r) => r,
        Planned::Invoke(_) => panic!("expected a completed dry-run plan"),
    }
}

#[test]
fn test_install_uninstall_dry_run() {
    let r = completed(
        install_package(
            "python",
            &InstallOptions { dry_run: Some(true), ..Default::default() },
        )
        .unwrap(),
    );
    assert!(r.ok);
    assert!(r.stdout.unwrap().contains("scoop install"));

    let r2 = completed(
        uninstall_package(
            "python",
            true,
            &InstallOptions { dry_run: Some(true), ..Default::default() },
        )
        .unwrap(),
    );
    assert!(r2.ok);
    assert!(r2.stdout.unwrap().contains("scoop uninstall"));
}

#[test]
fn test_invalid_pkg() {
    let e = install_package("  ", &Default::default()).err().unwrap();
    match e {
        ScoopError::InvalidPackageName => (),
        _ => panic!("unexpected error"),
    }
}

#[test]
fn test_cache_flow() {
    let mut cache = DetectionCacheState::new();
    let installed = record_detection(&mut cache, 1_000, ScoopPresence::HomeDir(false), None);
    assert!(!installed);
    let c = cache.get_at(1_000);
    assert!(c.is_some());
    let c2 = cache.get_at(1_000);
    assert!(c2.unwrap().cached);
}

#[test]
fn test_install_scoop_dry_run() {
    let r = completed_bootstrap(install_scoop(&BootstrapOptions {
        dry_run: Some(true),
        timeout_seconds: Some(1),
    }));
    assert!(r.ok);
    let out = r.stdout.unwrap();
    assert!(out.contains("Set-ExecutionPolicy"));
    assert!(out.contains("Invoke-RestMethod"));
}

fn completed_bootstrap(p: BootstrapPlan) -> cmdcore::scoop::ActionResp {
    match p {
        BootstrapPlan::Completed(r) => r,
        BootstrapPlan::Invoke(_) => panic!("expected a completed dry-run plan"),
    }
}

#[test]
fn dry_run_install_exact_command() {
    let r = completed(
        install_package("git", &InstallOptions { dry_run: Some(true), ..Default::default() })
            .unwrap(),
    );
    assert!(r.ok);
    assert_eq!(r.stdout.unwrap(), "scoop install git");
    assert_eq!(r.code, 0);
    assert!(r.error.is_none());
}

#[test]
fn dry_run_uninstall_purge_exact_command() {
    let r = completed(
        uninstall_package(
            "git",
            true,
            &InstallOptions { dry_run: Some(true), ..Default::default() },
        )
        .unwrap(),
    );
    assert!(r.stdout.unwrap().contains("scoop uninstall --purge git"));
}

#[test]
fn dry_run_install_global_and_extra_args() {
    let r = completed(
        install_package(
            "  git  ",
            &InstallOptions {
                dry_run: Some(true),
                global: Some(true),
                extra_args: Some(vec!["--arch".to_string(), "64bit".to_string()]),
                ..Default::default()
            },
        )
        .unwrap(),
    );
    assert_eq!(r.stdout.unwrap(), "scoop install --global git --arch 64bit");
}

#[test]
fn install_plan_carries_timeout() {
    let p = install_package(
        "git",
        &InstallOptions { timeout_seconds: Some(42), ..Default::default() },
    )
    .unwrap();
    match p {
        Planned::Invoke(c) => {
            assert_eq!(c.script, "scoop install git");
            assert_eq!(c.timeout_secs, 42);
        }
        Planned::Completed(_) => panic!("expected an invocation"),
    }
}

#[test]
fn install_plan_default_timeout() {
    let p = install_package("git", &InstallOptions::default()).unwrap();
    match p {
        Planned::Invoke(c) => assert_eq!(c.timeout_secs, 600),
        Planned::Completed(_) => panic!("expected an invocation"),
    }
}

#[test]
fn uninstall_empty_operand_fails_regardless_of_options() {
    let e = uninstall_package(
        "\t \n",
        false,
        &InstallOptions { dry_run: Some(true), global: Some(true), ..Default::default() },
    )
    .err()
    .unwrap();
    assert!(matches!(e, ScoopError::InvalidPackageName));
}

#[test]
fn bootstrap_plan_scripts_and_timeout() {
    let p = install_scoop(&BootstrapOptions { dry_run: None, timeout_seconds: None });
    match p {
        BootstrapPlan::Invoke(b) => {
            assert!(b.set_policy_script.contains("Set-ExecutionPolicy"));
            assert!(b.install_script.contains("Invoke-RestMethod"));
            assert_eq!(b.timeout_secs, 120);
        }
        BootstrapPlan::Completed(_) => panic!("expected an invocation"),
    }
}

#[test]
fn ps_command_args_shape() {
    let args = build_ps_command_args("scoop --version");
    assert_eq!(
        args,
        vec![
            "-NoProfile".to_string(),
            "-ExecutionPolicy".to_string(),
            "Bypass".to_string(),
            "-Command".to_string(),
            "scoop --version".to_string(),
        ]
    );
}

#[test]
fn parse_output_empty_and_text() {
    assert!(parse_output(&[]).is_none());
    assert_eq!(parse_output("hello".as_bytes()).unwrap(), "hello");
}

#[test]
fn parse_output_invalid_utf8_is_replaced() {
    let out = parse_output(&[0xFF, 0xFE]).unwrap();
    assert_eq!(out, "\u{FFFD}\u{FFFD}");
}

#[test]
fn package_outcome_success_and_failure() {
    let ok = package_outcome(true, Some(0), "done".as_bytes(), &[]).unwrap();
    assert!(ok.ok);
    assert_eq!(ok.code, 0);
    assert_eq!(ok.stdout.unwrap(), "done");
    assert!(ok.stderr.is_none());

    let err = package_outcome(false, Some(3), &[], "boom".as_bytes()).err().unwrap();
    match err {
        ScoopError::CommandFailed { code, stderr } => {
            assert_eq!(code, Some(3));
            assert_eq!(stderr, "boom");
        }
        _ => panic!("unexpected error"),
    }
}

#[test]
fn version_output_is_trimmed() {
    let v = version_from_output(true, Some(0), "  0.5.3\r\n".as_bytes(), &[]).unwrap();
    assert_eq!(v, "0.5.3");

    let e = version_from_output(false, None, &[], " nope \n".as_bytes()).err().unwrap();
    match e {
        ScoopError::CommandFailed { code, stderr } => {
            assert_eq!(code, None);
            assert_eq!(stderr, "nope");
        }
        _ => panic!("unexpected error"),
    }
}

#[test]
fn cache_expires_after_ttl() {
    let mut cache = DetectionCacheState::new();
    assert!(cache.get_at(5).is_none());
    record_detection(&mut cache, 1_000, ScoopPresence::OnPath, Some("1.0".to_string()));
    let hit = cache.get_at(1_000 + 60_000).unwrap();
    assert!(hit.installed);
    assert_eq!(hit.version.unwrap(), "1.0");
    assert_eq!(hit.source.unwrap(), "cache");
    assert!(cache.get_at(1_000 + 60_001).is_none());
}

#[test]
fn cache_overwritten_whole() {
    let mut cache = DetectionCacheState::new();
    record_detection(&mut cache, 1_000, ScoopPresence::OnPath, Some("1.0".to_string()));
    record_detection(&mut cache, 2_000, ScoopPresence::HomeDir(false), None);
    let hit = cache.get_at(2_000).unwrap();
    assert!(!hit.installed);
    assert!(hit.version.is_none());
}

#[test]
fn probe_version_kept_only_on_path() {
    let mut cache = DetectionCacheState::new();
    record_detection(&mut cache, 1_000, ScoopPresence::HomeDir(true), Some("9.9".to_string()));
    let hit = cache.get_at(1_000).unwrap();
    assert!(hit.installed);
    assert!(hit.version.is_none());
}

#[test]
fn timeout_error_message_carries_seconds() {
    let e = ScoopError::Timeout { secs: 42 };
    assert_eq!(e.message(), "command timed out after 42s");
}

#[test]
fn error_response_is_normalized() {
    let r = error_response(&ScoopError::InvalidPackageName);
    assert!(!r.ok);
    assert_eq!(r.code, -1);
    assert!(r.stdout.is_none());
    assert!(r.stderr.is_none());
    assert_eq!(r.error.unwrap(), "package name is empty or invalid");
}

#[test]
fn detect_cmd_resp_from_error() {
    let e = ScoopError::CommandSpawn("no such file".to_string());
    let r = DetectCmdResp::from_error(&e);
    assert!(!r.ok);
    assert!(!r.installed);
    assert!(r.version.is_none());
    assert_eq!(r.error.unwrap(), "failed to start the command: no such file");
    assert!(!r.cached);
}

#[test]
fn install_req_into_options() {
    let req = InstallReq {
        package: "git".to_string(),
        global: Some(true),
        timeout_seconds: Some(9),
        dry_run: Some(true),
        extra_args: None,
    };
    let (pkg, opts) = req.into_options();
    assert_eq!(pkg, "git");
    assert_eq!(opts.global, Some(true));
    assert_eq!(opts.timeout_seconds, Some(9));
    assert_eq!(opts.dry_run, Some(true));
    assert!(opts.extra_args.is_none());
}

#[test]
fn powershell_unavailable_message() {
    let e = ScoopError::PowerShellNotAvailable("not on this machine".to_string());
    assert_eq!(e.message(), "PowerShell is not available: not on this machine");
}
