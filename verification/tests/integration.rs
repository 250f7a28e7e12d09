use cmdcore::env::EnvMap;
use cmdcore::scoop::{
    detection_cache, ensure_bootstrap_response, install_package, install_scoop, probe_scoop_presence,
    record_detection, uninstall_package, BootstrapOptions, BootstrapPlan, DetectionCacheState,
    InstallOptions, Planned,
};

#[test]
fn integration_detect_and_dry_runs() {
    let mut cache = DetectionCacheState::new();
    let env = EnvMap::new();
    let presence = probe_scoop_presence(&env);
    let _ = record_detection(&mut cache, 1_000, presence, None);
    let _ = detection_cache(&cache);

    let resp = match install_package(
        "git",
        &InstallOptions { dry_run: Some(true), ..Default::default() },
    )
    .unwrap()
    {
        Planned::Completed(r) => r,
        Planned::Invoke(_) => panic!("dry run must not leave a command to run"),
    };
    assert!(resp.ok);
    assert!(resp.stdout.unwrap().contains("scoop install"));

    let resp2 = match uninstall_package(
        "git",
        false,
        &InstallOptions { dry_run: Some(true), ..Default::default() },
    )
    .unwrap()
    {
        Planned::Completed(r) => r,
        Planned::Invoke(_) => panic!("dry run must not leave a command to run"),
    };
    assert!(resp2.ok);
    assert!(resp2.stdout.unwrap().contains("scoop uninstall"));

    let plan = install_scoop(&BootstrapOptions { dry_run: Some(true), timeout_seconds: Some(1) });
    let boot = match plan {
        BootstrapPlan::Completed(r) => r,
        BootstrapPlan::Invoke(_) => panic!("dry run must not leave a command to run"),
    };
    let _ = ensure_bootstrap_response(&boot, None).unwrap();
}
