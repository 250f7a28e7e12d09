use cmdcore::env::{enhance_scoop_env, enhance_winsw_env, EnvMap};

fn base_env(pairs: &[(&str, &str)]) -> EnvMap {
    let mut env = EnvMap::new();
    for (k, v) in pairs {
        env.set(k, v.to_string());
    }
    env
}

#[test]
fn test_get_enhanced_env() {
    let mut env = base_env(&[("PATH", "C:\\base")]);
    let custom = base_env(&[("CUSTOM_VAR", "value")]);
    enhance_winsw_env(&mut env, Some(&custom));

    assert!(env.get("CUSTOM_VAR").is_some());
    assert!(env.get("PATH").is_some());
    assert!(env.get("SystemRoot").is_some());
}

#[test]
fn env_map_set_and_get() {
    let mut env = EnvMap::new();
    assert!(env.get("A").is_none());
    env.set("A", "1".to_string());
    env.set("B", "2".to_string());
    env.set("A", "3".to_string());
    assert_eq!(env.get("A").unwrap(), "3");
    assert_eq!(env.get("B").unwrap(), "2");
    assert_eq!(env.entries().len(), 2);
}

#[test]
fn scoop_env_injects_paths_and_roots() {
    let mut env = base_env(&[
        ("PATH", "C:\\base"),
        ("USERPROFILE", "C:\\Users\\u"),
        ("ProgramData", "C:\\PD"),
        ("HOMEDRIVE", "C:"),
    ]);
    enhance_scoop_env(&mut env);
    assert_eq!(
        env.get("PATH").unwrap(),
        "C:\\PD\\scoop\\shims;C:\\Users\\u\\scoop\\apps\\scoop\\current\\bin;C:\\Users\\u\\scoop\\shims;C:\\base"
    );
    assert_eq!(env.get("SCOOP").unwrap(), "C:\\aidex\\scoop");
    assert_eq!(env.get("SCOOP_GLOBAL").unwrap(), "C:\\PD\\aidex\\scoop");
}

#[test]
fn scoop_env_falls_back_without_sources() {
    let mut env = base_env(&[("PATH", "C:\\base")]);
    enhance_scoop_env(&mut env);
    assert_eq!(env.get("PATH").unwrap(), "C:\\base");
    assert_eq!(env.get("SCOOP").unwrap(), "C:\\aidex\\scoop");
    assert_eq!(env.get("SCOOP_GLOBAL").unwrap(), "C:\\aidex\\scoop");
}

#[test]
fn scoop_env_composition_is_idempotent() {
    let mut env = base_env(&[
        ("PATH", "C:\\base"),
        ("USERPROFILE", "C:\\Users\\u"),
        ("ProgramData", "C:\\ProgramData"),
    ]);
    enhance_scoop_env(&mut env);
    let once = env.get("PATH").unwrap().clone();
    enhance_scoop_env(&mut env);
    assert_eq!(env.get("PATH").unwrap(), &once);
}

#[test]
fn winsw_env_appends_missing_system_paths() {
    let mut env = base_env(&[("PATH", "c:\\windows\\SYSTEM32")]);
    enhance_winsw_env(&mut env, None);
    assert_eq!(
        env.get("PATH").unwrap(),
        "c:\\windows\\SYSTEM32;C:\\Windows;C:\\Windows\\System32\\Wbem;C:\\Windows\\System32\\WindowsPowerShell\\v1.0"
    );
    assert_eq!(env.get("SystemRoot").unwrap(), "C:\\Windows");
}

#[test]
fn winsw_env_keeps_existing_system_root() {
    let mut env = base_env(&[("SystemRoot", "D:\\Win")]);
    enhance_winsw_env(&mut env, None);
    assert_eq!(env.get("SystemRoot").unwrap(), "D:\\Win");
}

#[test]
fn winsw_env_custom_overrides_win() {
    let mut env = base_env(&[("PATH", "C:\\base"), ("KEEP", "old")]);
    let custom = base_env(&[("PATH", "override"), ("NEW", "fresh")]);
    enhance_winsw_env(&mut env, Some(&custom));
    assert_eq!(env.get("PATH").unwrap(), "override");
    assert_eq!(env.get("KEEP").unwrap(), "old");
    assert_eq!(env.get("NEW").unwrap(), "fresh");
}

#[test]
fn winsw_env_composition_is_idempotent() {
    let mut env = base_env(&[("PATH", "C:\\base")]);
    enhance_winsw_env(&mut env, None);
    let once = env.get("PATH").unwrap().clone();
    enhance_winsw_env(&mut env, None);
    assert_eq!(env.get("PATH").unwrap(), &once);
}
