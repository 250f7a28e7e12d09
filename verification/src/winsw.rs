//! Service wrapper operations: action validation against the allow-list,
//! argument construction with the configuration-file rules, and mapping of
//! process outcomes into the uniform response.

use vstd::prelude::*;

use crate::sys::path_exists;
use crate::text::dec_spec;
use crate::text::normalize;
use crate::text::normalize_spec;
use crate::text::str_eq;
use crate::text::u64_to_string;

verus! {

broadcast use vstd::string::group_string_axioms;

/// Default timeout for a service action, in seconds.
pub const DEFAULT_TIMEOUT_SECS: u64 = 30;

/// The service wrapper errors.
#[derive(Debug)]
pub enum WinswError {
    /// The action is not in the allow-list; carries the caller's spelling.
    UnsupportedAction(String),
    /// The action needs a configuration file and none was supplied.
    ConfigRequired(String),
    /// The wrapper process could not be started.
    SpawnFailed(String),
    /// Waiting for the wrapper's output failed.
    WaitFailed(String),
    /// The action ran longer than the allotted seconds and was terminated.
    Timeout(u64),
    /// The supplied configuration file does not exist on disk.
    ConfigNotFound(String),
}

impl WinswError {
    /// The human-readable description of the error.
    pub open spec fn message_spec(self) -> Seq<char> {
        match self {
            WinswError::UnsupportedAction(a) => "unsupported service action: "@ + a@,
            WinswError::ConfigRequired(a) => "action '"@ + a@
                + "' requires a configuration file path"@,
            WinswError::SpawnFailed(e) => "failed to start the service wrapper: "@ + e@,
            WinswError::WaitFailed(e) => "failed to read the service wrapper output: "@ + e@,
            WinswError::Timeout(secs) => "service action timed out after "@ + dec_spec(secs as nat)
                + "s"@,
            WinswError::ConfigNotFound(p) => "configuration file not found: "@ + p@,
        }
    }

    /// The human-readable description of the error.
    pub fn message(&self) -> (r: String)
        ensures
            r@ == self.message_spec(),
    {
        match self {
            WinswError::UnsupportedAction(a) => {
                let mut s = String::from_str("unsupported service action: ");
                s.append(a.as_str());
                s
            },
            WinswError::ConfigRequired(a) => {
                let mut s = String::from_str("action '");
                s.append(a.as_str());
                s.append("' requires a configuration file path");
                s
            },
            WinswError::SpawnFailed(e) => {
                let mut s = String::from_str("failed to start the service wrapper: ");
                s.append(e.as_str());
                s
            },
            WinswError::WaitFailed(e) => {
                let mut s = String::from_str("failed to read the service wrapper output: ");
                s.append(e.as_str());
                s
            },
            WinswError::Timeout(secs) => {
                let mut s = String::from_str("service action timed out after ");
                let num = u64_to_string(*secs);
                s.append(num.as_str());
                s.append("s");
                s
            },
            WinswError::ConfigNotFound(p) => {
                let mut s = String::from_str("configuration file not found: ");
                s.append(p.as_str());
                s
            },
        }
    }
}

/// A service action request: overrides for the wrapper path, the
/// configuration file, the timeout and the environment.
pub struct ActionReq {
    pub winsw_path: Option<String>,
    pub config: Option<String>,
    pub timeout_seconds: Option<u64>,
    pub env_vars: Option<crate::env::EnvMap>,
}

/// The uniform response of a service action.
#[derive(Debug, Clone)]
pub struct ActionResp {
    pub ok: bool,
    pub stdout: Option<String>,
    pub stderr: Option<String>,
    pub code: i32,
    pub error: Option<String>,
}

impl ActionResp {
    /// A successful outcome with its captured output.
    pub fn success(stdout: Option<String>, stderr: Option<String>, code: i32) -> (r: ActionResp)
        ensures
            r.ok,
            r.stdout == stdout,
            r.stderr == stderr,
            r.code == code,
            r.error is None,
    {
        ActionResp { ok: true, stdout, stderr, code, error: None }
    }

    /// A failed outcome carrying only the code and the description.
    pub fn failure(code: i32, error: String) -> (r: ActionResp)
        ensures
            !r.ok,
            r.stdout is None,
            r.stderr is None,
            r.code == code,
            r.error == Some(error),
    {
        ActionResp { ok: false, stdout: None, stderr: None, code, error: Some(error) }
    }
}

/// The allow-list of service actions, in normal form.
pub open spec fn allowed_action(a: Seq<char>) -> bool {
    ||| a == "install"@
    ||| a == "uninstall"@
    ||| a == "start"@
    ||| a == "stop"@
    ||| a == "restart"@
    ||| a == "restart!"@
    ||| a == "status"@
    ||| a == "refresh"@
}

/// The actions that need a configuration file: the whole allow-list.
pub open spec fn requires_config_spec(a: Seq<char>) -> bool {
    allowed_action(a)
}

/// Whether the (already normalized) action needs a configuration file.
pub fn requires_config(action: &str) -> (r: bool)
    ensures
        r == requires_config_spec(action@),
{
    str_eq(action, "install") || str_eq(action, "uninstall") || str_eq(action, "start") || str_eq(
        action,
        "stop",
    ) || str_eq(action, "restart") || str_eq(action, "restart!") || str_eq(action, "status")
        || str_eq(action, "refresh")
}

/// Validates an action name: trimmed and lowercased, it must stand in the
/// allow-list; anything else is `UnsupportedAction` with the caller's own
/// spelling.
pub fn validate_action(action: &str) -> (r: Result<String, WinswError>)
    ensures
        r is Ok <==> allowed_action(normalize_spec(action@)),
        r matches Ok(a) ==> a@ == normalize_spec(action@),
        r matches Err(e) ==> (e matches WinswError::UnsupportedAction(orig) && orig@ == action@),
{
    let norm = normalize(action);
    if requires_config(norm.as_str()) {
        Ok(norm)
    } else {
        Err(WinswError::UnsupportedAction(action.to_owned()))
    }
}

/// Builds the wrapper's argument list from the action, the configuration
/// path, and the already-answered disk check: the action alone when no
/// configuration is needed; `ConfigRequired` when one is needed and none
/// was given; `ConfigNotFound` when the given one is not on disk.
pub fn build_command_args_with(action: &str, config: Option<&str>, config_exists: bool) -> (r:
    Result<Vec<String>, WinswError>)
    ensures
        !requires_config_spec(action@) ==> (r matches Ok(v) && v.deep_view() == seq![action@]),
        requires_config_spec(action@) && config is None ==> (r matches Err(e) && e matches
            WinswError::ConfigRequired(a) && a@ == action@),
        requires_config_spec(action@) && config is Some && !config_exists ==> (r matches Err(e)
            && e matches WinswError::ConfigNotFound(p) && p@ == config->Some_0@),
        requires_config_spec(action@) && config is Some && config_exists ==> (r matches Ok(v)
            && v.deep_view() == seq![action@, config->Some_0@]),
{
    let mut args: Vec<String> = Vec::new();
    args.push(action.to_owned());
    if requires_config(action) {
        match config {
            Some(cfg) => {
                if config_exists {
                    args.push(cfg.to_owned());
                    proof {
                        assert(args.deep_view() =~= seq![action@, cfg@]);
                    }
                    Ok(args)
                } else {
                    Err(WinswError::ConfigNotFound(cfg.to_owned()))
                }
            },
            None => Err(WinswError::ConfigRequired(action.to_owned())),
        }
    } else {
        proof {
            assert(args.deep_view() =~= seq![action@]);
        }
        Ok(args)
    }
}

/// Builds the wrapper's argument list, asking the disk whether the
/// configuration file exists.  The disk's answer is not promised, so for a
/// given configuration either outcome names that file.
pub fn build_command_args(action: &str, config: Option<&str>) -> (r: Result<Vec<String>, WinswError>)
    ensures
        !requires_config_spec(action@) ==> (r matches Ok(v) && v.deep_view() == seq![action@]),
        requires_config_spec(action@) && config is None ==> (r matches Err(e) && e matches
            WinswError::ConfigRequired(a) && a@ == action@),
        requires_config_spec(action@) && config is Some ==> ((r matches Ok(v) && v.deep_view()
            == seq![action@, config->Some_0@]) || (r matches Err(e) && e matches
            WinswError::ConfigNotFound(p) && p@ == config->Some_0@)),
{
    let exists = match config {
        Some(c) => path_exists(c),
        None => false,
    };
    build_command_args_with(action, config, exists)
}

/// Maps a finished process into the uniform response: exit code zero is
/// success with the captured output; anything else fails with the exit
/// code (`-1` when none) and the stderr text, or a fixed description when
/// stderr was empty.
pub fn outcome_response(
    success: bool,
    code: Option<i32>,
    stdout: Option<String>,
    stderr: Option<String>,
) -> (r: ActionResp)
    ensures
        r.ok == success,
        success ==> r.stdout == stdout && r.stderr == stderr && r.error is None && r.code == (
        match code {
            Some(c) => c,
            None => 0,
        }),
        !success ==> r.stdout is None && r.stderr is None && r.code == (match code {
            Some(c) => c as int,
            None => -1int,
        }) && (r.error matches Some(m) && m@ == (match stderr {
            Some(s) => s@,
            None => "service action failed"@,
        })),
{
    if success {
        let c = match code {
            Some(c) => c,
            None => 0,
        };
        ActionResp::success(stdout, stderr, c)
    } else {
        let c = match code {
            Some(c) => c,
            None => -1,
        };
        let msg = match stderr {
            Some(s) => s,
            None => String::from_str("service action failed"),
        };
        ActionResp::failure(c, msg)
    }
}

/// The outward response for an error: `ok = false`, code `-1`, and the
/// error's description.
pub fn error_response(e: &WinswError) -> (r: ActionResp)
    ensures
        !r.ok,
        r.code == -1,
        r.stdout is None,
        r.stderr is None,
        r.error matches Some(m) && m@ == e.message_spec(),
{
    ActionResp::failure(-1, e.message())
}

/// The wrapper executable the request asks for, defaulting to `winsw.exe`.
pub open spec fn winsw_path_spec(req: Option<ActionReq>) -> Seq<char> {
    match req {
        Some(q) => match q.winsw_path {
            Some(p) => p@,
            None => "winsw.exe"@,
        },
        None => "winsw.exe"@,
    }
}

/// The timeout the request asks for, defaulting to thirty seconds.
pub open spec fn winsw_timeout_spec(req: Option<ActionReq>) -> u64 {
    match req {
        Some(q) => match q.timeout_seconds {
            Some(t) => t,
            None => DEFAULT_TIMEOUT_SECS,
        },
        None => DEFAULT_TIMEOUT_SECS,
    }
}

/// The wrapper executable the request asks for.
pub fn effective_winsw_path(req: &Option<ActionReq>) -> (r: String)
    ensures
        r@ == winsw_path_spec(*req),
{
    match req {
        Some(q) => match &q.winsw_path {
            Some(p) => p.clone(),
            None => String::from_str("winsw.exe"),
        },
        None => String::from_str("winsw.exe"),
    }
}

/// The timeout the request asks for.
pub fn effective_timeout(req: &Option<ActionReq>) -> (r: u64)
    ensures
        r == winsw_timeout_spec(*req),
{
    match req {
        Some(q) => match q.timeout_seconds {
            Some(t) => t,
            None => DEFAULT_TIMEOUT_SECS,
        },
        None => DEFAULT_TIMEOUT_SECS,
    }
}

} // verus!
