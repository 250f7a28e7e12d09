//! Package manager operations: operand validation, deterministic command
//! line assembly, dry-run planning, bootstrap planning, outcome mapping,
//! and the TTL-bounded detection cache.

use vstd::prelude::*;

use crate::sys::lossy_of;
use crate::sys::utf8_lossy;
use crate::text::contains_at;
use crate::text::contains_seq;
use crate::text::join_char;
use crate::text::join_parts;
use crate::text::push_char;
use crate::text::trim_spec;
use crate::text::trim_str;

verus! {

broadcast use vstd::string::group_string_axioms;

/// Default timeout for a package operation, in seconds.
pub const DEFAULT_TIMEOUT_SECS: u64 = 600;

/// Default timeout for the bootstrap install, in seconds.
pub const BOOTSTRAP_TIMEOUT_SECS: u64 = 120;

/// Timeout for a version probe, in seconds.
pub const VERSION_CHECK_TIMEOUT_SECS: u64 = 10;

/// Options for a package install or uninstall.
#[derive(Debug, Default)]
pub struct InstallOptions {
    /// Timeout in seconds; the operation default when absent.
    pub timeout_seconds: Option<u64>,
    /// Install for every user; needs elevation.
    pub global: Option<bool>,
    /// Build the command line without spawning anything.
    pub dry_run: Option<bool>,
    /// Extra arguments appended last, in order.
    pub extra_args: Option<Vec<String>>,
}

impl InstallOptions {
    pub open spec fn dry_run_or_default(self) -> bool {
        match self.dry_run {
            Some(b) => b,
            None => false,
        }
    }

    pub open spec fn global_or_default(self) -> bool {
        match self.global {
            Some(b) => b,
            None => false,
        }
    }

    pub open spec fn timeout_or_default(self) -> u64 {
        match self.timeout_seconds {
            Some(t) => t,
            None => DEFAULT_TIMEOUT_SECS,
        }
    }

    pub open spec fn extra_or_default(self) -> Seq<Seq<char>> {
        match self.extra_args {
            Some(v) => v.deep_view(),
            None => Seq::empty(),
        }
    }
}

/// Options for the bootstrap install.
#[derive(Debug, Default)]
pub struct BootstrapOptions {
    pub timeout_seconds: Option<u64>,
    pub dry_run: Option<bool>,
}

impl BootstrapOptions {
    pub open spec fn dry_run_or_default(self) -> bool {
        match self.dry_run {
            Some(b) => b,
            None => false,
        }
    }

    pub open spec fn timeout_or_default(self) -> u64 {
        match self.timeout_seconds {
            Some(t) => t,
            None => BOOTSTRAP_TIMEOUT_SECS,
        }
    }
}

/// The uniform response of a package operation.
#[derive(Debug, Clone)]
pub struct ActionResp {
    pub ok: bool,
    pub stdout: Option<String>,
    pub stderr: Option<String>,
    pub code: i32,
    pub error: Option<String>,
}

/// The response of a detection query.
#[derive(Debug, Clone)]
pub struct DetectResp {
    pub installed: bool,
    pub version: Option<String>,
    pub error: Option<String>,
    pub source: Option<String>,
    pub cached: bool,
}

/// The package manager errors.
#[derive(Debug)]
pub enum ScoopError {
    /// No shell interpreter was found on the machine.
    PowerShellNotAvailable(String),
    /// The process could not be started; carries the OS description.
    CommandSpawn(String),
    /// Execution exceeded the allotted seconds and was terminated.
    Timeout { secs: u64 },
    /// The process finished with a failure status.
    CommandFailed { code: Option<i32>, stderr: String },
    /// The operand was empty after trimming.
    InvalidPackageName,
}

impl ScoopError {
    /// The human-readable description of the error.
    pub open spec fn message_spec(self) -> Seq<char> {
        match self {
            ScoopError::PowerShellNotAvailable(d) => "PowerShell is not available: "@ + d@,
            ScoopError::CommandSpawn(d) => "failed to start the command: "@ + d@,
            ScoopError::Timeout { secs } => "command timed out after "@ + crate::text::dec_spec(
                secs as nat,
            ) + "s"@,
            ScoopError::CommandFailed { code, stderr } => "command failed: "@ + stderr@,
            ScoopError::InvalidPackageName => "package name is empty or invalid"@,
        }
    }

    /// The human-readable description of the error.
    pub fn message(&self) -> (r: String)
        ensures
            r@ == self.message_spec(),
    {
        match self {
            ScoopError::PowerShellNotAvailable(d) => {
                let mut s = String::from_str("PowerShell is not available: ");
                s.append(d.as_str());
                s
            },
            ScoopError::CommandSpawn(d) => {
                let mut s = String::from_str("failed to start the command: ");
                s.append(d.as_str());
                s
            },
            ScoopError::Timeout { secs } => {
                let mut s = String::from_str("command timed out after ");
                let num = crate::text::u64_to_string(*secs);
                s.append(num.as_str());
                s.append("s");
                s
            },
            ScoopError::CommandFailed { code: _, stderr } => {
                let mut s = String::from_str("command failed: ");
                s.append(stderr.as_str());
                s
            },
            ScoopError::InvalidPackageName => String::from_str("package name is empty or invalid"),
        }
    }
}

/// The interpreter arguments wrapping one script: no profile, a bypassed
/// execution policy, and the script as the command.
pub fn build_ps_command_args(script: &str) -> (r: Vec<String>)
    ensures
        r.deep_view() == seq![
            "-NoProfile"@,
            "-ExecutionPolicy"@,
            "Bypass"@,
            "-Command"@,
            script@,
        ],
{
    let mut args: Vec<String> = Vec::new();
    args.push(String::from_str("-NoProfile"));
    args.push(String::from_str("-ExecutionPolicy"));
    args.push(String::from_str("Bypass"));
    args.push(String::from_str("-Command"));
    args.push(script.to_owned());
    proof {
        assert(args.deep_view() =~= seq![
            "-NoProfile"@,
            "-ExecutionPolicy"@,
            "Bypass"@,
            "-Command"@,
            script@,
        ]);
    }
    args
}

/// The ordered tokens of an install command line.
pub open spec fn install_tokens(pkg: Seq<char>, global: bool, extra: Seq<Seq<char>>) -> Seq<
    Seq<char>,
> {
    seq!["scoop install"@] + (if global {
        seq!["--global"@]
    } else {
        Seq::empty()
    }) + seq![pkg] + extra
}

/// The install command line: base tokens, modifier flag, operand, then
/// the caller's extra arguments, space-joined.
pub open spec fn install_cmdline_spec(pkg: Seq<char>, global: bool, extra: Seq<Seq<char>>) -> Seq<
    char,
> {
    join_char(install_tokens(pkg, global, extra), ' ')
}

/// The ordered tokens of an uninstall command line.
pub open spec fn uninstall_tokens(pkg: Seq<char>, purge: bool) -> Seq<Seq<char>> {
    seq!["scoop uninstall"@] + (if purge {
        seq!["--purge"@]
    } else {
        Seq::empty()
    }) + seq![pkg]
}

/// The uninstall command line.
pub open spec fn uninstall_cmdline_spec(pkg: Seq<char>, purge: bool) -> Seq<char> {
    join_char(uninstall_tokens(pkg, purge), ' ')
}

/// A script to run under the interpreter, with its timeout.
#[derive(Debug)]
pub struct CommandSpec {
    pub script: String,
    pub timeout_secs: u64,
}

/// What a validated operation asks for: either it is already complete
/// (dry-run, with its synthetic response), or a command remains to be
/// supervised.
#[derive(Debug)]
pub enum Planned {
    Completed(ActionResp),
    Invoke(CommandSpec),
}

/// The synthetic response of a dry-run: success, the command line as
/// stdout, exit code zero, nothing else.
fn dry_run_response(script: String) -> (r: ActionResp)
    ensures
        r.ok,
        r.stdout == Some(script),
        r.stderr is None,
        r.code == 0,
        r.error is None,
{
    ActionResp { ok: true, stdout: Some(script), stderr: None, code: 0, error: None }
}

/// Validates the operand and builds the install invocation.  An operand
/// that trims to nothing is `InvalidPackageName`, whatever the options.
/// In dry-run mode the result is complete, with the command line as its
/// output and no process to run; otherwise the command and its timeout
/// remain to be supervised.
pub fn install_package(pkg: &str, opts: &InstallOptions) -> (r: Result<Planned, ScoopError>)
    ensures
        r is Err <==> trim_spec(pkg@).len() == 0,
        r matches Err(e) ==> e is InvalidPackageName,
        r matches Ok(p) ==> {
            let cmd = install_cmdline_spec(
                trim_spec(pkg@),
                opts.global_or_default(),
                opts.extra_or_default(),
            );
            if opts.dry_run_or_default() {
                p matches Planned::Completed(a) && (a.ok && a.code == 0 && a.error is None
                    && a.stderr is None && a.stdout is Some && a.stdout->Some_0@ == cmd)
            } else {
                p matches Planned::Invoke(c) && c.script@ == cmd && c.timeout_secs
                    == opts.timeout_or_default()
            }
        },
{
    let trimmed = trim_str(pkg);
    if trimmed.as_str().is_empty() {
        return Err(ScoopError::InvalidPackageName);
    }
    let global = match opts.global {
        Some(b) => b,
        None => false,
    };
    let dry_run = match opts.dry_run {
        Some(b) => b,
        None => false,
    };
    let timeout_secs = match opts.timeout_seconds {
        Some(t) => t,
        None => DEFAULT_TIMEOUT_SECS,
    };

    let mut tokens: Vec<String> = Vec::new();
    tokens.push(String::from_str("scoop install"));
    if global {
        tokens.push(String::from_str("--global"));
    }
    let ghost tv = trimmed@;
    tokens.push(trimmed);
    let ghost base = tokens.deep_view();
    proof {
        assert(base =~= seq!["scoop install"@] + (if global {
            seq!["--global"@]
        } else {
            Seq::<Seq<char>>::empty()
        }) + seq![tv]);
    }
    if let Some(extra) = &opts.extra_args {
        let n = extra.len();
        let mut i: usize = 0;
        proof {
            assert(base + extra.deep_view().take(0) =~= base);
        }
        while i < n
            invariant
                0 <= i <= n,
                n == extra@.len(),
                extra.deep_view().len() == n,
                tokens.deep_view() == base + extra.deep_view().take(i as int),
            decreases n - i,
        {
            let ghost dv = tokens.deep_view();
            tokens.push(extra[i].clone());
            proof {
                assert(tokens.deep_view() =~= dv.push(extra.deep_view()[i as int]));
                assert(base + extra.deep_view().take(i + 1) =~= dv.push(
                    extra.deep_view()[i as int],
                ));
            }
            i = i + 1;
        }
        proof {
            assert(extra.deep_view().take(n as int) =~= extra.deep_view());
        }
    } else {
        proof {
            assert(base + Seq::<Seq<char>>::empty() =~= base);
        }
    }
    proof {
        assert(tokens.deep_view() =~= install_tokens(
            trim_spec(pkg@),
            opts.global_or_default(),
            opts.extra_or_default(),
        ));
    }
    let script = join_parts(&tokens, ' ');
    if dry_run {
        Ok(Planned::Completed(dry_run_response(script)))
    } else {
        Ok(Planned::Invoke(CommandSpec { script, timeout_secs }))
    }
}

/// Validates the operand and builds the uninstall invocation; `purge`
/// adds the purge flag before the operand.  The modifier and extra
/// options of an install do not apply here.
pub fn uninstall_package(pkg: &str, purge: bool, opts: &InstallOptions) -> (r: Result<
    Planned,
    ScoopError,
>)
    ensures
        r is Err <==> trim_spec(pkg@).len() == 0,
        r matches Err(e) ==> e is InvalidPackageName,
        r matches Ok(p) ==> {
            let cmd = uninstall_cmdline_spec(trim_spec(pkg@), purge);
            if opts.dry_run_or_default() {
                p matches Planned::Completed(a) && (a.ok && a.code == 0 && a.error is None
                    && a.stderr is None && a.stdout is Some && a.stdout->Some_0@ == cmd)
            } else {
                p matches Planned::Invoke(c) && c.script@ == cmd && c.timeout_secs
                    == opts.timeout_or_default()
            }
        },
{
    let trimmed = trim_str(pkg);
    if trimmed.as_str().is_empty() {
        return Err(ScoopError::InvalidPackageName);
    }
    let dry_run = match opts.dry_run {
        Some(b) => b,
        None => false,
    };
    let timeout_secs = match opts.timeout_seconds {
        Some(t) => t,
        None => DEFAULT_TIMEOUT_SECS,
    };

    let mut tokens: Vec<String> = Vec::new();
    tokens.push(String::from_str("scoop uninstall"));
    if purge {
        tokens.push(String::from_str("--purge"));
    }
    let ghost tv = trimmed@;
    tokens.push(trimmed);
    proof {
        assert(tokens.deep_view() =~= uninstall_tokens(trim_spec(pkg@), purge));
    }
    let script = join_parts(&tokens, ' ');
    if dry_run {
        Ok(Planned::Completed(dry_run_response(script)))
    } else {
        Ok(Planned::Invoke(CommandSpec { script, timeout_secs }))
    }
}

/// The execution-policy script run before the bootstrap install.
pub open spec fn set_policy_spec() -> Seq<char> {
    "Set-ExecutionPolicy -ExecutionPolicy RemoteSigned -Scope CurrentUser -Force"@
}

/// The bootstrap install script.
pub open spec fn bootstrap_script_spec() -> Seq<char> {
    "Invoke-RestMethod -Uri https://get.scoop.sh | Invoke-Expression"@
}

/// The dry-run transcript of a bootstrap: both scripts, one per line.
pub open spec fn bootstrap_dry_run_spec() -> Seq<char> {
    set_policy_spec() + seq!['\n'] + bootstrap_script_spec()
}

/// A bootstrap invocation: the policy script, then the install script,
/// each under the same timeout.
#[derive(Debug)]
pub struct BootstrapInvocation {
    pub set_policy_script: String,
    pub install_script: String,
    pub timeout_secs: u64,
}

/// A planned bootstrap: complete in dry-run mode, otherwise the two
/// scripts remain to be supervised in order.
#[derive(Debug)]
pub enum BootstrapPlan {
    Completed(ActionResp),
    Invoke(BootstrapInvocation),
}

/// Plans the bootstrap install.  Dry-run is complete, with both scripts
/// as the output and no process to run; otherwise the policy script and
/// the install script remain to be run in that order.
pub fn install_scoop(opts: &BootstrapOptions) -> (r: BootstrapPlan)
    ensures
        opts.dry_run_or_default() ==> (r matches BootstrapPlan::Completed(a) && (a.ok && a.code
            == 0 && a.error is None && a.stderr is None && a.stdout is Some && a.stdout->Some_0@
            == bootstrap_dry_run_spec())),
        !opts.dry_run_or_default() ==> (r matches BootstrapPlan::Invoke(b) && b.set_policy_script@
            == set_policy_spec() && b.install_script@ == bootstrap_script_spec() && b.timeout_secs
            == opts.timeout_or_default()),
{
    let dry_run = match opts.dry_run {
        Some(b) => b,
        None => false,
    };
    let timeout_secs = match opts.timeout_seconds {
        Some(t) => t,
        None => BOOTSTRAP_TIMEOUT_SECS,
    };
    let set_policy = String::from_str(
        "Set-ExecutionPolicy -ExecutionPolicy RemoteSigned -Scope CurrentUser -Force",
    );
    let install_cmd = String::from_str(
        "Invoke-RestMethod -Uri https://get.scoop.sh | Invoke-Expression",
    );
    if dry_run {
        let mut combined = set_policy;
        push_char(&mut combined, '\n');
        combined.append(install_cmd.as_str());
        proof {
            assert(set_policy_spec().push('\n') + bootstrap_script_spec() =~= set_policy_spec()
                + seq!['\n'] + bootstrap_script_spec());
        }
        BootstrapPlan::Completed(dry_run_response(combined))
    } else {
        BootstrapPlan::Invoke(
            BootstrapInvocation {
                set_policy_script: set_policy,
                install_script: install_cmd,
                timeout_secs,
            },
        )
    }
}

/// Captured output as text: nothing for no bytes, otherwise the bytes
/// decoded leniently.
pub fn parse_output(output: &[u8]) -> (r: Option<String>)
    ensures
        output@.len() == 0 ==> r is None,
        output@.len() > 0 ==> (r matches Some(s) && s@ == lossy_of(output@)),
{
    if output.len() == 0 {
        None
    } else {
        Some(utf8_lossy(output))
    }
}

/// Maps a finished package command into the response or the error: a
/// success status gives `ok` with the captured output and the exit code
/// (zero when none); anything else is `CommandFailed` with the exit code
/// and the stderr text, empty when nothing was captured.
pub fn package_outcome(success: bool, code: Option<i32>, stdout: &[u8], stderr: &[u8]) -> (r: Result<
    ActionResp,
    ScoopError,
>)
    ensures
        r is Ok <==> success,
        r matches Ok(a) ==> a.ok && a.error is None && a.code == (match code {
            Some(c) => c as int,
            None => 0int,
        }) && (a.stdout matches Some(s) ==> s@ == lossy_of(stdout@)) && (a.stdout is None <==> stdout@.len()
            == 0) && (a.stderr matches Some(s) ==> s@ == lossy_of(stderr@)) && (a.stderr is None
            <==> stderr@.len() == 0),
        r matches Err(e) ==> (e matches ScoopError::CommandFailed { code: cc, stderr: ss } && cc
            == code && (stderr@.len() == 0 ==> ss@.len() == 0) && (stderr@.len() > 0 ==> ss@
            == lossy_of(stderr@))),
{
    if success {
        let c = match code {
            Some(c) => c,
            None => 0,
        };
        Ok(
            ActionResp {
                ok: true,
                stdout: parse_output(stdout),
                stderr: parse_output(stderr),
                code: c,
                error: None,
            },
        )
    } else {
        let s = match parse_output(stderr) {
            Some(s) => s,
            None => String::new(),
        };
        Err(ScoopError::CommandFailed { code, stderr: s })
    }
}

/// Maps a finished version probe: success hands back the probe's stdout,
/// trimmed; failure is `CommandFailed` with the trimmed stderr.
pub fn version_from_output(success: bool, code: Option<i32>, stdout: &[u8], stderr: &[u8]) -> (r:
    Result<String, ScoopError>)
    ensures
        r is Ok <==> success,
        r matches Ok(v) ==> v@ == trim_spec(lossy_of(stdout@)),
        r matches Err(e) ==> (e matches ScoopError::CommandFailed { code: cc, stderr: ss } && cc
            == code && ss@ == trim_spec(lossy_of(stderr@))),
{
    if success {
        let text = utf8_lossy(stdout);
        Ok(trim_str(text.as_str()))
    } else {
        let text = utf8_lossy(stderr);
        let trimmed = trim_str(text.as_str());
        Err(ScoopError::CommandFailed { code, stderr: trimmed })
    }
}

/// Maps the policy stage of a bootstrap: it either succeeded, or the
/// bootstrap stops with `CommandFailed` carrying the full stderr text.
pub fn bootstrap_policy_outcome(success: bool, code: Option<i32>, stderr: &[u8]) -> (r: Result<
    (),
    ScoopError,
>)
    ensures
        r is Ok <==> success,
        r matches Err(e) ==> (e matches ScoopError::CommandFailed { code: cc, stderr: ss } && cc
            == code && ss@ == lossy_of(stderr@)),
{
    if success {
        Ok(())
    } else {
        Err(ScoopError::CommandFailed { code, stderr: utf8_lossy(stderr) })
    }
}

/// The cache time-to-live, in milliseconds.
pub const CACHE_TTL_MILLIS: u64 = 60000;

/// One detection result with the time it was observed.
#[derive(Debug, Clone)]
pub struct DetectionEntry {
    pub last_check_millis: u64,
    pub installed: bool,
    pub version: Option<String>,
}

/// The entry is young enough to trust at `now`.  A clock that moved
/// backwards counts as fresh, as an elapsed time of zero would.
pub open spec fn fresh_at(e: DetectionEntry, now: u64) -> bool {
    now <= e.last_check_millis || now - e.last_check_millis <= CACHE_TTL_MILLIS
}

/// The detection cache: at most one entry, overwritten whole on every
/// fresh check and trusted only within the TTL.
#[derive(Debug)]
pub struct DetectionCacheState {
    pub entry: Option<DetectionEntry>,
}

fn clone_opt(v: &Option<String>) -> (r: Option<String>)
    ensures
        r == *v,
{
    match v {
        Some(s) => Some(s.clone()),
        None => None,
    }
}

impl DetectionCacheState {
    /// What a read at `now` answers: the stored pair while the entry is
    /// fresh, nothing otherwise.
    pub open spec fn lookup_spec(self, now: u64) -> Option<(bool, Option<String>)> {
        match self.entry {
            Some(e) => if fresh_at(e, now) {
                Some((e.installed, e.version))
            } else {
                None
            },
            None => None,
        }
    }

    pub fn new() -> (r: DetectionCacheState)
        ensures
            r.entry is None,
    {
        DetectionCacheState { entry: None }
    }

    /// A read at `now`: a hit only while the entry is fresh, served from
    /// the cache with `cached` set; an absent or expired entry answers
    /// nothing, which forces a live check.
    pub fn get_at(&self, now: u64) -> (r: Option<DetectResp>)
        ensures
            r is Some <==> self.lookup_spec(now) is Some,
            r matches Some(d) ==> (self.lookup_spec(now) == Some((d.installed, d.version)) && d.cached
                && d.error is None && d.source is Some && d.source->Some_0@ == "cache"@),
    {
        match &self.entry {
            Some(e) => {
                let fresh = if now <= e.last_check_millis {
                    true
                } else {
                    now - e.last_check_millis <= CACHE_TTL_MILLIS
                };
                if fresh {
                    Some(
                        DetectResp {
                            installed: e.installed,
                            version: clone_opt(&e.version),
                            error: None,
                            source: Some(String::from_str("cache")),
                            cached: true,
                        },
                    )
                } else {
                    None
                }
            },
            None => None,
        }
    }

    /// Overwrites the entry whole with a result observed at `now`.
    pub fn put(&mut self, now: u64, installed: bool, version: Option<String>)
        ensures
            final(self).entry == Some(
                DetectionEntry { last_check_millis: now, installed, version },
            ),
    {
        self.entry = Some(DetectionEntry { last_check_millis: now, installed, version });
    }
}

/// A snapshot of the detection cache at the machine's clock.  Which
/// instant the clock answers is not promised; whatever it is, a hit
/// reflects the stored entry at that instant and is marked as cached.
pub fn detection_cache(cache: &DetectionCacheState) -> (r: Option<DetectResp>)
    ensures
        r matches Some(d) ==> (d.cached && d.error is None && d.source is Some
            && d.source->Some_0@ == "cache"@ && (exists|now: u64|
            cache.lookup_spec(now) == Some((d.installed, d.version)))),
{
    let now = crate::sys::now_millis();
    let r = cache.get_at(now);
    proof {
        if r is Some {
            assert(cache.lookup_spec(now) == Some((r->Some_0.installed, r->Some_0.version)));
        }
    }
    r
}

/// Law: reads of one cache state inside the TTL window agree; the second
/// call answers the same installed flag and version as the first.
pub proof fn lemma_cache_idempotent(c: DetectionCacheState, now1: u64, now2: u64)
    requires
        c.lookup_spec(now1) is Some,
        c.lookup_spec(now2) is Some,
    ensures
        c.lookup_spec(now1) == c.lookup_spec(now2),
{
}

/// Law: once more than the TTL has elapsed since the entry was written,
/// a read answers nothing, so the caller must perform a live check.
pub proof fn lemma_cache_expired(c: DetectionCacheState, now: u64)
    requires
        c.entry is Some,
        now > c.entry->Some_0.last_check_millis,
        now - c.entry->Some_0.last_check_millis > CACHE_TTL_MILLIS,
    ensures
        c.lookup_spec(now) is None,
{
}

/// Law: a freshly written entry is served back, unchanged, at any instant
/// up to the TTL after the write.
pub proof fn lemma_put_then_fresh(c: DetectionCacheState, now: u64, later: u64)
    requires
        c.entry is Some,
        c.entry->Some_0.last_check_millis == now,
        later <= now + CACHE_TTL_MILLIS,
    ensures
        c.lookup_spec(later) == Some((c.entry->Some_0.installed, c.entry->Some_0.version)),
{
}

/// Where the package manager's home directory would be, read from the
/// environment: the `SCOOP` variable, then `SCOOP_HOME`, then `scoop`
/// under the user profile; nothing when none of the three is set.
pub open spec fn scoop_home_spec(env: crate::env::EnvMap) -> Option<Seq<char>> {
    if env.spec_get("SCOOP"@) is Some {
        env.spec_get("SCOOP"@)
    } else if env.spec_get("SCOOP_HOME"@) is Some {
        env.spec_get("SCOOP_HOME"@)
    } else if env.spec_get("USERPROFILE"@) is Some {
        Some(env.spec_get("USERPROFILE"@)->Some_0 + "\\scoop"@)
    } else {
        None
    }
}

/// Where the package manager's home directory would be.
pub fn scoop_home_candidate(env: &crate::env::EnvMap) -> (r: Option<String>)
    ensures
        match r {
            Some(s) => scoop_home_spec(*env) == Some(s@),
            None => scoop_home_spec(*env) is None,
        },
{
    if let Some(v) = env.get("SCOOP") {
        return Some(v.clone());
    }
    if let Some(v) = env.get("SCOOP_HOME") {
        return Some(v.clone());
    }
    if let Some(v) = env.get("USERPROFILE") {
        let mut s = v.clone();
        s.append("\\scoop");
        return Some(s);
    }
    None
}

/// What a live probe of the machine found.
#[derive(Debug, Clone, Copy)]
pub enum ScoopPresence {
    /// The executable resolves on the search path.
    OnPath,
    /// Not on the path; whether the home directory exists on disk.
    HomeDir(bool),
}

/// Probes the machine: the search path first, then the home directory
/// taken from the environment.  The path and disk answers are the
/// machine's and are not promised; what is promised is that with no home
/// candidate in the environment, nothing is checked on disk and the probe
/// reports absence.
pub fn probe_scoop_presence(env: &crate::env::EnvMap) -> (r: ScoopPresence)
    ensures
        r matches ScoopPresence::HomeDir(found) ==> (scoop_home_spec(*env) is None ==> !found),
{
    if crate::sys::which_binary("scoop").is_some() {
        return ScoopPresence::OnPath;
    }
    match scoop_home_candidate(env) {
        Some(p) => ScoopPresence::HomeDir(crate::sys::path_exists(p.as_str())),
        None => ScoopPresence::HomeDir(false),
    }
}

/// The installed flag a probe decides.
pub open spec fn detected_installed(p: ScoopPresence) -> bool {
    match p {
        ScoopPresence::OnPath => true,
        ScoopPresence::HomeDir(found) => found,
    }
}

/// The version a probe decides: kept only for a tool found on the path; a
/// failed version probe does not invalidate the positive determination,
/// the entry just carries no version.
pub open spec fn detected_version(p: ScoopPresence, probed: Option<String>) -> Option<String> {
    match p {
        ScoopPresence::OnPath => probed,
        ScoopPresence::HomeDir(_) => None,
    }
}

/// Records a live detection in the cache, overwriting the entry whole,
/// and answers the installed flag.
pub fn record_detection(
    cache: &mut DetectionCacheState,
    now: u64,
    presence: ScoopPresence,
    probed_version: Option<String>,
) -> (r: bool)
    ensures
        r == detected_installed(presence),
        final(cache).entry == Some(
            DetectionEntry {
                last_check_millis: now,
                installed: detected_installed(presence),
                version: detected_version(presence, probed_version),
            },
        ),
{
    let installed = match presence {
        ScoopPresence::OnPath => true,
        ScoopPresence::HomeDir(found) => found,
    };
    let version = match presence {
        ScoopPresence::OnPath => probed_version,
        ScoopPresence::HomeDir(_) => None,
    };
    cache.put(now, installed, version);
    installed
}

/// Finds the shell interpreter on the machine; its absence is the
/// `PowerShellNotAvailable` error.  Whether one is found depends on the
/// machine and is not promised.
pub fn resolve_interpreter() -> (r: Result<String, ScoopError>)
    ensures
        r matches Err(e) ==> e is PowerShellNotAvailable,
{
    let found = match crate::sys::which_binary("pwsh.exe") {
        Some(p) => Some(p),
        None => crate::sys::which_binary("powershell.exe"),
    };
    match found {
        Some(p) => Ok(p),
        None => Err(
            ScoopError::PowerShellNotAvailable(
                String::from_str("no PowerShell executable was found"),
            ),
        ),
    }
}

/// The detection response for a tool that was already installed.
pub fn ensure_detect_response(version: Option<String>, cached: bool) -> (r: DetectResp)
    ensures
        r.installed,
        r.version == version,
        r.error is None,
        r.cached == cached,
        r.source is Some && r.source->Some_0@ == "detect"@,
{
    DetectResp {
        installed: true,
        version,
        error: None,
        source: Some(String::from_str("detect")),
        cached,
    }
}

/// The detection response after a bootstrap attempt: a successful
/// bootstrap reports an installed tool from the bootstrap source; a
/// failed one surfaces its exit code and stderr as `CommandFailed`.
pub fn ensure_bootstrap_response(res: &ActionResp, version: Option<String>) -> (r: Result<
    DetectResp,
    ScoopError,
>)
    ensures
        r is Ok <==> res.ok,
        r matches Ok(d) ==> (d.installed && d.version == version && d.error is None && !d.cached
            && d.source is Some && d.source->Some_0@ == "bootstrap"@),
        r matches Err(e) ==> (e matches ScoopError::CommandFailed { code: cc, stderr: ss } && cc
            == Some(res.code) && ss@ == (match res.stderr {
            Some(st) => st@,
            None => Seq::<char>::empty(),
        })),
{
    if res.ok {
        Ok(
            DetectResp {
                installed: true,
                version,
                error: None,
                source: Some(String::from_str("bootstrap")),
                cached: false,
            },
        )
    } else {
        let stderr = match &res.stderr {
            Some(st) => st.clone(),
            None => String::new(),
        };
        Err(ScoopError::CommandFailed { code: Some(res.code), stderr })
    }
}

/// The outward response for an error: `ok = false`, code `-1`, and the
/// error's description, so a caller always receives a normalized result.
pub fn error_response(e: &ScoopError) -> (r: ActionResp)
    ensures
        !r.ok,
        r.code == -1,
        r.stdout is None,
        r.stderr is None,
        r.error is Some && r.error->Some_0@ == e.message_spec(),
{
    ActionResp { ok: false, stdout: None, stderr: None, code: -1, error: Some(e.message()) }
}

/// An install request as the application shell hands it over.
#[derive(Debug)]
pub struct InstallReq {
    pub package: String,
    pub global: Option<bool>,
    pub timeout_seconds: Option<u64>,
    pub dry_run: Option<bool>,
    pub extra_args: Option<Vec<String>>,
}

impl InstallReq {
    /// The options the request carries.
    pub fn into_options(self) -> (r: (String, InstallOptions))
        ensures
            r.0 == self.package,
            r.1.timeout_seconds == self.timeout_seconds,
            r.1.global == self.global,
            r.1.dry_run == self.dry_run,
            r.1.extra_args == self.extra_args,
    {
        let InstallReq { package, global, timeout_seconds, dry_run, extra_args } = self;
        (package, InstallOptions { timeout_seconds, global, dry_run, extra_args })
    }
}

/// The outward shape of a detection result.
#[derive(Debug)]
pub struct DetectCmdResp {
    pub ok: bool,
    pub installed: bool,
    pub version: Option<String>,
    pub error: Option<String>,
    pub cached: bool,
}

impl DetectCmdResp {
    /// A completed detection.
    pub fn from_detection(installed: bool, version: Option<String>, cached: bool) -> (r:
        DetectCmdResp)
        ensures
            r.ok,
            r.installed == installed,
            r.version == version,
            r.error is None,
            r.cached == cached,
    {
        DetectCmdResp { ok: true, installed, version, error: None, cached }
    }

    /// A failed detection: never a fault, always a normalized result.
    pub fn from_error(e: &ScoopError) -> (r: DetectCmdResp)
        ensures
            !r.ok,
            !r.installed,
            r.version is None,
            r.error is Some && r.error->Some_0@ == e.message_spec(),
            !r.cached,
    {
        DetectCmdResp {
            ok: false,
            installed: false,
            version: None,
            error: Some(e.message()),
            cached: false,
        }
    }
}

proof fn lemma_join_head(parts: Seq<Seq<char>>, sep: char)
    requires
        parts.len() >= 1,
    ensures
        join_char(parts, sep).len() >= parts[0].len(),
        join_char(parts, sep).subrange(0, parts[0].len() as int) == parts[0],
{
    if parts.len() == 1 {
        assert(join_char(parts, sep).subrange(0, parts[0].len() as int) =~= parts[0]);
    } else {
        assert(join_char(parts, sep) == parts[0] + seq![sep] + join_char(parts.drop_first(), sep));
        assert(join_char(parts, sep).subrange(0, parts[0].len() as int) =~= parts[0]);
    }
}

/// Law: the install command line begins with its operation verb, so the
/// synthetic dry-run output contains the verb, whatever the operand, the
/// modifier and the extra arguments.
pub proof fn lemma_install_cmdline_verb(pkg: Seq<char>, global: bool, extra: Seq<Seq<char>>)
    ensures
        contains_seq(install_cmdline_spec(pkg, global, extra), "scoop install"@),
{
    let tokens = install_tokens(pkg, global, extra);
    assert(tokens[0] == "scoop install"@);
    lemma_join_head(tokens, ' ');
    assert(contains_at(install_cmdline_spec(pkg, global, extra), "scoop install"@, 0));
}

/// Law: the uninstall command line begins with its operation verb, so the
/// synthetic dry-run output contains the verb.
pub proof fn lemma_uninstall_cmdline_verb(pkg: Seq<char>, purge: bool)
    ensures
        contains_seq(uninstall_cmdline_spec(pkg, purge), "scoop uninstall"@),
{
    let tokens = uninstall_tokens(pkg, purge);
    assert(tokens[0] == "scoop uninstall"@);
    lemma_join_head(tokens, ' ');
    assert(contains_at(uninstall_cmdline_spec(pkg, purge), "scoop uninstall"@, 0));
}

} // verus!
