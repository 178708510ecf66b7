//! The process supervisor: spawn-once / shutdown-idempotent state machine for
//! the single child process, and the verified construction of the command the
//! harness spawns.
//!
//! The supervisor itself never touches the operating system.  `start` and
//! `shutdown` decide; the unverified harness performs the spawn or the
//! terminate-and-wait they request and reports the outcome back.

use crate::config::dec_str;
use vstd::prelude::*;
use vstd::string::StringExecFns;

verus! {

/// Whether a `start` call on a supervisor in the given state requests a
/// spawn: only when no child is live.
pub open spec fn start_spawns(running: bool) -> bool {
    !running
}

/// The state after the harness reports the outcome of a requested spawn:
/// running exactly when the spawn succeeded (a request is only made when
/// nothing was running).
pub open spec fn running_after_spawn_result(running: bool, ok: bool) -> bool {
    running || ok
}

/// Whether a `shutdown` call requests a terminate-and-wait: only when a
/// child is live.
pub open spec fn shutdown_terminates(running: bool) -> bool {
    running
}

/// The state after `shutdown`: never running.
pub open spec fn running_after_shutdown(running: bool) -> bool {
    false
}

/// What a `start` call asks of the harness.
#[derive(Clone, Copy, Debug, PartialEq, Eq, Structural)]
pub enum StartAction {
    /// No child is live: spawn one and report the outcome.
    Spawn,
    /// A child is already live: do nothing; the call succeeded.
    AlreadyRunning,
}

/// What a `shutdown` call asks of the harness.
#[derive(Clone, Copy, Debug, PartialEq, Eq, Structural)]
pub enum ShutdownAction {
    /// A child was live: forcibly terminate it, then wait for it to exit,
    /// swallowing any error either step reports.
    TerminateAndWait,
    /// No child was live: do nothing.
    Nothing,
}

/// Supervisor of at most one child web-server process.
pub struct PythonServer {
    running: bool,
}

impl PythonServer {
    /// Whether the supervisor currently owns a live child.
    pub closed spec fn spec_is_running(&self) -> bool {
        self.running
    }

    /// A fresh supervisor owns no child.
    pub fn new() -> (s: PythonServer)
        ensures
            !s.spec_is_running(),
    {
        PythonServer { running: false }
    }

    pub fn is_running(&self) -> (r: bool)
        ensures
            r == self.spec_is_running(),
    {
        self.running
    }

    /// Decides a start request.  The state is unchanged until the harness
    /// reports the spawn outcome through `on_spawn_result`; a second start
    /// while a child is live is a no-op returning success.
    pub fn start(&mut self) -> (a: StartAction)
        ensures
            final(self).spec_is_running() == old(self).spec_is_running(),
            a is Spawn <==> start_spawns(old(self).spec_is_running()),
    {
        if self.running {
            StartAction::AlreadyRunning
        } else {
            StartAction::Spawn
        }
    }

    /// Records the outcome of the spawn a `start` requested.  On failure the
    /// supervisor stays stopped (the harness propagates the spawn error and
    /// aborts startup).
    pub fn on_spawn_result(&mut self, ok: bool)
        requires
            !old(self).spec_is_running(),
        ensures
            final(self).spec_is_running() == running_after_spawn_result(
                old(self).spec_is_running(),
                ok,
            ),
    {
        self.running = ok;
    }

    /// Decides a shutdown request: requests a terminate-and-wait exactly when
    /// a child is live, and always leaves the supervisor stopped.  Calling it
    /// with no child started is a no-op.
    pub fn shutdown(&mut self) -> (a: ShutdownAction)
        ensures
            final(self).spec_is_running() == running_after_shutdown(old(self).spec_is_running()),
            a is TerminateAndWait <==> shutdown_terminates(old(self).spec_is_running()),
    {
        if self.running {
            self.running = false;
            ShutdownAction::TerminateAndWait
        } else {
            ShutdownAction::Nothing
        }
    }
}

/// Two starts in succession create exactly one live child: from any state, a
/// start whose spawn succeeds leaves one child live, and a start in that
/// state requests no second spawn.
pub proof fn lemma_start_is_idempotent(running: bool)
    ensures
        start_spawns(running) ==> running_after_spawn_result(running, true),
        !start_spawns(running_after_spawn_result(running, true)),
{
}

/// Shutdown with no child started is a no-op: it requests no termination and
/// leaves the supervisor stopped.
pub proof fn lemma_shutdown_when_stopped_is_noop()
    ensures
        !shutdown_terminates(false),
        !running_after_shutdown(false),
{
}

/// Shutdown is idempotent: a second shutdown finds nothing running, requests
/// no termination, and leaves the state exactly where the first left it.
pub proof fn lemma_shutdown_is_idempotent(running: bool)
    ensures
        running_after_shutdown(running_after_shutdown(running)) == running_after_shutdown(
            running,
        ),
        !shutdown_terminates(running_after_shutdown(running)),
{
}

/// Everything the supervisor needs to know to lay out the child's command
/// line; the harness gathers these from the environment and the file system.
pub struct StartRequest {
    /// The interpreter to invoke.
    pub interpreter: String,
    /// Host the server is asked to bind.
    pub host: String,
    /// Port the server is asked to bind.
    pub port: u16,
    /// The resolved project root, if one was found (an explicit override, or
    /// the parent of the current working directory).
    pub project_root: Option<String>,
    /// Whether the server script exists under the project root at the path
    /// `script_path` computes; meaningless when `project_root` is `None`.
    pub script_exists: bool,
    /// The current value of the module-search-path variable (empty when
    /// unset).
    pub existing_pythonpath: String,
    /// Whether path components are joined the Windows way.
    pub windows: bool,
    /// Whether this is a development build (child output inherited rather
    /// than discarded).
    pub debug: bool,
}

/// The fully laid-out command the harness spawns.
pub struct CommandPlan {
    /// Program to invoke: the interpreter.
    pub program: String,
    /// Arguments, in order.
    pub args: Vec<String>,
    /// Working directory for the child: the project root when one was found.
    pub current_dir: Option<String>,
    /// Value for the module-search-path variable: the project root prepended
    /// to the existing value, when a root was found.
    pub pythonpath: Option<String>,
    /// Always set: the child is told not to open a browser through an
    /// environment flag as well as through its arguments.
    pub no_browser_flag: bool,
    /// Development build: child standard output and error are inherited;
    /// otherwise they are discarded.
    pub inherit_stdio: bool,
}

/// The path separator used to join path components.
pub open spec fn spec_path_sep(windows: bool) -> Seq<char> {
    if windows {
        "\\"@
    } else {
        "/"@
    }
}

/// The candidate script path under a project root: `<root>/retro/web_gui.py`
/// with the platform's separator.
pub open spec fn spec_script_path(root: Seq<char>, windows: bool) -> Seq<char> {
    root + spec_path_sep(windows) + "retro"@ + spec_path_sep(windows) + "web_gui.py"@
}

/// Builds the candidate script path the supervisor would invoke directly;
/// the harness tests this exact path for existence.
pub fn script_path(root: &str, windows: bool) -> (r: String)
    ensures
        r@ == spec_script_path(root@, windows),
{
    let sep = if windows {
        "\\"
    } else {
        "/"
    };
    let mut p = root.to_owned();
    p.append(sep);
    p.append("retro");
    p.append(sep);
    p.append("web_gui.py");
    proof {
        assert(p@ =~= spec_script_path(root@, windows));
    }
    p
}

/// The merged module-search-path value: the project root alone when nothing
/// was set, else the root, the platform's list separator, and the old value.
pub open spec fn spec_merged_pythonpath(root: Seq<char>, existing: Seq<char>, windows: bool) -> Seq<
    char,
> {
    if existing.len() == 0 {
        root
    } else if windows {
        root + ";"@ + existing
    } else {
        root + ":"@ + existing
    }
}

/// Merges the project root into the module-search-path variable, preserving
/// any existing value.
pub fn merged_pythonpath(root: &str, existing: &str, windows: bool) -> (r: String)
    ensures
        r@ == spec_merged_pythonpath(root@, existing@, windows),
{
    if existing.is_empty() {
        root.to_owned()
    } else {
        let mut merged = root.to_owned();
        merged.append(if windows {
            ";"
        } else {
            ":"
        });
        merged.append(existing);
        proof {
            assert(merged@ =~= spec_merged_pythonpath(root@, existing@, windows));
        }
        merged
    }
}

/// Whether the request invokes the interpreter on the script file directly;
/// otherwise the interpreter runs the server in module mode.
pub open spec fn spec_uses_script(req: StartRequest) -> bool {
    req.project_root is Some && req.script_exists
}

impl CommandPlan {
    /// Lays out the command for a start request:
    /// the interpreter invokes either the script file directly (preferred,
    /// when it exists under the project root) or the server module, is
    /// handed the host and port and told to open no browser, runs in the
    /// project root with the root prepended to the module search path, and
    /// keeps its output only in a development build.
    pub fn build(req: &StartRequest) -> (p: CommandPlan)
        ensures
            p.program@ == req.interpreter@,
            spec_uses_script(*req) ==> {
                &&& p.args@.len() == 6
                &&& p.args@[0]@ == spec_script_path(req.project_root->0@, req.windows)
            },
            !spec_uses_script(*req) ==> {
                &&& p.args@.len() == 7
                &&& p.args@[0]@ == "-m"@
                &&& p.args@[1]@ == "retro.web_gui"@
            },
            p.args@[p.args@.len() - 5]@ == "--host"@,
            p.args@[p.args@.len() - 4]@ == req.host@,
            p.args@[p.args@.len() - 3]@ == "--port"@,
            p.args@[p.args@.len() - 2]@ == dec_str(req.port as int),
            p.args@[p.args@.len() - 1]@ == "--no-browser"@,
            match req.project_root {
                Some(root) => {
                    &&& p.current_dir matches Some(d) && d@ == root@
                    &&& p.pythonpath matches Some(pp) && pp@ == spec_merged_pythonpath(
                        root@,
                        req.existing_pythonpath@,
                        req.windows,
                    )
                },
                None => p.current_dir is None && p.pythonpath is None,
            },
            p.no_browser_flag,
            p.inherit_stdio == req.debug,
    {
        let mut args: Vec<String> = Vec::new();
        match &req.project_root {
            Some(root) if req.script_exists => {
                args.push(script_path(root.as_str(), req.windows));
            },
            _ => {
                args.push("-m".to_owned());
                args.push("retro.web_gui".to_owned());
            },
        }
        args.push("--host".to_owned());
        args.push(req.host.clone());
        args.push("--port".to_owned());
        args.push(crate::config::u16_to_string(req.port));
        args.push("--no-browser".to_owned());
        let (current_dir, pythonpath) = match &req.project_root {
            Some(root) => (
                Some(root.clone()),
                Some(
                    merged_pythonpath(
                        root.as_str(),
                        req.existing_pythonpath.as_str(),
                        req.windows,
                    ),
                ),
            ),
            None => (None, None),
        };
        CommandPlan {
            program: req.interpreter.clone(),
            args,
            current_dir,
            pythonpath,
            no_browser_flag: true,
            inherit_stdio: req.debug,
        }
    }
}

} // verus!
