use vstd::prelude::*;
use vstd::string::StringExecFns;
use crate::status::{append_decimal, decimal};

verus! {

/// How the backend is started.
#[derive(Clone, Copy, Debug, PartialEq, Eq, Structural)]
pub enum LaunchMode {
    /// Built and run from its source directory by the build tool.
    Development,
    /// The binary bundled with the application.
    Production,
}

/// The directory that a launch's working directory is relative to.
#[derive(Clone, Copy, Debug, PartialEq, Eq, Structural)]
pub enum WorkdirBase {
    /// The parent of the current directory (the backend project is a sibling).
    ParentOfCurrentDir,
    /// The application's packaged resource directory.
    ResourceDir,
}

/// Everything the driver needs to spawn the backend.
#[derive(Clone, Debug, PartialEq, Eq)]
pub struct LaunchPlan {
    /// The program: the build tool, or the name of the bundled binary.
    pub program: String,
    /// Whether `program` names a bundled binary rather than a command on the path.
    pub bundled: bool,
    pub args: Vec<String>,
    pub workdir_base: WorkdirBase,
    /// Path components appended to the base, in order.
    pub workdir: Vec<String>,
    /// The value of HOME forwarded to the backend, if one is forwarded.
    pub home: Option<String>,
}

pub open spec fn views(v: Seq<String>) -> Seq<Seq<char>> {
    v.map_values(|s: String| s@)
}

/// The arguments for each mode; the port is the last one, in decimal.
pub open spec fn launch_args(port: u16, mode: LaunchMode) -> Seq<Seq<char>> {
    match mode {
        LaunchMode::Development => seq![
            "run"@,
            "--release"@,
            "--"@,
            "serve"@,
            "--port"@,
            decimal(port as nat),
        ],
        LaunchMode::Production => seq!["serve"@, "--port"@, decimal(port as nat)],
    }
}

/// HOME as the environment gives it, else the host's home directory, else the temp directory.
pub open spec fn home_choice(env_home: Option<String>, host_home: Option<String>) -> Seq<char> {
    match env_home {
        Some(h) => h@,
        None => match host_home {
            Some(h) => h@,
            None => "/tmp"@,
        },
    }
}

/// The health endpoint of a backend listening on `port`.
pub open spec fn health_url_of(port: u16) -> Seq<char> {
    "http://localhost:"@ + decimal(port as nat) + "/v1/models"@
}

pub fn health_url(port: u16) -> (r: String)
    ensures
        r@ == health_url_of(port),
{
    let mut s = String::from_str("http://localhost:");
    append_decimal(&mut s, port as u32);
    s.append("/v1/models");
    s
}

pub fn resolve_home(env_home: Option<String>, host_home: Option<String>) -> (r: String)
    ensures
        r@ == home_choice(env_home, host_home),
{
    match env_home {
        Some(h) => h,
        None => match host_home {
            Some(h) => h,
            None => String::from_str("/tmp"),
        },
    }
}

fn decimal_string(n: u16) -> (r: String)
    ensures
        r@ == decimal(n as nat),
{
    let mut s = String::from_str("");
    proof {
        reveal_strlit("");
    }
    append_decimal(&mut s, n as u32);
    proof {
        assert(s@ =~= decimal(n as nat));
    }
    s
}

/// The launch of the backend on `port` in `mode`. In development the build tool runs the
/// backend project beside the current directory; in production the bundled binary runs in
/// the backend's configuration directory among the resources, with HOME forwarded
/// (`env_home`, else `host_home`, else the temp directory).
pub fn plan_launch(port: u16, mode: LaunchMode, env_home: Option<String>, host_home: Option<String>) -> (r: LaunchPlan)
    ensures
        views(r.args@) == launch_args(port, mode),
        mode == LaunchMode::Development ==> {
            &&& r.program@ == "cargo"@
            &&& !r.bundled
            &&& r.workdir_base == WorkdirBase::ParentOfCurrentDir
            &&& views(r.workdir@) == seq!["ai-gateway"@]
            &&& r.home is None
        },
        mode == LaunchMode::Production ==> {
            &&& r.program@ == "ai-gateway"@
            &&& r.bundled
            &&& r.workdir_base == WorkdirBase::ResourceDir
            &&& views(r.workdir@) == seq!["_up_"@, "ai-gateway"@]
            &&& r.home matches Some(h) && h@ == home_choice(env_home, host_home)
        },
{
    let mut args: Vec<String> = Vec::new();
    let mut workdir: Vec<String> = Vec::new();
    match mode {
        LaunchMode::Development => {
            args.push(String::from_str("run"));
            args.push(String::from_str("--release"));
            args.push(String::from_str("--"));
            args.push(String::from_str("serve"));
            args.push(String::from_str("--port"));
            args.push(decimal_string(port));
            workdir.push(String::from_str("ai-gateway"));
            proof {
                assert(views(args@) =~= launch_args(port, mode));
                assert(views(workdir@) =~= seq!["ai-gateway"@]);
            }
            LaunchPlan {
                program: String::from_str("cargo"),
                bundled: false,
                args,
                workdir_base: WorkdirBase::ParentOfCurrentDir,
                workdir,
                home: None,
            }
        },
        LaunchMode::Production => {
            args.push(String::from_str("serve"));
            args.push(String::from_str("--port"));
            args.push(decimal_string(port));
            workdir.push(String::from_str("_up_"));
            workdir.push(String::from_str("ai-gateway"));
            proof {
                assert(views(args@) =~= launch_args(port, mode));
                assert(views(workdir@) =~= seq!["_up_"@, "ai-gateway"@]);
            }
            LaunchPlan {
                program: String::from_str("ai-gateway"),
                bundled: true,
                args,
                workdir_base: WorkdirBase::ResourceDir,
                workdir,
                home: Some(resolve_home(env_home, host_home)),
            }
        },
    }
}

} // verus!
