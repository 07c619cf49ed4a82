//! The server-lifecycle supervisor.
//!
//! A single supervisor instance guards the launch of one backing
//! web-server child process.  `plan_start` decides, from the running flag
//! and the host's platform information, whether anything must be done and
//! with which parameters (first-launch provisioning, environment, binary,
//! arguments); the host executes that plan and reports the outcome to
//! `finish_start`, which updates the flag and renders the caller-visible
//! result.  The host must hold its exclusive lock around the whole
//! plan/execute/finish sequence, which makes every call one step of the
//! trace modelled in `lifecycle`.

use vstd::prelude::*;
use vstd::string::StringExecFns;

use crate::layout::env_vars;
use crate::layout::env_vars_spec;
use crate::layout::provisioned_dirs;
use crate::layout::provisioned_dirs_spec;
use crate::layout::sentinel_path;
use crate::layout::sentinel_path_spec;
use crate::layout::server_root;
use crate::layout::server_root_spec;
use crate::lifecycle::running_after;

verus! {

/// The resolved combination of operating system and CPU architecture that
/// determines binary choice and filesystem layout.
#[derive(Clone, Copy, PartialEq, Eq, Structural, Debug)]
pub enum PlatformProfile {
    DesktopDefault,
    IosEmbedded,
    AndroidEmbedded,
}

/// Why a start attempt failed, with the underlying reason.
#[derive(Debug)]
pub enum StartFailure {
    /// The application data directory could not be resolved.
    AppDataDir(String),
    /// A provisioned directory could not be created: its path, then the
    /// reason.
    CreateDirectory(String, String),
    /// The sentinel marker file could not be written.
    MarkInitialized(String),
    /// The named child binary was not found or not registered.
    SidecarLookup(String),
    /// The operating system refused to create the child process.
    Spawn(String),
}

/// The first-launch filesystem work: directories to create, then the
/// sentinel marker file to write.
pub struct ProvisioningPlan {
    pub directories: Vec<String>,
    pub sentinel: String,
}

/// Everything the host needs to launch the child process.
pub struct LaunchPlan {
    /// First-launch filesystem work, absent when the sentinel is present.
    pub provisioning: Option<ProvisioningPlan>,
    /// Environment variables for the child process.
    pub env: Vec<(String, String)>,
    /// The child binary to launch.
    pub binary: String,
    /// Its command-line arguments.
    pub args: Vec<String>,
    /// Its working directory, when one is prescribed.
    pub working_dir: Option<String>,
}

/// What a `start` call must do next.
pub enum StartAction {
    /// The server is already running: report success without spawning.
    AlreadyRunning,
    /// Execute this launch plan, then report the outcome to
    /// `finish_start`.
    Launch(LaunchPlan),
}

/// The embedded server binary for a mobile profile, by architecture.
pub open spec fn embedded_binary_spec(profile: PlatformProfile, aarch64: bool) -> Seq<char> {
    match profile {
        PlatformProfile::AndroidEmbedded => "php-android-aarch64"@,
        PlatformProfile::IosEmbedded => if aarch64 {
            "php-iphoneos-arm64"@
        } else {
            "php-iphonesimulator-arm64"@
        },
        PlatformProfile::DesktopDefault => "frankenphp"@,
    }
}

/// The sidecar arguments on the desktop profile.
pub open spec fn desktop_args_spec() -> Seq<Seq<char>> {
    seq!["php-server"@, "--listen"@, "127.0.0.1:8080"@]
}

/// The embedded server arguments on mobile profiles: listen on loopback,
/// with the provisioned data root as the document root.
pub open spec fn mobile_args_spec(root: Seq<char>) -> Seq<Seq<char>> {
    seq!["-S"@, "127.0.0.1:8080"@, "-t"@, root]
}

/// `args` spells out `expect` word for word.
pub open spec fn args_match(args: Seq<String>, expect: Seq<Seq<char>>) -> bool {
    args.len() == expect.len() && forall|i: int|
        0 <= i < args.len() ==> #[trigger] args[i]@ == expect[i]
}

/// `env` spells out the expected name/value pairs.
pub open spec fn env_match(env: Seq<(String, String)>, expect: Seq<(Seq<char>, Seq<char>)>) -> bool {
    env.len() == expect.len() && forall|i: int|
        0 <= i < env.len() ==> #[trigger] env[i].0@ == expect[i].0 && env[i].1@ == expect[i].1
}

/// The provisioning plan creates exactly the prescribed directories under
/// `root`, in order, and then writes the sentinel marker.
pub open spec fn provisioning_ok(p: ProvisioningPlan, root: Seq<char>) -> bool {
    &&& p.directories@.len() == provisioned_dirs_spec(root).len()
    &&& forall|i: int|
        0 <= i < p.directories@.len() ==> #[trigger] p.directories@[i]@ == provisioned_dirs_spec(
            root,
        )[i]
    &&& p.sentinel@ == sentinel_path_spec(root)
}

/// The launch plan for the given platform: binary, arguments, environment,
/// working directory, and first-launch provisioning exactly as prescribed.
pub open spec fn launch_plan_ok(
    p: LaunchPlan,
    profile: PlatformProfile,
    aarch64: bool,
    data_dir: Seq<char>,
    sentinel_present: bool,
) -> bool {
    match profile {
        PlatformProfile::DesktopDefault => {
            &&& p.provisioning is None
            &&& p.env@.len() == 0
            &&& p.binary@ == "frankenphp"@
            &&& args_match(p.args@, desktop_args_spec())
            &&& p.working_dir is None
        },
        _ => {
            let root = server_root_spec(data_dir);
            &&& (p.provisioning is None <==> sentinel_present)
            &&& (p.provisioning is Some ==> provisioning_ok(p.provisioning->0, root))
            &&& env_match(p.env@, env_vars_spec(root))
            &&& p.binary@ == embedded_binary_spec(profile, aarch64)
            &&& args_match(p.args@, mobile_args_spec(root))
            &&& p.working_dir is Some
            &&& p.working_dir->0@ == root
        },
    }
}

pub open spec fn already_running_message_spec() -> Seq<char> {
    "Server is already running"@
}

pub open spec fn started_message_spec() -> Seq<char> {
    "Server started successfully"@
}

/// The caller-visible message for a start failure: a stage-specific prefix
/// followed by the underlying reason.
pub open spec fn failure_message_spec(profile: PlatformProfile, f: StartFailure) -> Seq<char> {
    match f {
        StartFailure::AppDataDir(e) => "Failed to get app data directory: "@ + e@,
        StartFailure::CreateDirectory(d, e) => "Failed to create directory "@ + d@ + ": "@ + e@,
        StartFailure::MarkInitialized(e) => "Failed to mark as initialized: "@ + e@,
        StartFailure::SidecarLookup(e) => if profile is DesktopDefault {
            "Failed to spawn sidecar: "@ + e@
        } else {
            "Failed to spawn PHP binary: "@ + e@
        },
        StartFailure::Spawn(e) => if profile is DesktopDefault {
            "Failed to start server: "@ + e@
        } else {
            "Failed to start PHP server: "@ + e@
        },
    }
}

/// First launch holds exactly when the sentinel marker file is absent.
pub fn is_first_launch(sentinel_present: bool) -> (r: bool)
    ensures
        r == !sentinel_present,
{
    !sentinel_present
}

/// The success message of a short-circuited start.
pub fn already_running_message() -> (m: String)
    ensures
        m@ == already_running_message_spec(),
{
    String::from_str("Server is already running")
}

/// The success message of a start that spawned the child.
pub fn started_message() -> (m: String)
    ensures
        m@ == started_message_spec(),
{
    String::from_str("Server started successfully")
}

/// Renders a start failure as the caller-visible message.
pub fn failure_message(profile: PlatformProfile, f: &StartFailure) -> (m: String)
    ensures
        m@ == failure_message_spec(profile, *f),
{
    match f {
        StartFailure::AppDataDir(e) => {
            let mut m = String::from_str("Failed to get app data directory: ");
            m.append(e.as_str());
            m
        },
        StartFailure::CreateDirectory(d, e) => {
            let mut m = String::from_str("Failed to create directory ");
            m.append(d.as_str());
            m.append(": ");
            m.append(e.as_str());
            m
        },
        StartFailure::MarkInitialized(e) => {
            let mut m = String::from_str("Failed to mark as initialized: ");
            m.append(e.as_str());
            m
        },
        StartFailure::SidecarLookup(e) => {
            let mut m = if matches!(profile, PlatformProfile::DesktopDefault) {
                String::from_str("Failed to spawn sidecar: ")
            } else {
                String::from_str("Failed to spawn PHP binary: ")
            };
            m.append(e.as_str());
            m
        },
        StartFailure::Spawn(e) => {
            let mut m = if matches!(profile, PlatformProfile::DesktopDefault) {
                String::from_str("Failed to start server: ")
            } else {
                String::from_str("Failed to start PHP server: ")
            };
            m.append(e.as_str());
            m
        },
    }
}

/// The embedded server binary name for a mobile profile.
pub fn embedded_binary(profile: PlatformProfile, aarch64: bool) -> (b: String)
    ensures
        b@ == embedded_binary_spec(profile, aarch64),
{
    match profile {
        PlatformProfile::AndroidEmbedded => String::from_str("php-android-aarch64"),
        PlatformProfile::IosEmbedded => if aarch64 {
            String::from_str("php-iphoneos-arm64")
        } else {
            String::from_str("php-iphonesimulator-arm64")
        },
        PlatformProfile::DesktopDefault => String::from_str("frankenphp"),
    }
}

/// The sidecar arguments on the desktop profile.
pub fn desktop_args() -> (args: Vec<String>)
    ensures
        args_match(args@, desktop_args_spec()),
{
    let mut args: Vec<String> = Vec::new();
    args.push(String::from_str("php-server"));
    args.push(String::from_str("--listen"));
    args.push(String::from_str("127.0.0.1:8080"));
    args
}

/// The embedded server arguments on mobile profiles, with `root` as the
/// document root.
pub fn mobile_args(root: &str) -> (args: Vec<String>)
    ensures
        args_match(args@, mobile_args_spec(root@)),
{
    let mut args: Vec<String> = Vec::new();
    args.push(String::from_str("-S"));
    args.push(String::from_str("127.0.0.1:8080"));
    args.push(String::from_str("-t"));
    args.push(String::from_str(root));
    args
}

/// The supervisor: owns the running flag of the single backing server
/// process.  Create one instance at application startup and serialize all
/// access to it behind the host's lock.
pub struct Supervisor {
    running: bool,
}

impl Supervisor {
    /// Whether a start attempt has successfully spawned the child; never
    /// reverts to false within the supervisor's lifetime.
    pub closed spec fn is_running(self) -> bool {
        self.running
    }

    /// A fresh supervisor: no server running.
    pub fn new() -> (s: Supervisor)
        ensures
            !s.is_running(),
    {
        Supervisor { running: false }
    }

    /// The current value of the running flag.  No side effects.
    pub fn status(&self) -> (r: bool)
        ensures
            r == self.is_running(),
    {
        self.running
    }

    /// Decides what a `start` call must do: short-circuit when the server
    /// already runs, otherwise launch with exactly the parameters the
    /// platform prescribes.  `data_dir` is the resolved application data
    /// directory and `sentinel_present` whether the sentinel marker file
    /// exists; both matter only on mobile profiles.
    pub fn plan_start(
        &self,
        profile: PlatformProfile,
        aarch64: bool,
        data_dir: &str,
        sentinel_present: bool,
    ) -> (a: StartAction)
        ensures
            a is AlreadyRunning <==> self.is_running(),
            a is Launch ==> launch_plan_ok(a->Launch_0, profile, aarch64, data_dir@, sentinel_present),
    {
        if self.running {
            return StartAction::AlreadyRunning;
        }
        match profile {
            PlatformProfile::DesktopDefault => StartAction::Launch(
                LaunchPlan {
                    provisioning: None,
                    env: Vec::new(),
                    binary: String::from_str("frankenphp"),
                    args: desktop_args(),
                    working_dir: None,
                },
            ),
            _ => {
                let root = server_root(data_dir);
                let provisioning = if sentinel_present {
                    None
                } else {
                    Some(
                        ProvisioningPlan {
                            directories: provisioned_dirs(root.as_str()),
                            sentinel: sentinel_path(root.as_str()),
                        },
                    )
                };
                StartAction::Launch(
                    LaunchPlan {
                        provisioning,
                        env: env_vars(root.as_str()),
                        binary: embedded_binary(profile, aarch64),
                        args: mobile_args(root.as_str()),
                        working_dir: Some(root),
                    },
                )
            },
        }
    }

    /// Records the outcome of an executed launch plan and renders the
    /// caller-visible result.  The flag is set exactly on success; on
    /// failure it keeps its value, so a later `start` call retries.
    pub fn finish_start(
        &mut self,
        profile: PlatformProfile,
        outcome: Result<(), StartFailure>,
    ) -> (r: Result<String, String>)
        ensures
            final(self).is_running() == running_after(old(self).is_running(), outcome is Ok),
            r is Ok <==> outcome is Ok,
            outcome is Ok ==> r->Ok_0@ == started_message_spec(),
            outcome is Err ==> r->Err_0@ == failure_message_spec(profile, outcome->Err_0),
    {
        match outcome {
            Ok(()) => {
                self.running = true;
                Ok(started_message())
            },
            Err(f) => Err(failure_message(profile, &f)),
        }
    }
}

} // verus!
