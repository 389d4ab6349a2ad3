use vstd::prelude::*;
use crate::command::{
    CommandView, Invocation, InvocationView, ModeView, RunMode, SnowCommand, texts,
};
use crate::commands::read_from_repl;
use crate::error::{Failure, SnowError, failure_text};
use crate::wrap;

verus! {

/// What a system rebuild does with the new configuration.
#[derive(PartialEq, Eq, Structural, Clone, Copy, Debug)]
pub enum RebuildMode {
    /// Activate it now and make it the boot default.
    Switch,
    /// Activate it now only.
    Test,
    /// Make it the boot default only.
    Boot,
    /// Only build it.
    Build,
}

/// The name of a rebuild mode on the command line.
pub open spec fn mode_name(m: RebuildMode) -> Seq<char> {
    match m {
        RebuildMode::Switch => "switch"@,
        RebuildMode::Test => "test"@,
        RebuildMode::Boot => "boot"@,
        RebuildMode::Build => "build"@,
    }
}

impl RebuildMode {
    /// The name of the mode on the command line.
    pub fn name(&self) -> (r: String)
        ensures
            r@ == mode_name(*self),
    {
        match self {
            RebuildMode::Switch => String::from_str("switch"),
            RebuildMode::Test => String::from_str("test"),
            RebuildMode::Boot => String::from_str("boot"),
            RebuildMode::Build => String::from_str("build"),
        }
    }
}

/// The characters of an optional string.
pub open spec fn opt_text(o: Option<String>) -> Option<Seq<char>> {
    match o {
        Some(s) => Some(s@),
        None => None,
    }
}

/// How a host is deployed and provisioned, as its flake declares it.
pub struct SnowConfig {
    pub tags: Vec<String>,
    pub use_remote_sudo: bool,
    pub ask_sudo_password: Option<bool>,
    pub build_on_target: bool,
    pub use_substitutes: bool,
    pub target_host: Option<String>,
    pub build_host: Option<String>,
    pub vm: Option<VmConfig>,
}

/// The virtual-machine settings of a host, each possibly missing.
pub struct VmConfig {
    pub id: Option<usize>,
    pub ip: Option<String>,
    pub proxmox_host: Option<String>,
    pub proxmox_image_store: Option<String>,
    pub resize_disk_to: Option<String>,
}

/// Virtual-machine settings with every value present.
pub struct VmConfigResolved {
    pub id: usize,
    pub ip: String,
    pub proxmox_host: String,
    pub proxmox_image_store: String,
    pub resize_disk_to: String,
}

/// The message of a missing setting.
pub open spec fn missing(name: Seq<char>) -> Seq<char> {
    "missing "@ + name
}

impl VmConfigResolved {
    /// The settings with every value present; fails on the first one missing, in
    /// the order id, ip, host, image store, disk size.
    pub fn try_from(value: VmConfig) -> (r: Result<VmConfigResolved, SnowError>)
        ensures
            value.id is None ==> (r matches Err(e) && e@ == Failure::SnowConfig(missing("id"@))),
            value.id is Some && value.ip is None ==> (r matches Err(e) && e@ == Failure::SnowConfig(
                missing("ip"@),
            )),
            value.id is Some && value.ip is Some && value.proxmox_host is None ==> (r matches Err(e)
                && e@ == Failure::SnowConfig(missing("proxmox_host"@))),
            value.id is Some && value.ip is Some && value.proxmox_host is Some
                && value.proxmox_image_store is None ==> (r matches Err(e) && e@
                == Failure::SnowConfig(missing("proxmox_image_store"@))),
            value.id is Some && value.ip is Some && value.proxmox_host is Some
                && value.proxmox_image_store is Some && value.resize_disk_to is None ==> (r matches Err(
                e,
            ) && e@ == Failure::SnowConfig(missing("resize_disk_to"@))),
            r matches Ok(v) ==> Some(v.id) == value.id && opt_text(value.ip) == Some(v.ip@)
                && opt_text(value.proxmox_host) == Some(v.proxmox_host@) && opt_text(
                value.proxmox_image_store,
            ) == Some(v.proxmox_image_store@) && opt_text(value.resize_disk_to) == Some(
                v.resize_disk_to@,
            ),
            (value.id is Some && value.ip is Some && value.proxmox_host is Some
                && value.proxmox_image_store is Some && value.resize_disk_to is Some) ==> r is Ok,
    {
        let id = match value.id {
            Some(v) => v,
            None => return Err(SnowError::SnowConfig(String::from_str("missing ").concat("id"))),
        };
        let ip = match value.ip {
            Some(v) => v,
            None => return Err(SnowError::SnowConfig(String::from_str("missing ").concat("ip"))),
        };
        let proxmox_host = match value.proxmox_host {
            Some(v) => v,
            None => return Err(
                SnowError::SnowConfig(String::from_str("missing ").concat("proxmox_host")),
            ),
        };
        let proxmox_image_store = match value.proxmox_image_store {
            Some(v) => v,
            None => return Err(
                SnowError::SnowConfig(String::from_str("missing ").concat("proxmox_image_store")),
            ),
        };
        let resize_disk_to = match value.resize_disk_to {
            Some(v) => v,
            None => return Err(
                SnowError::SnowConfig(String::from_str("missing ").concat("resize_disk_to")),
            ),
        };
        Ok(VmConfigResolved { id, ip, proxmox_host, proxmox_image_store, resize_disk_to })
    }
}

/// The flake attribute that holds the settings of `host`.
pub open spec fn config_attr(host: Seq<char>) -> Seq<char> {
    "nixosConfigurations."@ + host + ".config.snow"@
}

/// The query that reads the settings of `host` as JSON.
pub fn snow_config_query(host: &str) -> (r: Invocation)
    ensures
        r@ == (InvocationView {
            command: CommandView {
                program: "nix"@,
                args: seq!["eval"@, ".?submodules=1#"@ + config_attr(host@), "--json"@],
                sudo: false,
            },
            mode: ModeView::WithReturn,
        }),
{
    let mut attr = String::from_str("nixosConfigurations.");
    attr.append(host);
    attr.append(".config.snow");
    let extra: Vec<&str> = vec!["--json"];
    assert(extra@ == seq!["--json"]);
    let r = read_from_repl(attr.as_str(), extra);
    assert(r@.command.args =~= seq!["eval"@, ".?submodules=1#"@ + config_attr(host@), "--json"@]);
    r
}

/// The failure given where the settings of `host` could not be read.
pub fn config_read_failure(host: &str, cause: &SnowError) -> (r: SnowError)
    ensures
        r@ == Failure::Nix("could not read snow config for host "@ + host@ + ": "@ + failure_text(cause@)),
{
    let mut m = String::from_str("could not read snow config for host ");
    m.append(host);
    m.append(": ");
    let text = cause.message();
    m.append(text.as_str());
    SnowError::Nix(m)
}

/// Where and how a configuration is deployed, once the command line's choices are
/// laid over the host's settings.
pub struct Deployment {
    pub use_remote_sudo: bool,
    pub build_on_target: bool,
    pub target_host: Option<String>,
    pub build_host: Option<String>,
}

fn clone_opt(o: &Option<String>) -> (r: Option<String>)
    ensures
        opt_text(r) == opt_text(*o),
{
    match o {
        Some(s) => Some(s.clone()),
        None => None,
    }
}

/// Lays the command line's choices over the host's settings: a flag set on either
/// side holds, and a host given on the command line replaces the configured one.
pub fn merge_deployment(
    settings: &SnowConfig,
    target_host: &Option<String>,
    build_host: &Option<String>,
    build_on_target: bool,
    use_remote_sudo: bool,
) -> (r: Deployment)
    ensures
        r.use_remote_sudo == (use_remote_sudo || settings.use_remote_sudo),
        r.build_on_target == (build_on_target || settings.build_on_target),
        opt_text(r.target_host) == if target_host is Some {
            opt_text(*target_host)
        } else {
            opt_text(settings.target_host)
        },
        opt_text(r.build_host) == if build_host is Some {
            opt_text(*build_host)
        } else {
            opt_text(settings.build_host)
        },
{
    Deployment {
        use_remote_sudo: use_remote_sudo || settings.use_remote_sudo,
        build_on_target: build_on_target || settings.build_on_target,
        target_host: if target_host.is_some() {
            clone_opt(target_host)
        } else {
            clone_opt(&settings.target_host)
        },
        build_host: if build_host.is_some() {
            clone_opt(build_host)
        } else {
            clone_opt(&settings.build_host)
        },
    }
}

/// Whether a deployment must be confirmed: it goes to a machine other than the one
/// its configuration is named after, or to another target than the configured one.
pub open spec fn confirmation_needed(
    configuration: Seq<char>,
    hostname: Seq<char>,
    chosen: Option<Seq<char>>,
    configured: Option<Seq<char>>,
) -> bool {
    (chosen is None && configuration != hostname) || chosen != configured
}

fn same_text(a: &str, b: &str) -> (r: bool)
    ensures
        r == (a@ == b@),
{
    let x = crate::text::chars_of(a);
    let y = crate::text::chars_of(b);
    if x.len() != y.len() {
        return false;
    }
    let mut i: usize = 0;
    while i < x.len()
        invariant
            x@ == a@,
            y@ == b@,
            x.len() == y.len(),
            i <= x.len(),
            forall|k: int| 0 <= k < i ==> x@[k] == y@[k],
        decreases x.len() - i,
    {
        if x[i] != y[i] {
            return false;
        }
        i = i + 1;
    }
    assert(x@ =~= y@);
    true
}

/// Whether the deployment of `configuration` from `hostname` must be confirmed by
/// the user.
pub fn needs_confirmation(
    configuration: &str,
    hostname: &str,
    chosen: &Option<String>,
    configured: &Option<String>,
) -> (r: bool)
    ensures
        r == confirmation_needed(configuration@, hostname@, opt_text(*chosen), opt_text(*configured)),
{
    let differs = match (chosen, configured) {
        (Some(a), Some(b)) => !same_text(a.as_str(), b.as_str()),
        (None, None) => false,
        _ => true,
    };
    (chosen.is_none() && !same_text(configuration, hostname)) || differs
}

/// The arguments of a rebuild of `configuration` deployed as `d`, or none where it
/// is to be built on a target that is not given.
pub open spec fn configuration_args(
    mode: RebuildMode,
    configuration: Seq<char>,
    d_target: Option<Seq<char>>,
    d_build: Option<Seq<char>>,
    build_on_target: bool,
    remote_sudo: bool,
) -> Option<Seq<Seq<char>>> {
    let base = seq![mode_name(mode), "--flake"@, ".?submodules=1#"@ + configuration];
    let with_target = base + match d_target {
        Some(t) => seq!["--target-host"@, t],
        None => Seq::empty(),
    };
    let sudo = if remote_sudo {
        seq!["--sudo"@]
    } else {
        Seq::empty()
    };
    match d_build {
        Some(b) => Some(with_target + seq!["--build-host"@, b] + sudo),
        None => if build_on_target {
            match d_target {
                Some(t) => Some(with_target + seq!["--build-host"@, t] + sudo),
                None => None,
            }
        } else {
            Some(with_target + sudo)
        },
    }
}

/// The message given where a build on the target is asked for without a target.
pub open spec fn no_target_message() -> Seq<char> {
    "\"build on target\" is specified, but no target host is given"@
}

/// How a rebuild runs: with debug output, verbose and with traces; otherwise behind
/// a progress display labelled `label`.
pub open spec fn rebuild_run(
    args: Seq<Seq<char>>,
    sudo: bool,
    label: Seq<char>,
    debug: bool,
) -> InvocationView {
    InvocationView {
        command: CommandView {
            program: "nixos-rebuild"@,
            args: if debug {
                args.push("--show-trace"@)
            } else {
                args
            },
            sudo,
        },
        mode: if debug {
            ModeView::Verbose
        } else {
            ModeView::Progress(label)
        },
    }
}

fn rebuild_invocation(args: Vec<String>, sudo: bool, label: &str, debug: bool) -> (r: Invocation)
    ensures
        r@ == rebuild_run(texts(args@), sudo, label@, debug),
{
    let mut command = SnowCommand::with_args(String::from_str("nixos-rebuild"), args, sudo);
    if debug {
        command.append_arg("--show-trace");
        Invocation { command, mode: RunMode::Verbose }
    } else {
        Invocation { command, mode: RunMode::Progress(String::from_str(label)) }
    }
}

/// Rebuilds the machine this runs on from the configuration named after it, with
/// elevated privileges.
pub fn rebuild_host_command(mode: RebuildMode, hostname: &str, debug: bool) -> (r: Invocation)
    ensures
        r@ == rebuild_run(
            seq![mode_name(mode), "--flake"@, ".?submodules=1#"@ + hostname@],
            true,
            hostname@,
            debug,
        ),
{
    let mut args: Vec<String> = Vec::new();
    args.push(mode.name());
    args.push(String::from_str("--flake"));
    args.push(wrap(hostname, true));
    assert(texts(args@) =~= seq![mode_name(mode), "--flake"@, ".?submodules=1#"@ + hostname@]);
    rebuild_invocation(args, true, hostname, debug)
}

/// Rebuilds `configuration` and deploys it as `d` says; fails where a build on the
/// target is asked for without a target.
pub fn rebuild_configuration_command(
    mode: RebuildMode,
    configuration: &str,
    d: &Deployment,
    debug: bool,
) -> (r: Result<Invocation, SnowError>)
    ensures
        configuration_args(
            mode,
            configuration@,
            opt_text(d.target_host),
            opt_text(d.build_host),
            d.build_on_target,
            d.use_remote_sudo,
        ) matches Some(args) ==> (r matches Ok(i) && i@ == rebuild_run(
            args,
            false,
            configuration@,
            debug,
        )),
        configuration_args(
            mode,
            configuration@,
            opt_text(d.target_host),
            opt_text(d.build_host),
            d.build_on_target,
            d.use_remote_sudo,
        ) is None ==> (r matches Err(e) && e@ == Failure::SnowConfig(no_target_message())),
{
    let mut args: Vec<String> = Vec::new();
    args.push(mode.name());
    args.push(String::from_str("--flake"));
    args.push(wrap(configuration, true));
    match &d.target_host {
        Some(t) => {
            args.push(String::from_str("--target-host"));
            args.push(t.clone());
        },
        None => {},
    }
    let ghost with_target = texts(args@);
    match &d.build_host {
        Some(b) => {
            args.push(String::from_str("--build-host"));
            args.push(b.clone());
        },
        None => {
            if d.build_on_target {
                match &d.target_host {
                    Some(t) => {
                        args.push(String::from_str("--build-host"));
                        args.push(t.clone());
                    },
                    None => {
                        return Err(
                            SnowError::SnowConfig(
                                String::from_str(
                                    "\"build on target\" is specified, but no target host is given",
                                ),
                            ),
                        );
                    },
                }
            }
        },
    }
    if d.use_remote_sudo {
        args.push(String::from_str("--sudo"));
    }
    assert(texts(args@) =~= configuration_args(
        mode,
        configuration@,
        opt_text(d.target_host),
        opt_text(d.build_host),
        d.build_on_target,
        d.use_remote_sudo,
    )->Some_0);
    Ok(rebuild_invocation(args, false, configuration, debug))
}

/// The home configuration to build: the one given, or `user@host` where both names
/// are known.
pub open spec fn home_target_of(
    given: Option<Seq<char>>,
    username: Seq<char>,
    hostname: Seq<char>,
) -> Option<Seq<char>> {
    match given {
        Some(g) => Some(g),
        None => if username.len() > 0 && hostname.len() > 0 {
            Some(username + "@"@ + hostname)
        } else {
            None
        },
    }
}

/// The message given where neither a home configuration nor the user and host
/// names are known.
pub open spec fn no_identity_message() -> Seq<char> {
    "failed to read username/hostname"@
}

/// The home configuration to build; fails where none is given and the user or host
/// name is unknown (empty).
pub fn home_target(home_configuration: &Option<String>, username: &str, hostname: &str) -> (r:
    Result<String, SnowError>)
    ensures
        home_target_of(opt_text(*home_configuration), username@, hostname@) matches Some(t) ==> (
        r matches Ok(s) && s@ == t),
        home_target_of(opt_text(*home_configuration), username@, hostname@) is None ==> (
        r matches Err(e) && e@ == Failure::Env(no_identity_message())),
{
    match home_configuration {
        Some(t) => Ok(t.clone()),
        None => {
            if username.unicode_len() > 0 && hostname.unicode_len() > 0 {
                let mut t = String::from_str(username);
                t.append("@");
                t.append(hostname);
                Ok(t)
            } else {
                Err(SnowError::Env(String::from_str("failed to read username/hostname")))
            }
        },
    }
}

/// Builds and activates the home configuration `target`: verbose with traces where
/// debug output is asked for, behind a progress display otherwise.
pub fn home_command(target: &str, debug: bool) -> (r: Invocation)
    ensures
        r@ == (InvocationView {
            command: CommandView {
                program: "home-manager"@,
                args: seq!["switch"@, "--flake"@, ".?submodules=1#"@ + target@] + if debug {
                    seq!["--show-trace"@]
                } else {
                    Seq::empty()
                },
                sudo: false,
            },
            mode: if debug {
                ModeView::Verbose
            } else {
                ModeView::Progress(target@)
            },
        }),
{
    let wrapped = wrap(target, true);
    let mut command = SnowCommand::new(
        String::from_str("home-manager"),
        vec!["switch", "--flake", wrapped.as_str()],
        false,
    );
    if debug {
        command.append_arg("--show-trace");
    }
    let r = Invocation {
        command,
        mode: if debug {
            RunMode::Verbose
        } else {
            RunMode::Progress(String::from_str(target))
        },
    };
    assert(r@.command.args =~= seq!["switch"@, "--flake"@, ".?submodules=1#"@ + target@] + if debug {
        seq!["--show-trace"@]
    } else {
        Seq::empty()
    });
    r
}

} // verus!
