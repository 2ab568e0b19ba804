//! Container-engine planning: image environments, mount points, the
//! container specification builder, and container handles.
//!
//! Every engine operation is planned as a [`CommandSpec`] and interpreted
//! from the runner's outcome, a `Result<Vec<String>, CmdError>` of captured
//! output lines.
use vstd::prelude::*;
use vstd::string::StrSliceExecFns;
use vstd::string::StringExecFns;

use crate::command::dec_rep;
use crate::command::u64_to_decimal;
use crate::command::views_of;
use crate::command::CommandSpec;
use crate::errors::CmdError;
use crate::errors::Error;
use crate::version::version_ok;
use crate::version::version_value;
use crate::version::WindowsBuild;

verus! {

/// Whether some character of `s` is a path separator.
pub open spec fn has_slash(s: Seq<char>) -> bool {
    exists|j: int| 0 <= j < s.len() && s[j] == '/'
}

/// All planned commands invoke the container engine's binary.
pub open spec fn is_docker_command(c: CommandSpec) -> bool {
    c.program@ == "docker"@
}

/// The daemon liveness probe: succeeds exactly when the daemon is reachable.
pub open spec fn is_info_command(c: CommandSpec) -> bool {
    is_docker_command(c) && c.args_view() == seq!["info"@] && c.hide_output && c.enable_timeout
        && !c.quiet && !c.capture
}

/// Pulling an image from its registry; pulls can be arbitrarily slow, so the
/// runner's timeout is disabled.
pub open spec fn is_pull_command(c: CommandSpec, image: Seq<char>) -> bool {
    is_docker_command(c) && c.args_view() == seq!["pull"@, image] && !c.hide_output
        && !c.enable_timeout && !c.quiet && !c.capture
}

/// Verifying an image is present locally.
pub open spec fn is_image_inspect_command(c: CommandSpec, image: Seq<char>) -> bool {
    is_docker_command(c) && c.args_view() == seq!["image"@, "inspect"@, image] && c.hide_output
        && c.enable_timeout && !c.quiet && !c.capture
}

/// The shell script run inside a throwaway container to print the guest's
/// 4-field build string on its first output line.
pub open spec fn guest_build_script() -> Seq<char> {
    r"$v = Get-ItemProperty 'HKLM:\SOFTWARE\Microsoft\Windows NT\CurrentVersion'; Write-Output ($v.CurrentMajorVersionNumber.ToString() + '.' + $v.CurrentMinorVersionNumber + '.' + $v.CurrentBuildNumber + '.' + $v.UBR)"@
}

/// Querying the guest OS build of an image through a throwaway container.
pub open spec fn is_guest_build_command(c: CommandSpec, image: Seq<char>) -> bool {
    is_docker_command(c) && c.args_view() == seq![
        "run"@,
        image,
        "powershell"@,
        "-Command"@,
        guest_build_script(),
    ] && !c.hide_output && c.enable_timeout && !c.quiet && c.capture
}

/// Starting a created container attached to the caller; the workload's
/// duration is unbounded, so the runner's timeout is disabled.
pub open spec fn is_start_command(c: CommandSpec, id: Seq<char>, quiet: bool) -> bool {
    is_docker_command(c) && c.args_view() == seq!["start"@, "-a"@, id] && !c.hide_output
        && !c.enable_timeout && c.quiet == quiet && !c.capture
}

/// Querying engine metadata for exactly one container id.
pub open spec fn is_inspect_command(c: CommandSpec, id: Seq<char>) -> bool {
    is_docker_command(c) && c.args_view() == seq!["inspect"@, id] && c.hide_output
        && c.enable_timeout && !c.quiet && c.capture
}

/// Forcibly removing a container regardless of its state.
pub open spec fn is_delete_command(c: CommandSpec, id: Seq<char>) -> bool {
    is_docker_command(c) && c.args_view() == seq!["rm"@, "-f"@, id] && !c.hide_output
        && c.enable_timeout && !c.quiet && !c.capture
}

/// Whether the daemon liveness probe found the daemon reachable.
pub fn is_running(outcome: &Result<Vec<String>, CmdError>) -> (r: bool)
    ensures
        r == (outcome is Ok),
{
    outcome.is_ok()
}

/// The daemon liveness probe command.
pub fn info_command() -> (c: CommandSpec)
    ensures
        is_info_command(c),
{
    let mut args: Vec<String> = Vec::new();
    args.push(String::from_str("info"));
    let c = CommandSpec {
        program: String::from_str("docker"),
        args,
        hide_output: true,
        enable_timeout: true,
        quiet: false,
        capture: false,
    };
    proof {
        assert(c.args_view() =~= seq!["info"@]);
    }
    c
}

/// A container image reference, and whether it is local: a reference with no
/// registry-host prefix (no path separator) is assumed present without a
/// pull. The flag is derived once at construction and never re-derived.
#[derive(Debug)]
pub struct DockerEnv {
    image: String,
    local: bool,
}

impl DockerEnv {
    /// The image reference.
    pub closed spec fn image_view(&self) -> Seq<char> {
        self.image@
    }

    /// Whether the reference is local.
    pub closed spec fn is_local_view(&self) -> bool {
        self.local
    }

    /// The locality flag always matches the reference it was derived from.
    pub open spec fn wf(&self) -> bool {
        self.is_local_view() == !has_slash(self.image_view())
    }

    /// An environment for an image reference, deriving its locality: local
    /// exactly when the reference holds no path separator.
    pub fn new(image: &str) -> (r: DockerEnv)
        ensures
            r.image_view() == image@,
            r.wf(),
    {
        let n: usize = image.unicode_len();
        let mut found: bool = false;
        let mut i: usize = 0;
        while i < n
            invariant
                i <= n,
                n == image@.len(),
                found == (exists|j: int| 0 <= j < i && image@[j] == '/'),
            decreases n - i,
        {
            let c = image.get_char(i);
            if c == '/' {
                found = true;
            }
            i = i + 1;
        }
        DockerEnv { image: String::from_str(image), local: !found }
    }

    /// The image reference as a string slice.
    pub fn image_str(&self) -> (r: &str)
        ensures
            r@ == self.image_view(),
    {
        self.image.as_str()
    }

    /// Whether two environments name the same image; environments are
    /// identified by their image reference alone, the locality flag being
    /// derived from it.
    pub fn same_image(&self, other: &DockerEnv) -> (r: bool)
        ensures
            r == (self.image_view() == other.image_view()),
    {
        self.image == other.image
    }

    /// Whether the image reference is local.
    pub fn is_local(&self) -> (r: bool)
        ensures
            r == self.is_local_view(),
    {
        self.local
    }

    /// The pull command for this image.
    pub fn pull(&self) -> (c: CommandSpec)
        ensures
            is_pull_command(c, self.image_view()),
    {
        let mut args: Vec<String> = Vec::new();
        args.push(String::from_str("pull"));
        args.push(self.image.clone());
        let c = CommandSpec {
            program: String::from_str("docker"),
            args,
            hide_output: false,
            enable_timeout: false,
            quiet: false,
            capture: false,
        };
        proof {
            assert(c.args_view() =~= seq!["pull"@, self.image_view()]);
        }
        c
    }

    /// The presence check for this image.
    pub fn image_inspect_command(&self) -> (c: CommandSpec)
        ensures
            is_image_inspect_command(c, self.image_view()),
    {
        let mut args: Vec<String> = Vec::new();
        args.push(String::from_str("image"));
        args.push(String::from_str("inspect"));
        args.push(self.image.clone());
        let c = CommandSpec {
            program: String::from_str("docker"),
            args,
            hide_output: true,
            enable_timeout: true,
            quiet: false,
            capture: false,
        };
        proof {
            assert(c.args_view() =~= seq!["image"@, "inspect"@, self.image_view()]);
        }
        c
    }

    /// The commands that make this image available locally, to be run in
    /// order, stopping at the first failure: a pull first when the reference
    /// is remote, then — local or not — the presence check.
    pub fn ensure_exists_locally(&self) -> (cmds: Vec<CommandSpec>)
        ensures
            self.is_local_view() ==> cmds@.len() == 1 && is_image_inspect_command(
                cmds@[0],
                self.image_view(),
            ),
            !self.is_local_view() ==> cmds@.len() == 2 && is_pull_command(
                cmds@[0],
                self.image_view(),
            ) && is_image_inspect_command(cmds@[1], self.image_view()),
    {
        let mut cmds: Vec<CommandSpec> = Vec::new();
        if !self.is_local() {
            cmds.push(self.pull());
        }
        cmds.push(self.image_inspect_command());
        cmds
    }

    /// The throwaway-container command that prints this image's guest OS
    /// build string.
    pub fn build_number_command(&self) -> (c: CommandSpec)
        ensures
            is_guest_build_command(c, self.image_view()),
    {
        let mut args: Vec<String> = Vec::new();
        args.push(String::from_str("run"));
        args.push(self.image.clone());
        args.push(String::from_str("powershell"));
        args.push(String::from_str("-Command"));
        args.push(
            String::from_str(
                r"$v = Get-ItemProperty 'HKLM:\SOFTWARE\Microsoft\Windows NT\CurrentVersion'; Write-Output ($v.CurrentMajorVersionNumber.ToString() + '.' + $v.CurrentMinorVersionNumber + '.' + $v.CurrentBuildNumber + '.' + $v.UBR)",
            ),
        );
        let c = CommandSpec {
            program: String::from_str("docker"),
            args,
            hide_output: false,
            enable_timeout: true,
            quiet: false,
            capture: true,
        };
        proof {
            assert(c.args_view() =~= seq![
                "run"@,
                self.image_view(),
                "powershell"@,
                "-Command"@,
                guest_build_script(),
            ]);
        }
        c
    }

    /// The guest build of this image, read from the outcome of
    /// [`Self::build_number_command`]: the first captured line, parsed as a
    /// 4-field build string. A failed command or empty capture is a
    /// `CommandFailure`; an unparsable line is a `VersionParseFailure`.
    pub fn build_number(&self, outcome: &Result<Vec<String>, CmdError>) -> (r: Result<
        WindowsBuild,
        Error,
    >)
        ensures
            outcome is Err ==> (r matches Err(e) && e is CommandFailure),
            outcome matches Ok(lines) ==> {
                &&& (lines@.len() == 0 ==> (r matches Err(e) && e is CommandFailure))
                &&& (lines@.len() > 0 ==> {
                    &&& (r is Ok <==> version_ok(lines@[0]@))
                    &&& (r matches Ok(b) ==> b == version_value(lines@[0]@))
                    &&& (r matches Err(e) ==> e is VersionParseFailure)
                })
            },
    {
        match outcome {
            Err(_) => Err(
                Error::CommandFailure {
                    context: String::from_str("guest build query failed"),
                },
            ),
            Ok(lines) => {
                if lines.len() == 0 {
                    Err(
                        Error::CommandFailure {
                            context: String::from_str("guest build query produced no output"),
                        },
                    )
                } else {
                    WindowsBuild::parse_str(lines[0].as_str())
                }
            },
        }
    }
}

impl Clone for DockerEnv {
    /// Cloning keeps the reference and its fixed locality flag.
    fn clone(&self) -> (r: Self)
        ensures
            r == *self,
    {
        DockerEnv { image: self.image.clone(), local: self.local }
    }
}

/// Permission granted to the container on a bind mount.
#[derive(Copy, Clone, Debug, PartialEq, Eq, Structural)]
pub enum MountPerms {
    ReadWrite,
    ReadOnly,
}

/// Which bind-mount argument syntax the engine on the current host takes.
/// Chosen once at startup for the platform, not per call.
#[derive(Copy, Clone, Debug, PartialEq, Eq, Structural)]
pub enum MountStyle {
    /// `--mount type=bind,...`: supports embedded colons in host paths.
    Mount,
    /// `-v host:container:perm,Z`: compact flag with the relabeling suffix
    /// that mandatory-access-control systems require.
    Volume,
}

/// One bind mount of a host directory into the container.
pub struct MountConfig {
    pub host_path: String,
    pub container_path: String,
    pub perm: MountPerms,
}

/// Resolve a path against the current working directory, under the POSIX
/// path model this library assumes: a path is absolute exactly when it
/// begins with `/`, and joining inserts a `/` separator only when `cwd`
/// does not already end in one. On a host whose absolute paths take
/// another form (a drive prefix), the embedding program must resolve host
/// paths itself before handing them in: this rule would join them wrongly.
pub open spec fn absolute_spec(path: Seq<char>, cwd: Seq<char>) -> Seq<char> {
    if path.len() > 0 && path[0] == '/' {
        path
    } else if cwd.len() > 0 && cwd[cwd.len() - 1] == '/' {
        cwd + path
    } else {
        cwd + "/"@ + path
    }
}

/// Resolve `path` to an absolute path, joining it under `cwd` when
/// relative, by the rule of [`absolute_spec`]; the engine requires
/// absolute bind-mount sources.
pub fn absolute(path: &str, cwd: &str) -> (r: String)
    ensures
        r@ == absolute_spec(path@, cwd@),
{
    let is_abs = path.unicode_len() > 0 && path.get_char(0) == '/';
    if is_abs {
        String::from_str(path)
    } else {
        let cwd_len = cwd.unicode_len();
        let trailing = cwd_len > 0 && cwd.get_char(cwd_len - 1) == '/';
        if trailing {
            let r = String::from_str(cwd).concat(path);
            proof {
                assert(r@ =~= cwd@ + path@);
            }
            r
        } else {
            let r = String::from_str(cwd).concat("/").concat(path);
            proof {
                assert(r@ =~= cwd@ + "/"@ + path@);
            }
            r
        }
    }
}

/// The `rw`/`ro` token of the compact volume syntax.
pub open spec fn perm_token(p: MountPerms) -> Seq<char> {
    if p is ReadWrite {
        "rw"@
    } else {
        "ro"@
    }
}

/// The compact volume argument: `<abs-host>:<container>:<rw|ro>,Z`.
pub open spec fn volume_arg_spec(m: MountConfig, cwd: Seq<char>) -> Seq<char> {
    absolute_spec(m.host_path@, cwd) + ":"@ + m.container_path@ + ":"@ + perm_token(m.perm)
        + ",Z"@
}

/// The long mount argument:
/// `type=bind,src=<abs-host>,dst=<container>[,readonly]`.
pub open spec fn mount_arg_spec(m: MountConfig, cwd: Seq<char>) -> Seq<char> {
    "type=bind,src="@ + absolute_spec(m.host_path@, cwd) + ",dst="@ + m.container_path@ + (
    if m.perm is ReadOnly {
        ",readonly"@
    } else {
        Seq::<char>::empty()
    })
}

impl MountConfig {
    /// Format this mount in the compact volume syntax.
    pub fn to_volume_arg(&self, cwd: &str) -> (r: String)
        ensures
            r@ == volume_arg_spec(*self, cwd@),
    {
        let mut out = absolute(self.host_path.as_str(), cwd);
        out = out.concat(":");
        out = out.concat(self.container_path.as_str());
        out = out.concat(":");
        out = out.concat(
            match self.perm {
                MountPerms::ReadWrite => "rw",
                MountPerms::ReadOnly => "ro",
            },
        );
        out = out.concat(",Z");
        proof {
            assert(out@ =~= volume_arg_spec(*self, cwd@));
        }
        out
    }

    /// Format this mount in the long mount syntax.
    pub fn to_mount_arg(&self, cwd: &str) -> (r: String)
        ensures
            r@ == mount_arg_spec(*self, cwd@),
    {
        let mut out = String::from_str("type=bind,src=");
        out = out.concat(absolute(self.host_path.as_str(), cwd).as_str());
        out = out.concat(",dst=");
        out = out.concat(self.container_path.as_str());
        if match self.perm {
            MountPerms::ReadWrite => false,
            MountPerms::ReadOnly => true,
        } {
            out = out.concat(",readonly");
        }
        proof {
            assert(out@ =~= mount_arg_spec(*self, cwd@));
        }
        out
    }
}

/// The flag introducing one mount argument, per syntax style.
pub open spec fn mount_flag(style: MountStyle) -> Seq<char> {
    if style is Mount {
        "--mount"@
    } else {
        "-v"@
    }
}

/// The formatted mount argument, per syntax style.
pub open spec fn mount_arg_for(m: MountConfig, cwd: Seq<char>, style: MountStyle) -> Seq<char> {
    if style is Mount {
        mount_arg_spec(m, cwd)
    } else {
        volume_arg_spec(m, cwd)
    }
}

/// Arguments contributed by the mounts, in order: a flag and a formatted
/// mount argument for each.
pub open spec fn mounts_args(ms: Seq<MountConfig>, cwd: Seq<char>, style: MountStyle) -> Seq<
    Seq<char>,
>
    decreases ms.len(),
{
    if ms.len() == 0 {
        Seq::empty()
    } else {
        mounts_args(ms.drop_last(), cwd, style) + seq![
            mount_flag(style),
            mount_arg_for(ms.last(), cwd, style),
        ]
    }
}

/// Arguments contributed by the environment variables, in order: `-e` and a
/// `key=value` pair for each; duplicate keys are allowed and the engine lets
/// the last one win.
pub open spec fn env_args(es: Seq<(String, String)>) -> Seq<Seq<char>>
    decreases es.len(),
{
    if es.len() == 0 {
        Seq::empty()
    } else {
        env_args(es.drop_last()) + seq!["-e"@, es.last().0@ + "="@ + es.last().1@]
    }
}

/// Arguments contributed by the working directory, when set.
pub open spec fn workdir_args(w: Option<String>) -> Seq<Seq<char>> {
    match w {
        Option::None => Seq::empty(),
        Option::Some(d) => seq!["-w"@, d@],
    }
}

/// Arguments contributed by the memory limit, when set, in plain bytes.
pub open spec fn memory_args(l: Option<u64>) -> Seq<Seq<char>> {
    match l {
        Option::None => Seq::empty(),
        Option::Some(n) => seq!["-m"@, dec_rep(n as nat)],
    }
}

/// The explicit no-network directive, when networking is disabled.
pub open spec fn network_args(enabled: bool) -> Seq<Seq<char>> {
    if enabled {
        Seq::empty()
    } else {
        seq!["--network"@, "none"@]
    }
}

/// The full argument vector of the create operation: mounts, environment,
/// working directory, memory limit, networking, then the image and the
/// literal command arguments.
pub open spec fn create_args(b: ContainerBuilder, cwd: Seq<char>) -> Seq<Seq<char>> {
    seq!["create"@] + mounts_args(b.mounts@, cwd, b.mount_style) + env_args(b.env@)
        + workdir_args(b.workdir) + memory_args(b.memory_limit) + network_args(
        b.enable_networking,
    ) + seq![b.image.image_view()] + views_of(b.cmd@)
}

/// Creating a container from a built specification; the first captured
/// output line is the engine-assigned container id.
pub open spec fn is_create_command(c: CommandSpec, b: ContainerBuilder, cwd: Seq<char>) -> bool {
    is_docker_command(c) && c.args_view() == create_args(b, cwd) && !c.hide_output
        && c.enable_timeout && !c.quiet && c.capture
}

/// Builder state for one container: accumulated mounts, environment
/// variables, working directory, memory limit, command and networking
/// toggle. Consumed exactly once when the create command is emitted.
pub struct ContainerBuilder {
    pub image: DockerEnv,
    pub mounts: Vec<MountConfig>,
    pub env: Vec<(String, String)>,
    pub workdir: Option<String>,
    pub memory_limit: Option<u64>,
    pub cmd: Vec<String>,
    pub enable_networking: bool,
    pub mount_style: MountStyle,
}

impl ContainerBuilder {
    /// A fresh specification for `image`: no mounts, variables, working
    /// directory, memory limit or command, networking enabled. The mount
    /// argument syntax is the strategy the embedding program selected for
    /// the current platform, fixed for this builder.
    pub fn new(image: &DockerEnv, mount_style: MountStyle) -> (r: ContainerBuilder)
        ensures
            r.image == *image,
            r.mounts@.len() == 0,
            r.env@.len() == 0,
            r.workdir is None,
            r.memory_limit is None,
            r.cmd@.len() == 0,
            r.enable_networking,
            r.mount_style == mount_style,
    {
        ContainerBuilder {
            image: image.clone(),
            mounts: Vec::new(),
            env: Vec::new(),
            workdir: None,
            memory_limit: None,
            cmd: Vec::new(),
            enable_networking: true,
            mount_style,
        }
    }

    /// Append a bind mount of `host_path` (resolved at create time) onto
    /// `container_path` with the given permission.
    pub fn mount(self, host_path: &str, container_path: &str, perm: MountPerms) -> (r:
        ContainerBuilder)
        ensures
            r.mounts@.len() == self.mounts@.len() + 1,
            r.mounts@.drop_last() == self.mounts@,
            r.mounts@.last().host_path@ == host_path@,
            r.mounts@.last().container_path@ == container_path@,
            r.mounts@.last().perm == perm,
            r.image == self.image,
            r.env@ == self.env@,
            r.workdir == self.workdir,
            r.memory_limit == self.memory_limit,
            r.cmd@ == self.cmd@,
            r.enable_networking == self.enable_networking,
            r.mount_style == self.mount_style,
    {
        let mut mounts = self.mounts;
        mounts.push(
            MountConfig {
                host_path: String::from_str(host_path),
                container_path: String::from_str(container_path),
                perm,
            },
        );
        proof {
            assert(mounts@.drop_last() =~= self.mounts@);
        }
        ContainerBuilder { mounts, ..self }
    }

    /// Append an environment variable.
    pub fn env(self, key: &str, value: &str) -> (r: ContainerBuilder)
        ensures
            r.env@.len() == self.env@.len() + 1,
            r.env@.drop_last() == self.env@,
            r.env@.last().0@ == key@,
            r.env@.last().1@ == value@,
            r.image == self.image,
            r.mounts@ == self.mounts@,
            r.workdir == self.workdir,
            r.memory_limit == self.memory_limit,
            r.cmd@ == self.cmd@,
            r.enable_networking == self.enable_networking,
            r.mount_style == self.mount_style,
    {
        let mut env = self.env;
        env.push((String::from_str(key), String::from_str(value)));
        proof {
            assert(env@.drop_last() =~= self.env@);
        }
        ContainerBuilder { env, ..self }
    }

    /// Set the working directory inside the container.
    pub fn workdir(self, workdir: &str) -> (r: ContainerBuilder)
        ensures
            r.workdir matches Some(d) && d@ == workdir@,
            r.image == self.image,
            r.mounts@ == self.mounts@,
            r.env@ == self.env@,
            r.memory_limit == self.memory_limit,
            r.cmd@ == self.cmd@,
            r.enable_networking == self.enable_networking,
            r.mount_style == self.mount_style,
    {
        ContainerBuilder { workdir: Some(String::from_str(workdir)), ..self }
    }

    /// Set or clear the memory limit, in bytes.
    pub fn memory_limit(self, limit: Option<u64>) -> (r: ContainerBuilder)
        ensures
            r.memory_limit == limit,
            r.image == self.image,
            r.mounts@ == self.mounts@,
            r.env@ == self.env@,
            r.workdir == self.workdir,
            r.cmd@ == self.cmd@,
            r.enable_networking == self.enable_networking,
            r.mount_style == self.mount_style,
    {
        ContainerBuilder { memory_limit: limit, ..self }
    }

    /// Set the command the container runs.
    pub fn cmd(self, cmd: Vec<String>) -> (r: ContainerBuilder)
        ensures
            r.cmd@ == cmd@,
            r.image == self.image,
            r.mounts@ == self.mounts@,
            r.env@ == self.env@,
            r.workdir == self.workdir,
            r.memory_limit == self.memory_limit,
            r.enable_networking == self.enable_networking,
            r.mount_style == self.mount_style,
    {
        ContainerBuilder { cmd, ..self }
    }

    /// Enable or disable networking.
    pub fn enable_networking(self, enable: bool) -> (r: ContainerBuilder)
        ensures
            r.enable_networking == enable,
            r.image == self.image,
            r.mounts@ == self.mounts@,
            r.env@ == self.env@,
            r.workdir == self.workdir,
            r.memory_limit == self.memory_limit,
            r.cmd@ == self.cmd@,
            r.mount_style == self.mount_style,
    {
        ContainerBuilder { enable_networking: enable, ..self }
    }

    /// Emit the create command for this specification, resolving relative
    /// mount sources under `cwd`. The embedding program must have created
    /// every mount's host directory before running the command.
    pub fn create(self, cwd: &str) -> (c: CommandSpec)
        ensures
            is_create_command(c, self, cwd@),
    {
        let mut args: Vec<String> = Vec::new();
        args.push(String::from_str("create"));
        proof {
            assert(self.mounts@.take(0) =~= Seq::<MountConfig>::empty());
            assert(views_of(args@) =~= seq!["create"@] + mounts_args(
                self.mounts@.take(0),
                cwd@,
                self.mount_style,
            ));
        }
        let mut i: usize = 0;
        while i < self.mounts.len()
            invariant
                i <= self.mounts@.len(),
                views_of(args@) == seq!["create"@] + mounts_args(
                    self.mounts@.take(i as int),
                    cwd@,
                    self.mount_style,
                ),
            decreases self.mounts@.len() - i,
        {
            let use_mount_syntax = self.mount_style == MountStyle::Mount;
            let flag_s = if use_mount_syntax {
                String::from_str("--mount")
            } else {
                String::from_str("-v")
            };
            let marg = if use_mount_syntax {
                self.mounts[i].to_mount_arg(cwd)
            } else {
                self.mounts[i].to_volume_arg(cwd)
            };
            let ghost a0 = args@;
            args.push(flag_s);
            args.push(marg);
            proof {
                crate::command::lemma_views_push(a0, flag_s);
                crate::command::lemma_views_push(a0.push(flag_s), marg);
                let pre = self.mounts@.take(i as int);
                let post = self.mounts@.take(i as int + 1);
                assert(post.drop_last() =~= pre);
                assert(post.last() == self.mounts@[i as int]);
                assert(mounts_args(post, cwd@, self.mount_style) == mounts_args(
                    pre,
                    cwd@,
                    self.mount_style,
                ) + seq![
                    mount_flag(self.mount_style),
                    mount_arg_for(self.mounts@[i as int], cwd@, self.mount_style),
                ]);
                assert(views_of(args@) == views_of(a0).push(flag_s@).push(marg@));
                assert(views_of(args@) =~= seq!["create"@] + mounts_args(
                    post,
                    cwd@,
                    self.mount_style,
                ));
            }
            i = i + 1;
        }
        proof {
            assert(self.mounts@.take(self.mounts@.len() as int) =~= self.mounts@);
            assert(self.env@.take(0) =~= Seq::<(String, String)>::empty());
            assert(views_of(args@) =~= seq!["create"@] + mounts_args(
                self.mounts@,
                cwd@,
                self.mount_style,
            ) + env_args(self.env@.take(0)));
        }
        let mut k: usize = 0;
        while k < self.env.len()
            invariant
                k <= self.env@.len(),
                views_of(args@) == seq!["create"@] + mounts_args(
                    self.mounts@,
                    cwd@,
                    self.mount_style,
                ) + env_args(self.env@.take(k as int)),
            decreases self.env@.len() - k,
        {
            let kv = self.env[k].0.clone().concat("=").concat(self.env[k].1.as_str());
            let dash_e = String::from_str("-e");
            let ghost a0 = args@;
            args.push(dash_e);
            args.push(kv);
            proof {
                crate::command::lemma_views_push(a0, dash_e);
                crate::command::lemma_views_push(a0.push(dash_e), kv);
                let pre = self.env@.take(k as int);
                let post = self.env@.take(k as int + 1);
                assert(post.drop_last() =~= pre);
                assert(post.last() == self.env@[k as int]);
                assert(env_args(post) == env_args(pre) + seq![
                    "-e"@,
                    self.env@[k as int].0@ + "="@ + self.env@[k as int].1@,
                ]);
                assert(views_of(args@) == views_of(a0).push(dash_e@).push(kv@));
                assert(views_of(args@) =~= seq!["create"@] + mounts_args(
                    self.mounts@,
                    cwd@,
                    self.mount_style,
                ) + env_args(post));
            }
            k = k + 1;
        }
        proof {
            assert(self.env@.take(self.env@.len() as int) =~= self.env@);
        }
        match &self.workdir {
            None => {},
            Some(d) => {
                args.push(String::from_str("-w"));
                args.push(d.clone());
            },
        }
        proof {
            assert(views_of(args@) =~= seq!["create"@] + mounts_args(
                self.mounts@,
                cwd@,
                self.mount_style,
            ) + env_args(self.env@) + workdir_args(self.workdir));
        }
        match self.memory_limit {
            None => {},
            Some(l) => {
                args.push(String::from_str("-m"));
                args.push(u64_to_decimal(l));
            },
        }
        if !self.enable_networking {
            args.push(String::from_str("--network"));
            args.push(String::from_str("none"));
        }
        args.push(self.image.image.clone());
        proof {
            assert(self.cmd@.take(0) =~= Seq::<String>::empty());
            assert(views_of(self.cmd@.take(0)) =~= Seq::<Seq<char>>::empty());
            assert(views_of(args@) =~= seq!["create"@] + mounts_args(
                self.mounts@,
                cwd@,
                self.mount_style,
            ) + env_args(self.env@) + workdir_args(self.workdir) + memory_args(
                self.memory_limit,
            ) + network_args(self.enable_networking) + seq![self.image.image_view()]
                + views_of(self.cmd@.take(0)));
        }
        let mut t: usize = 0;
        while t < self.cmd.len()
            invariant
                t <= self.cmd@.len(),
                views_of(args@) == seq!["create"@] + mounts_args(
                    self.mounts@,
                    cwd@,
                    self.mount_style,
                ) + env_args(self.env@) + workdir_args(self.workdir) + memory_args(
                    self.memory_limit,
                ) + network_args(self.enable_networking) + seq![self.image.image_view()]
                    + views_of(self.cmd@.take(t as int)),
            decreases self.cmd@.len() - t,
        {
            let item = self.cmd[t].clone();
            let ghost a0 = args@;
            args.push(item);
            proof {
                crate::command::lemma_views_push(a0, item);
                assert(views_of(args@) == views_of(a0).push(item@));
                assert(views_of(self.cmd@.take(t as int + 1)) =~= views_of(
                    self.cmd@.take(t as int),
                ).push(self.cmd@[t as int]@));
                assert(views_of(args@) =~= seq!["create"@] + mounts_args(
                    self.mounts@,
                    cwd@,
                    self.mount_style,
                ) + env_args(self.env@) + workdir_args(self.workdir) + memory_args(
                    self.memory_limit,
                ) + network_args(self.enable_networking) + seq![self.image.image_view()]
                    + views_of(self.cmd@.take(t as int + 1)));
            }
            t = t + 1;
        }
        proof {
            assert(self.cmd@.take(self.cmd@.len() as int) =~= self.cmd@);
        }
        let c = CommandSpec {
            program: String::from_str("docker"),
            args,
            hide_output: false,
            enable_timeout: true,
            quiet: false,
            capture: true,
        };
        proof {
            assert(c.args_view() == create_args(self, cwd@));
        }
        c
    }
}

/// The final reported result of one attached run, from the start operation's
/// outcome and the inspected out-of-memory flag: a failed inspection
/// propagates as it is; an out-of-memory kill takes precedence over the
/// start result for user-visible reporting, keeping a failed start's context
/// alongside; otherwise the start result passes through unchanged.
pub open spec fn combined_result(start: Result<(), CmdError>, inspected: Result<
    bool,
    Error,
>) -> Result<(), Error> {
    match inspected {
        Err(e) => Err(e),
        Ok(oom) => if oom {
            Err(
                Error::OutOfMemory {
                    start_failure: match start {
                        Ok(_) => None,
                        Err(se) => Some(se),
                    },
                },
            )
        } else {
            match start {
                Ok(_) => Ok(()),
                Err(se) => Err(Error::CommandFailure { context: se.context }),
            }
        },
    }
}

/// A live or finished container, known by its engine-assigned identifier.
#[derive(Debug)]
pub struct Container {
    id: String,
}

impl Container {
    /// The engine-assigned identifier.
    pub closed spec fn id_view(&self) -> Seq<char> {
        self.id@
    }

    /// A handle for a known engine-assigned identifier.
    pub fn from_id(id: String) -> (r: Container)
        ensures
            r.id_view() == id@,
    {
        Container { id }
    }

    /// The engine-assigned identifier as a string slice.
    pub fn id(&self) -> (r: &str)
        ensures
            r@ == self.id_view(),
    {
        self.id.as_str()
    }

    /// The container created by a create command, read from the runner's
    /// outcome: the first captured line is the new container's id. A failed
    /// command or empty capture is a `CommandFailure`.
    pub fn from_create_outcome(outcome: &Result<Vec<String>, CmdError>) -> (r: Result<
        Container,
        Error,
    >)
        ensures
            outcome is Err ==> (r matches Err(e) && e is CommandFailure),
            outcome matches Ok(lines) ==> {
                &&& (lines@.len() == 0 ==> (r matches Err(e) && e is CommandFailure))
                &&& (lines@.len() > 0 ==> (r matches Ok(c) && c.id_view() == lines@[0]@))
            },
    {
        match outcome {
            Err(_) => Err(
                Error::CommandFailure { context: String::from_str("container creation failed") },
            ),
            Ok(lines) => {
                if lines.len() == 0 {
                    Err(
                        Error::CommandFailure {
                            context: String::from_str("container creation produced no id"),
                        },
                    )
                } else {
                    Ok(Container { id: lines[0].clone() })
                }
            },
        }
    }

    /// The attached start command for this container.
    pub fn start_command(&self, quiet: bool) -> (c: CommandSpec)
        ensures
            is_start_command(c, self.id_view(), quiet),
    {
        let mut args: Vec<String> = Vec::new();
        args.push(String::from_str("start"));
        args.push(String::from_str("-a"));
        args.push(self.id.clone());
        let c = CommandSpec {
            program: String::from_str("docker"),
            args,
            hide_output: false,
            enable_timeout: false,
            quiet,
            capture: false,
        };
        proof {
            assert(c.args_view() =~= seq!["start"@, "-a"@, self.id_view()]);
        }
        c
    }

    /// The metadata query command for this container.
    pub fn inspect_command(&self) -> (c: CommandSpec)
        ensures
            is_inspect_command(c, self.id_view()),
    {
        let mut args: Vec<String> = Vec::new();
        args.push(String::from_str("inspect"));
        args.push(self.id.clone());
        let c = CommandSpec {
            program: String::from_str("docker"),
            args,
            hide_output: true,
            enable_timeout: true,
            quiet: false,
            capture: true,
        };
        proof {
            assert(c.args_view() =~= seq!["inspect"@, self.id_view()]);
        }
        c
    }

    /// The forced-removal command for this container. Removal failures are
    /// surfaced to the caller but must not be treated as fatal by cleanup
    /// logic that deletes defensively.
    pub fn delete(&self) -> (c: CommandSpec)
        ensures
            is_delete_command(c, self.id_view()),
    {
        let mut args: Vec<String> = Vec::new();
        args.push(String::from_str("rm"));
        args.push(String::from_str("-f"));
        args.push(self.id.clone());
        let c = CommandSpec {
            program: String::from_str("docker"),
            args,
            hide_output: false,
            enable_timeout: true,
            quiet: false,
            capture: false,
        };
        proof {
            assert(c.args_view() =~= seq!["rm"@, "-f"@, self.id_view()]);
        }
        c
    }

    /// The final reported result of one attached run, combining the start
    /// operation's outcome with the inspected out-of-memory flag: a failed
    /// inspection propagates; an out-of-memory kill overrides the start
    /// result (keeping a failed start's context alongside); otherwise the
    /// start result passes through unchanged.
    pub fn run(&self, start: Result<(), CmdError>, inspected: Result<bool, Error>) -> (r: Result<
        (),
        Error,
    >)
        ensures
            r == combined_result(start, inspected),
    {
        match inspected {
            Err(e) => Err(e),
            Ok(oom) => {
                if oom {
                    match start {
                        Ok(_) => Err(Error::OutOfMemory { start_failure: None }),
                        Err(se) => Err(Error::OutOfMemory { start_failure: Some(se) }),
                    }
                } else {
                    match start {
                        Ok(_) => Ok(()),
                        Err(se) => Err(Error::CommandFailure { context: se.context }),
                    }
                }
            },
        }
    }
}

impl Clone for Container {
    /// Cloning keeps the identifier.
    fn clone(&self) -> (r: Self)
        ensures
            r == *self,
    {
        Container { id: self.id.clone() }
    }
}

} // verus!
