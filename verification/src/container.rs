//! The container/volume lifecycle: the exact runtime commands that seed a
//! home volume, launch or reconnect a session, run a one-off command, and
//! clean a workspace's container and volume. Each function returns the argv
//! lists to hand to the container runtime, in order, each marked fatal or
//! best-effort; running them, and probing the runtime between steps, is
//! process work that happens outside the library.

use vstd::prelude::*;
use vstd::string::StringExecFns;
use crate::config::AppConfig;
use crate::identity::WorkspaceIdentity;

verus! {

/// How a failure of one runtime command is treated.
pub enum CmdPolicy {
    /// A non-zero exit aborts the whole operation.
    Fatal,
    /// A non-zero exit is logged and the operation continues: cleanup steps
    /// and best-effort copies must not abort a flow that will recover anyway.
    BestEffort,
}

/// One invocation of the container runtime: its arguments, and how a failure
/// is treated. Failure to invoke the runtime binary at all is always fatal,
/// whatever the policy.
pub struct RuntimeCmd {
    pub args: Vec<String>,
    pub policy: CmdPolicy,
}

/// The argument texts of a command.
pub open spec fn cmd_args(c: RuntimeCmd) -> Seq<Seq<char>> {
    c.args.deep_view()
}

/// Whether a command is best-effort.
pub open spec fn cmd_soft(c: RuntimeCmd) -> bool {
    c.policy is BestEffort
}

/// A command as its model: argument texts plus policy.
pub ghost struct CmdModel {
    pub args: Seq<Seq<char>>,
    pub soft: bool,
}

pub open spec fn cmd_model(c: RuntimeCmd) -> CmdModel {
    CmdModel { args: cmd_args(c), soft: cmd_soft(c) }
}

pub open spec fn plan_model(s: Seq<RuntimeCmd>) -> Seq<CmdModel> {
    s.map_values(|c: RuntimeCmd| cmd_model(c))
}

/// A name occurs among the arguments of some command of a plan.
pub open spec fn plan_mentions(model: Seq<CmdModel>, name: Seq<char>) -> bool {
    exists|i: int, j: int|
        0 <= i < model.len() && 0 <= j < model[i].args.len() && model[i].args[j] == name
}

// ---------------------------------------------------------------------------
// Probe queries (§ runtime probe): argv only; the caller interprets empty vs
// non-empty output, or the exit code, as the boolean.
// ---------------------------------------------------------------------------

pub open spec fn ps_filter_text(name: Seq<char>) -> Seq<char> {
    "name=^"@ + name + "$"@
}

pub open spec fn container_exists_query_args(name: Seq<char>) -> Seq<Seq<char>> {
    seq!["ps"@, "-a"@, "--filter"@, ps_filter_text(name), "--format"@, "{{.Names}}"@]
}

pub open spec fn container_running_query_args(name: Seq<char>) -> Seq<Seq<char>> {
    seq!["ps"@, "--filter"@, ps_filter_text(name), "--format"@, "{{.Names}}"@]
}

pub open spec fn volume_exists_query_args(name: Seq<char>) -> Seq<Seq<char>> {
    seq!["volume"@, "exists"@, name]
}

pub open spec fn image_exists_query_args(image: Seq<char>) -> Seq<Seq<char>> {
    seq!["image"@, "exists"@, image]
}

pub open spec fn list_containers_query_args() -> Seq<Seq<char>> {
    seq![
        "ps"@,
        "-a"@,
        "--filter"@,
        "name=^ai-pod-"@,
        "--format"@,
        "{{.Names}}\t{{.Status}}\t{{.CreatedAt}}"@,
    ]
}

fn ps_filter(name: &str) -> (r: String)
    ensures
        r@ == ps_filter_text(name@),
{
    "name=^".to_owned().concat(name).concat("$")
}

/// The query that tells whether a container with this exact name exists,
/// running or stopped: non-empty output means it does.
pub fn container_exists_query(name: &str) -> (r: Vec<String>)
    ensures
        r.deep_view() == container_exists_query_args(name@),
{
    let mut args: Vec<String> = Vec::new();
    args.push("ps".to_owned());
    args.push("-a".to_owned());
    args.push("--filter".to_owned());
    args.push(ps_filter(name));
    args.push("--format".to_owned());
    args.push("{{.Names}}".to_owned());
    proof {
        assert(args.deep_view() =~= container_exists_query_args(name@));
    }
    args
}

/// The query that tells whether a container with this exact name is running:
/// non-empty output means it is.
pub fn container_running_query(name: &str) -> (r: Vec<String>)
    ensures
        r.deep_view() == container_running_query_args(name@),
{
    let mut args: Vec<String> = Vec::new();
    args.push("ps".to_owned());
    args.push("--filter".to_owned());
    args.push(ps_filter(name));
    args.push("--format".to_owned());
    args.push("{{.Names}}".to_owned());
    proof {
        assert(args.deep_view() =~= container_running_query_args(name@));
    }
    args
}

/// The query that tells whether a named volume exists: a success exit code
/// means it does.
pub fn volume_exists_query(name: &str) -> (r: Vec<String>)
    ensures
        r.deep_view() == volume_exists_query_args(name@),
{
    let mut args: Vec<String> = Vec::new();
    args.push("volume".to_owned());
    args.push("exists".to_owned());
    args.push(name.to_owned());
    proof {
        assert(args.deep_view() =~= volume_exists_query_args(name@));
    }
    args
}

/// The query that tells whether an image exists: a success exit code means it
/// does.
pub fn image_exists_query(image: &str) -> (r: Vec<String>)
    ensures
        r.deep_view() == image_exists_query_args(image@),
{
    let mut args: Vec<String> = Vec::new();
    args.push("image".to_owned());
    args.push("exists".to_owned());
    args.push(image.to_owned());
    proof {
        assert(args.deep_view() =~= image_exists_query_args(image@));
    }
    args
}

/// The query that lists every container this tool manages, with status and
/// creation time.
pub fn list_containers_query() -> (r: Vec<String>)
    ensures
        r.deep_view() == list_containers_query_args(),
{
    let mut args: Vec<String> = Vec::new();
    args.push("ps".to_owned());
    args.push("-a".to_owned());
    args.push("--filter".to_owned());
    args.push("name=^ai-pod-".to_owned());
    args.push("--format".to_owned());
    args.push("{{.Names}}\t{{.Status}}\t{{.CreatedAt}}".to_owned());
    proof {
        assert(args.deep_view() =~= list_containers_query_args());
    }
    args
}

// ---------------------------------------------------------------------------
// Mutating commands.
// ---------------------------------------------------------------------------

pub open spec fn volume_create_args(name: Seq<char>) -> Seq<Seq<char>> {
    seq!["volume"@, "create"@, name]
}

pub open spec fn volume_rm_args(name: Seq<char>) -> Seq<Seq<char>> {
    seq!["volume"@, "rm"@, name]
}

pub open spec fn rm_args(name: Seq<char>) -> Seq<Seq<char>> {
    seq!["rm"@, name]
}

pub open spec fn rm_force_args(name: Seq<char>) -> Seq<Seq<char>> {
    seq!["rm"@, "--force"@, name]
}

pub open spec fn stop_args(name: Seq<char>) -> Seq<Seq<char>> {
    seq!["stop"@, name]
}

pub open spec fn attach_args(name: Seq<char>) -> Seq<Seq<char>> {
    seq!["attach"@, name]
}

pub open spec fn cp_args(src: Seq<char>, dst: Seq<char>) -> Seq<Seq<char>> {
    seq!["cp"@, src, dst]
}

pub open spec fn build_image_args(
    image: Seq<char>,
    dockerfile: Seq<char>,
    context_dir: Seq<char>,
) -> Seq<Seq<char>> {
    seq!["build"@, "-t"@, image, "-f"@, dockerfile, context_dir]
}

/// The URL the in-container completion hook posts to.
pub open spec fn notify_url_text(port: u16) -> Seq<char> {
    "http://host.containers.internal:"@ + crate::strutil::dec_str(port as nat) + "/notify"@
}

/// The shell script the seeding step runs inside the image: copy the image's
/// built-in home directory into the mounted volume and fix its ownership.
pub open spec fn seed_script_text() -> Seq<char> {
    "cp -a /home/agent/. /mnt/agent-home/ && mkdir -p /mnt/agent-home/.agent && chown -R agent:agent /mnt/agent-home"@
}

/// The throwaway privileged invocation that seeds a fresh volume from the
/// image's home directory.
pub open spec fn seed_from_image_args(vol: Seq<char>, image: Seq<char>) -> Seq<Seq<char>> {
    seq![
        "run"@,
        "--rm"@,
        "--user"@,
        "root"@,
        "--entrypoint"@,
        "/bin/sh"@,
        "-v"@,
        vol + ":/mnt/agent-home"@,
        image,
        "-c"@,
        seed_script_text(),
    ]
}

/// The disposable, never-started container used as a copy target while
/// seeding.
pub open spec fn init_create_args(
    init_name: Seq<char>,
    vol: Seq<char>,
    image: Seq<char>,
) -> Seq<Seq<char>> {
    seq!["create"@, "--name"@, init_name, "-v"@, vol + ":/home/agent"@, image]
}

/// The interactive session container: bound to the home volume and the
/// workspace mount, with the host-gateway alias configured so in-container
/// processes reach the host.
pub open spec fn launch_run_args(
    container: Seq<char>,
    vol: Seq<char>,
    workspace: Seq<char>,
    image: Seq<char>,
    port: u16,
) -> Seq<Seq<char>> {
    seq![
        "run"@,
        "--rm"@,
        "-it"@,
        "--name"@,
        container,
        "-v"@,
        vol + ":/home/agent:z"@,
        "-v"@,
        workspace + ":/app:Z"@,
        "--add-host=host.containers.internal:host-gateway"@,
        "-e"@,
        "HOST_GATEWAY=host.containers.internal"@,
        "-e"@,
        "NOTIFY_URL="@ + notify_url_text(port),
        image,
    ]
}

/// A one-off, non-persistent invocation with a chosen entrypoint; the
/// caller's extra arguments follow the image name.
pub open spec fn one_off_run_args(
    vol: Seq<char>,
    workspace: Seq<char>,
    image: Seq<char>,
    port: u16,
    command: Seq<char>,
) -> Seq<Seq<char>> {
    seq![
        "run"@,
        "--rm"@,
        "-it"@,
        "-v"@,
        vol + ":/home/agent"@,
        "-v"@,
        workspace + ":/app:Z"@,
        "--add-host=host.containers.internal:host-gateway"@,
        "-e"@,
        "HOST_GATEWAY=host.containers.internal"@,
        "-e"@,
        "NOTIFY_URL="@ + notify_url_text(port),
        "--entrypoint"@,
        command,
        image,
    ]
}

pub fn notify_url(port: u16) -> (r: String)
    ensures
        r@ == notify_url_text(port),
{
    let mut s = "http://host.containers.internal:".to_owned();
    let digits = crate::strutil::u64_to_string(port as u64);
    s.append(digits.as_str());
    s.append("/notify");
    s
}

/// The image build command: the workspace's customization file against the
/// tool's private directory as build context.
pub fn build_image_cmd(image: &str, dockerfile: &str, context_dir: &str) -> (r: RuntimeCmd)
    ensures
        cmd_args(r) == build_image_args(image@, dockerfile@, context_dir@),
        !cmd_soft(r),
{
    let mut args: Vec<String> = Vec::new();
    args.push("build".to_owned());
    args.push("-t".to_owned());
    args.push(image.to_owned());
    args.push("-f".to_owned());
    args.push(dockerfile.to_owned());
    args.push(context_dir.to_owned());
    proof {
        assert(args.deep_view() =~= build_image_args(image@, dockerfile@, context_dir@));
    }
    RuntimeCmd { args, policy: CmdPolicy::Fatal }
}

fn two_arg_cmd(a: &str, name: &str, policy: CmdPolicy) -> (r: RuntimeCmd)
    ensures
        cmd_args(r) == seq![a@, name@],
        cmd_soft(r) == (policy is BestEffort),
{
    let mut args: Vec<String> = Vec::new();
    args.push(a.to_owned());
    args.push(name.to_owned());
    proof {
        assert(args.deep_view() =~= seq![a@, name@]);
    }
    RuntimeCmd { args, policy }
}

fn cp_cmd(src: String, dst: String) -> (r: RuntimeCmd)
    ensures
        cmd_args(r) == cp_args(src@, dst@),
        cmd_soft(r),
{
    let mut args: Vec<String> = Vec::new();
    args.push("cp".to_owned());
    args.push(src);
    args.push(dst);
    proof {
        assert(args.deep_view() =~= cp_args(args@[1]@, args@[2]@));
    }
    RuntimeCmd { args, policy: CmdPolicy::BestEffort }
}

// ---------------------------------------------------------------------------
// Rebuild teardown (step 1 of a launch).
// ---------------------------------------------------------------------------

/// When a rebuild was requested and the container exists, it is force-removed
/// first — best-effort, since a failure to remove will surface again and the
/// flow must not abort over a cleanup step. The home volume is never touched
/// by a rebuild.
pub fn rebuild_teardown_cmd(rebuild: bool, container_exists: bool, container_name: &str) -> (r:
    Option<RuntimeCmd>)
    ensures
        r is Some <==> (rebuild && container_exists),
        r matches Some(c) ==> cmd_args(c) == rm_force_args(container_name@) && cmd_soft(c),
{
    if rebuild && container_exists {
        let mut args: Vec<String> = Vec::new();
        args.push("rm".to_owned());
        args.push("--force".to_owned());
        args.push(container_name.to_owned());
        proof {
            assert(args.deep_view() =~= rm_force_args(container_name@));
        }
        Some(RuntimeCmd { args, policy: CmdPolicy::BestEffort })
    } else {
        None
    }
}

// ---------------------------------------------------------------------------
// Launch (§ container lifecycle): attach to a running container, or remove a
// stale one and start a fresh session.
// ---------------------------------------------------------------------------

/// The session commands after the probes: a running container is reconnected
/// to directly; otherwise a stale container of the same name is removed first
/// (its environment and port bindings were fixed at creation time), and a
/// fresh one is created and started attached. Session exit codes are not
/// failures: a detach or an interrupt ends the invocation normally.
pub open spec fn launch_session_model(
    running: bool,
    container_exists: bool,
    container: Seq<char>,
    vol: Seq<char>,
    workspace: Seq<char>,
    image: Seq<char>,
    port: u16,
) -> Seq<CmdModel> {
    if running {
        seq![CmdModel { args: attach_args(container), soft: true }]
    } else {
        (if container_exists {
            seq![CmdModel { args: rm_args(container), soft: true }]
        } else {
            Seq::empty()
        }) + seq![
            CmdModel {
                args: launch_run_args(container, vol, workspace, image, port),
                soft: true,
            },
        ]
    }
}

fn launch_run_cmd(identity: &WorkspaceIdentity, workspace: &str, image: &str, port: u16) -> (r:
    RuntimeCmd)
    ensures
        cmd_args(r) == launch_run_args(
            identity.container_name@,
            identity.volume_name@,
            workspace@,
            image@,
            port,
        ),
        cmd_soft(r),
{
    let mut args: Vec<String> = Vec::new();
    args.push("run".to_owned());
    args.push("--rm".to_owned());
    args.push("-it".to_owned());
    args.push("--name".to_owned());
    args.push(identity.container_name.clone());
    args.push("-v".to_owned());
    args.push(identity.volume_name.clone().concat(":/home/agent:z"));
    args.push("-v".to_owned());
    args.push(workspace.to_owned().concat(":/app:Z"));
    args.push("--add-host=host.containers.internal:host-gateway".to_owned());
    args.push("-e".to_owned());
    args.push("HOST_GATEWAY=host.containers.internal".to_owned());
    args.push("-e".to_owned());
    args.push("NOTIFY_URL=".to_owned().concat(notify_url(port).as_str()));
    args.push(image.to_owned());
    proof {
        assert(args.deep_view() =~= launch_run_args(
            identity.container_name@,
            identity.volume_name@,
            workspace@,
            image@,
            port,
        ));
    }
    RuntimeCmd { args, policy: CmdPolicy::BestEffort }
}

/// Decides the session commands from the two probes made after the volume is
/// in place.
pub fn launch_session_plan(
    running: bool,
    container_exists: bool,
    identity: &WorkspaceIdentity,
    workspace: &str,
    image: &str,
    port: u16,
) -> (r: Vec<RuntimeCmd>)
    ensures
        plan_model(r@) == launch_session_model(
            running,
            container_exists,
            identity.container_name@,
            identity.volume_name@,
            workspace@,
            image@,
            port,
        ),
{
    let mut plan: Vec<RuntimeCmd> = Vec::new();
    if running {
        plan.push(two_arg_cmd("attach", identity.container_name.as_str(), CmdPolicy::BestEffort));
    } else {
        if container_exists {
            plan.push(two_arg_cmd("rm", identity.container_name.as_str(), CmdPolicy::BestEffort));
        }
        plan.push(launch_run_cmd(identity, workspace, image, port));
    }
    proof {
        assert(plan_model(plan@) =~= launch_session_model(
            running,
            container_exists,
            identity.container_name@,
            identity.volume_name@,
            workspace@,
            image@,
            port,
        ));
    }
    plan
}

// ---------------------------------------------------------------------------
// One-off command (§ container lifecycle, secondary entry point).
// ---------------------------------------------------------------------------

/// Runs a single non-persistent invocation with the given entrypoint and
/// arguments; its exit status is the operation's own success or failure, so
/// the one command is fatal.
pub fn one_off_run_plan(
    identity: &WorkspaceIdentity,
    workspace: &str,
    image: &str,
    port: u16,
    command: &str,
    extra: &Vec<String>,
) -> (r: Vec<RuntimeCmd>)
    ensures
        plan_model(r@).len() == 1,
        plan_model(r@)[0].args == one_off_run_args(
            identity.volume_name@,
            workspace@,
            image@,
            port,
            command@,
        ) + extra.deep_view(),
        !plan_model(r@)[0].soft,
{
    let mut args: Vec<String> = Vec::new();
    args.push("run".to_owned());
    args.push("--rm".to_owned());
    args.push("-it".to_owned());
    args.push("-v".to_owned());
    args.push(identity.volume_name.clone().concat(":/home/agent"));
    args.push("-v".to_owned());
    args.push(workspace.to_owned().concat(":/app:Z"));
    args.push("--add-host=host.containers.internal:host-gateway".to_owned());
    args.push("-e".to_owned());
    args.push("HOST_GATEWAY=host.containers.internal".to_owned());
    args.push("-e".to_owned());
    args.push("NOTIFY_URL=".to_owned().concat(notify_url(port).as_str()));
    args.push("--entrypoint".to_owned());
    args.push(command.to_owned());
    args.push(image.to_owned());
    proof {
        assert(args.deep_view() =~= one_off_run_args(
            identity.volume_name@,
            workspace@,
            image@,
            port,
            command@,
        ));
    }
    let ghost base = args.deep_view();
    let n = extra.len();
    let mut i: usize = 0;
    while i < n
        invariant
            n == extra@.len(),
            i <= n,
            args.deep_view() == base + extra.deep_view().take(i as int),
        decreases n - i,
    {
        let ghost pre_v = args@;
        let ghost prev_dv = args.deep_view();
        args.push(extra[i].clone());
        proof {
            assert(args@ == pre_v.push(args@[pre_v.len() as int]));
            assert forall|k: int| 0 <= k < args@.len() implies args.deep_view()[k] == (prev_dv.push(
                extra.deep_view()[i as int],
            ))[k] by {
                assert(args.deep_view()[k] == args@[k].deep_view());
                if k < pre_v.len() {
                    assert(args@[k] == pre_v[k]);
                    assert(prev_dv[k] == pre_v[k].deep_view());
                } else {
                    assert(args@[k] == extra@[i as int]);
                    assert(extra.deep_view()[i as int] == extra@[i as int].deep_view());
                }
            }
            assert(args.deep_view() =~= prev_dv.push(extra.deep_view()[i as int]));
            assert(extra.deep_view().take(i + 1) =~= extra.deep_view().take(i as int).push(
                extra.deep_view()[i as int],
            ));
            assert(args.deep_view() =~= base + extra.deep_view().take(i + 1));
        }
        i = i + 1;
    }
    proof {
        assert(extra.deep_view().take(n as int) =~= extra.deep_view());
    }
    let cmd = RuntimeCmd { args, policy: CmdPolicy::Fatal };
    let mut plan: Vec<RuntimeCmd> = Vec::new();
    plan.push(cmd);
    proof {
        assert(plan_model(plan@).len() == 1);
    }
    plan
}

// ---------------------------------------------------------------------------
// Seeding (§ home volume lifecycle).
// ---------------------------------------------------------------------------

pub open spec fn init_container_name_of(container: Seq<char>) -> Seq<char> {
    container + "-init"@
}

/// Decides whether seeding runs: exactly when the volume does not exist yet.
/// Once a volume exists it is never re-seeded, so operator edits made inside
/// a running container persist across restarts and rebuilds.
pub fn needs_seed(volume_exists: bool) -> (r: bool)
    ensures
        r == !volume_exists,
{
    !volume_exists
}

/// The full seeding sequence for a fresh volume: create it, seed it from the
/// image's home directory, create the disposable copy-target container, copy
/// the operator's credentials file and configuration directory when the host
/// has them (soft failures: a missing host file is normal), copy in the two
/// generated runtime documents, and remove the disposable container. Only the
/// first three steps are fatal; the volume survives everything after it.
pub open spec fn seed_plan_model(
    home: Seq<char>,
    md_path: Seq<char>,
    settings_path: Seq<char>,
    container: Seq<char>,
    vol: Seq<char>,
    image: Seq<char>,
    host_has_agent_file: bool,
    host_has_agent_dir: bool,
) -> Seq<CmdModel> {
    let init = init_container_name_of(container);
    seq![
        CmdModel { args: volume_create_args(vol), soft: false },
        CmdModel { args: seed_from_image_args(vol, image), soft: false },
        CmdModel { args: init_create_args(init, vol, image), soft: false },
    ] + (if host_has_agent_file {
        seq![CmdModel { args: cp_args(home + "/.agent.json"@, init + ":/home/agent/"@), soft: true }]
    } else {
        Seq::empty()
    }) + (if host_has_agent_dir {
        seq![
            CmdModel {
                args: cp_args(home + "/.agent/."@, init + ":/home/agent/.agent/"@),
                soft: true,
            },
        ]
    } else {
        Seq::empty()
    }) + seq![
        CmdModel { args: cp_args(md_path, init + ":/home/agent/.agent/AGENT.md"@), soft: true },
        CmdModel {
            args: cp_args(settings_path, init + ":/home/agent/.agent/settings.json"@),
            soft: true,
        },
        CmdModel { args: rm_args(init), soft: true },
    ]
}

fn seed_from_image_cmd(identity: &WorkspaceIdentity, image: &str) -> (r: RuntimeCmd)
    ensures
        cmd_args(r) == seed_from_image_args(identity.volume_name@, image@),
        !cmd_soft(r),
{
    let mut args: Vec<String> = Vec::new();
    args.push("run".to_owned());
    args.push("--rm".to_owned());
    args.push("--user".to_owned());
    args.push("root".to_owned());
    args.push("--entrypoint".to_owned());
    args.push("/bin/sh".to_owned());
    args.push("-v".to_owned());
    args.push(identity.volume_name.clone().concat(":/mnt/agent-home"));
    args.push(image.to_owned());
    args.push("-c".to_owned());
    args.push(
        "cp -a /home/agent/. /mnt/agent-home/ && mkdir -p /mnt/agent-home/.agent && chown -R agent:agent /mnt/agent-home".to_owned(),
    );
    proof {
        assert(args.deep_view() =~= seed_from_image_args(identity.volume_name@, image@));
    }
    RuntimeCmd { args, policy: CmdPolicy::Fatal }
}

fn init_create_cmd(init_name: &str, identity: &WorkspaceIdentity, image: &str) -> (r: RuntimeCmd)
    ensures
        cmd_args(r) == init_create_args(init_name@, identity.volume_name@, image@),
        !cmd_soft(r),
{
    let mut args: Vec<String> = Vec::new();
    args.push("create".to_owned());
    args.push("--name".to_owned());
    args.push(init_name.to_owned());
    args.push("-v".to_owned());
    args.push(identity.volume_name.clone().concat(":/home/agent"));
    args.push(image.to_owned());
    proof {
        assert(args.deep_view() =~= init_create_args(init_name@, identity.volume_name@, image@));
    }
    RuntimeCmd { args, policy: CmdPolicy::Fatal }
}

fn volume_create_cmd(volume_name: &str) -> (r: RuntimeCmd)
    ensures
        cmd_args(r) == volume_create_args(volume_name@),
        !cmd_soft(r),
{
    let mut args: Vec<String> = Vec::new();
    args.push("volume".to_owned());
    args.push("create".to_owned());
    args.push(volume_name.to_owned());
    proof {
        assert(args.deep_view() =~= volume_create_args(volume_name@));
    }
    RuntimeCmd { args, policy: CmdPolicy::Fatal }
}

/// Decides the seeding commands for a volume that does not exist yet.
/// Seeding runs at most once per volume lifetime: the caller invokes it only
/// when the volume is absent, and an existing volume is never re-seeded.
pub fn seed_plan(
    config: &AppConfig,
    identity: &WorkspaceIdentity,
    image: &str,
    host_has_agent_file: bool,
    host_has_agent_dir: bool,
) -> (r: Vec<RuntimeCmd>)
    ensures
        plan_model(r@) == seed_plan_model(
            config.home_dir@,
            config.runtime_claude_md@,
            config.runtime_settings@,
            identity.container_name@,
            identity.volume_name@,
            image@,
            host_has_agent_file,
            host_has_agent_dir,
        ),
{
    let init_name = identity.container_name.clone().concat("-init");
    let mut plan: Vec<RuntimeCmd> = Vec::new();
    plan.push(volume_create_cmd(identity.volume_name.as_str()));
    plan.push(seed_from_image_cmd(identity, image));
    plan.push(init_create_cmd(init_name.as_str(), identity, image));
    if host_has_agent_file {
        plan.push(
            cp_cmd(
                config.home_dir.clone().concat("/.agent.json"),
                init_name.clone().concat(":/home/agent/"),
            ),
        );
    }
    if host_has_agent_dir {
        plan.push(
            cp_cmd(
                config.home_dir.clone().concat("/.agent/."),
                init_name.clone().concat(":/home/agent/.agent/"),
            ),
        );
    }
    plan.push(
        cp_cmd(
            config.runtime_claude_md.clone(),
            init_name.clone().concat(":/home/agent/.agent/AGENT.md"),
        ),
    );
    plan.push(
        cp_cmd(
            config.runtime_settings.clone(),
            init_name.clone().concat(":/home/agent/.agent/settings.json"),
        ),
    );
    plan.push(two_arg_cmd("rm", init_name.as_str(), CmdPolicy::BestEffort));
    proof {
        assert(plan_model(plan@) =~= seed_plan_model(
            config.home_dir@,
            config.runtime_claude_md@,
            config.runtime_settings@,
            identity.container_name@,
            identity.volume_name@,
            image@,
            host_has_agent_file,
            host_has_agent_dir,
        ));
    }
    plan
}

// ---------------------------------------------------------------------------
// Cleaning (explicit teardown of one workspace's container and volume).
// ---------------------------------------------------------------------------

/// The cleaning sequence: stop the container when it is running, remove it
/// when it exists, and remove the volume when it exists — each step tolerant
/// of a non-zero exit. Cleaning is the only operation that destroys the home
/// volume.
pub open spec fn clean_plan_model(
    container_exists: bool,
    running: bool,
    volume_exists: bool,
    container: Seq<char>,
    volume: Seq<char>,
) -> Seq<CmdModel> {
    (if container_exists {
        (if running {
            seq![CmdModel { args: stop_args(container), soft: true }]
        } else {
            Seq::empty()
        }) + seq![CmdModel { args: rm_args(container), soft: true }]
    } else {
        Seq::empty()
    }) + (if volume_exists {
        seq![CmdModel { args: volume_rm_args(volume), soft: true }]
    } else {
        Seq::empty()
    })
}

/// Decides the cleaning commands from the probes.
pub fn clean_plan(
    container_exists: bool,
    running: bool,
    volume_exists: bool,
    identity: &WorkspaceIdentity,
) -> (r: Vec<RuntimeCmd>)
    ensures
        plan_model(r@) == clean_plan_model(
            container_exists,
            running,
            volume_exists,
            identity.container_name@,
            identity.volume_name@,
        ),
{
    let mut plan: Vec<RuntimeCmd> = Vec::new();
    if container_exists {
        if running {
            plan.push(two_arg_cmd("stop", identity.container_name.as_str(), CmdPolicy::BestEffort));
        }
        plan.push(two_arg_cmd("rm", identity.container_name.as_str(), CmdPolicy::BestEffort));
    }
    if volume_exists {
        let mut args: Vec<String> = Vec::new();
        args.push("volume".to_owned());
        args.push("rm".to_owned());
        args.push(identity.volume_name.clone());
        proof {
            assert(args.deep_view() =~= volume_rm_args(identity.volume_name@));
        }
        plan.push(RuntimeCmd { args, policy: CmdPolicy::BestEffort });
    }
    proof {
        assert(plan_model(plan@) =~= clean_plan_model(
            container_exists,
            running,
            volume_exists,
            identity.container_name@,
            identity.volume_name@,
        ));
    }
    plan
}

/// Law: cleaning one workspace never touches another workspace's container or
/// volume. Unless the two workspaces' truncated digests collide, no command
/// the clean emits carries the other workspace's container or volume name.
pub proof fn lemma_clean_touches_only_own_workspace(
    p1: Seq<char>,
    p2: Seq<char>,
    container_exists: bool,
    running: bool,
    volume_exists: bool,
)
    requires
        crate::identity::sha256_of(p1).take(6) != crate::identity::sha256_of(p2).take(6),
    ensures
        !plan_mentions(
            clean_plan_model(
                container_exists,
                running,
                volume_exists,
                crate::identity::container_name_of(p1),
                crate::identity::volume_name_of(p1),
            ),
            crate::identity::container_name_of(p2),
        ),
        !plan_mentions(
            clean_plan_model(
                container_exists,
                running,
                volume_exists,
                crate::identity::container_name_of(p1),
                crate::identity::volume_name_of(p1),
            ),
            crate::identity::volume_name_of(p2),
        ),
{
    let c1 = crate::identity::container_name_of(p1);
    let v1 = crate::identity::volume_name_of(p1);
    let c2 = crate::identity::container_name_of(p2);
    let v2 = crate::identity::volume_name_of(p2);
    crate::identity::lemma_identity_collision_resistance(p1, p2);
    crate::identity::lemma_identity_collision_resistance(p2, p1);
    assert(c1 != c2 && v1 != v2 && c1 != v2 && c2 != v1);
    reveal_strlit("ai-pod-");
    reveal_strlit("-home");
    crate::identity::lemma_hex_len(crate::identity::sha256_of(p2).take(6));
    assert(c2.len() >= 7);
    assert(v2.len() >= 12);
    reveal_strlit("stop");
    reveal_strlit("rm");
    reveal_strlit("volume");
    assert("stop"@.len() == 4 && "rm"@.len() == 2 && "volume"@.len() == 6);
    let m = clean_plan_model(container_exists, running, volume_exists, c1, v1);
    assert forall|i: int, j: int|
        0 <= i < m.len() && 0 <= j < m[i].args.len() implies m[i].args[j] != c2 && m[i].args[j]
        != v2 by {
        assert(m[i].args[j] == "stop"@ || m[i].args[j] == "rm"@ || m[i].args[j] == "volume"@
            || m[i].args[j] == c1 || m[i].args[j] == v1);
    }
    assert(!plan_mentions(m, c2));
    assert(!plan_mentions(m, v2));
}

} // verus!
