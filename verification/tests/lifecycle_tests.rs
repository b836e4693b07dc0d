use ai_pod::config::AppConfig;
use ai_pod::container::{
    build_image_cmd, clean_plan, container_exists_query, container_running_query,
    image_exists_query, launch_session_plan, list_containers_query, notify_url, one_off_run_plan,
    rebuild_teardown_cmd, seed_plan, volume_exists_query, CmdPolicy, RuntimeCmd,
};
use ai_pod::identity::derive_identity;
use ai_pod::container::needs_seed;

fn args_of(c: &RuntimeCmd) -> Vec<&str> {
    c.args.iter().map(|s| s.as_str()).collect()
}

fn is_soft(c: &RuntimeCmd) -> bool {
    matches!(c.policy, CmdPolicy::BestEffort)
}

#[test]
fn probe_queries_have_exact_arguments() {
    assert_eq!(
        container_exists_query("ai-pod-abc"),
        vec!["ps", "-a", "--filter", "name=^ai-pod-abc$", "--format", "{{.Names}}"]
    );
    assert_eq!(
        container_running_query("ai-pod-abc"),
        vec!["ps", "--filter", "name=^ai-pod-abc$", "--format", "{{.Names}}"]
    );
    assert_eq!(volume_exists_query("ai-pod-abc-home"), vec!["volume", "exists", "ai-pod-abc-home"]);
    assert_eq!(image_exists_query("myproject-12aef3"), vec!["image", "exists", "myproject-12aef3"]);
    assert_eq!(
        list_containers_query(),
        vec![
            "ps",
            "-a",
            "--filter",
            "name=^ai-pod-",
            "--format",
            "{{.Names}}\t{{.Status}}\t{{.CreatedAt}}"
        ]
    );
}

#[test]
fn build_command_is_fatal() {
    let cmd = build_image_cmd("img-1", "/w/ai-pod.Dockerfile", "/home/u/.ai-pod");
    assert_eq!(
        args_of(&cmd),
        vec!["build", "-t", "img-1", "-f", "/w/ai-pod.Dockerfile", "/home/u/.ai-pod"]
    );
    assert!(!is_soft(&cmd));
}

#[test]
fn rebuild_teardown_only_when_requested_and_present() {
    let id = derive_identity("/w/proj-a");
    assert!(rebuild_teardown_cmd(false, true, &id.container_name).is_none());
    assert!(rebuild_teardown_cmd(true, false, &id.container_name).is_none());
    let cmd = rebuild_teardown_cmd(true, true, &id.container_name).unwrap();
    assert_eq!(args_of(&cmd), vec!["rm", "--force", id.container_name.as_str()]);
    assert!(is_soft(&cmd));
}

#[test]
fn launch_attaches_to_running_container() {
    let id = derive_identity("/w/proj-a");
    let plan = launch_session_plan(true, true, &id, "/w/proj-a", "img", 9876);
    assert_eq!(plan.len(), 1);
    assert_eq!(args_of(&plan[0]), vec!["attach", id.container_name.as_str()]);
}

#[test]
fn launch_removes_stale_container_then_runs() {
    let id = derive_identity("/w/proj-a");
    let plan = launch_session_plan(false, true, &id, "/w/proj-a", "img", 9876);
    assert_eq!(plan.len(), 2);
    assert_eq!(args_of(&plan[0]), vec!["rm", id.container_name.as_str()]);
    assert_eq!(plan[1].args[0], "run");
    let run_args = args_of(&plan[1]);
    assert!(run_args.contains(&"--name"));
    assert!(run_args.contains(&id.container_name.as_str()));
    let home_mount = format!("{}:/home/agent:z", id.volume_name);
    assert!(run_args.contains(&home_mount.as_str()));
    assert!(run_args.contains(&"/w/proj-a:/app:Z"));
    assert!(run_args.contains(&"--add-host=host.containers.internal:host-gateway"));
    assert!(run_args.contains(&"NOTIFY_URL=http://host.containers.internal:9876/notify"));
    assert_eq!(*run_args.last().unwrap(), "img");
}

#[test]
fn launch_runs_directly_when_nothing_exists() {
    let id = derive_identity("/w/proj-a");
    let plan = launch_session_plan(false, false, &id, "/w/proj-a", "img", 9876);
    assert_eq!(plan.len(), 1);
    assert_eq!(plan[0].args[0], "run");
}

#[test]
fn one_off_run_appends_extra_arguments() {
    let id = derive_identity("/w/proj-a");
    let extra = vec![String::from("--flag"), String::from("value")];
    let plan = one_off_run_plan(&id, "/w/proj-a", "img", 9876, "agent-shell", &extra);
    assert_eq!(plan.len(), 1);
    assert!(!is_soft(&plan[0]));
    let args = args_of(&plan[0]);
    assert!(args.contains(&"--entrypoint"));
    assert!(args.contains(&"agent-shell"));
    let n = args.len();
    assert_eq!(args[n - 2], "--flag");
    assert_eq!(args[n - 1], "value");
}

#[test]
fn seed_plan_steps_in_order() {
    let config = AppConfig::from_home(String::from("/home/u"));
    let id = derive_identity("/w/proj-a");
    let init_name = format!("{}-init", id.container_name);
    let plan = seed_plan(&config, &id, "img", true, true);
    assert_eq!(plan.len(), 8);
    assert_eq!(args_of(&plan[0]), vec!["volume", "create", id.volume_name.as_str()]);
    assert!(!is_soft(&plan[0]));
    assert_eq!(plan[1].args[0], "run");
    assert!(args_of(&plan[1]).contains(&"--user"));
    assert!(args_of(&plan[1]).contains(&"root"));
    assert!(!is_soft(&plan[1]));
    assert_eq!(plan[2].args[0], "create");
    assert!(args_of(&plan[2]).contains(&init_name.as_str()));
    assert!(!is_soft(&plan[2]));
    assert_eq!(args_of(&plan[3])[0], "cp");
    assert_eq!(plan[3].args[1], "/home/u/.agent.json");
    assert!(is_soft(&plan[3]));
    assert_eq!(plan[4].args[1], "/home/u/.agent/.");
    assert!(is_soft(&plan[4]));
    assert_eq!(plan[5].args[1], "/home/u/.ai-pod/runtime-AGENT.md");
    assert_eq!(plan[6].args[1], "/home/u/.ai-pod/runtime-settings.json");
    assert_eq!(args_of(&plan[7]), vec!["rm", init_name.as_str()]);
    assert!(is_soft(&plan[7]));
}

#[test]
fn seed_plan_skips_missing_host_files() {
    let config = AppConfig::from_home(String::from("/home/u"));
    let id = derive_identity("/w/proj-a");
    let plan = seed_plan(&config, &id, "img", false, false);
    assert_eq!(plan.len(), 6);
    assert_eq!(plan[3].args[1], "/home/u/.ai-pod/runtime-AGENT.md");
}

#[test]
fn clean_stops_running_container_then_removes_all() {
    let id = derive_identity("/w/proj-a");
    let plan = clean_plan(true, true, true, &id);
    assert_eq!(plan.len(), 3);
    assert_eq!(args_of(&plan[0]), vec!["stop", id.container_name.as_str()]);
    assert_eq!(args_of(&plan[1]), vec!["rm", id.container_name.as_str()]);
    assert_eq!(args_of(&plan[2]), vec!["volume", "rm", id.volume_name.as_str()]);
}

#[test]
fn clean_of_absent_container_touches_nothing() {
    let id = derive_identity("/w/proj-a");
    let plan = clean_plan(false, false, false, &id);
    assert!(plan.is_empty());
}

#[test]
fn clean_never_names_another_workspace() {
    let a = derive_identity("/w/proj-a");
    let b = derive_identity("/w/proj-b");
    let plan = clean_plan(true, true, true, &a);
    for cmd in &plan {
        for arg in &cmd.args {
            assert_ne!(arg, &b.container_name);
            assert_ne!(arg, &b.volume_name);
        }
    }
}

#[test]
fn notify_url_contains_port() {
    assert_eq!(notify_url(9876), "http://host.containers.internal:9876/notify");
}

#[test]
fn seeding_runs_only_for_an_absent_volume() {
    assert!(needs_seed(false));
    assert!(!needs_seed(true));
}
