use agentman_gateway::commands::{destroy_outcome, execute_gateway_control_command, ControlStep};
use agentman_gateway::control::parse_gateway_control_command;
use agentman_gateway::config::{
    host_key_step, path_join, ContainerSecurityConfig, GatewayConfig, HostKeyStep,
    PortForwardingConfig as Policy,
};
use agentman_gateway::provision::{
    build_env, build_host_config, build_labels, container_base_name, ensure_workspace_writable,
    name_candidate, name_with_date, workspace_writable, DestroyOptions as Options, DirStat,
    MemoryLimitError as LimitError, WritableStep,
};
use agentman_gateway::sandbox::{
    list_labeled_workspace_containers, ContainerManager, ContainerProbe as Probe, DestroyAction,
    DestroyReply, EngineReply, LabeledContainer, ProvisionAction, ProvisionError,
};
use agentman_gateway::state::{StateManager as Store, Timestamp as Time, WorkspaceInfo as Info};

const NOW: Time = Time { secs: 1706659200, nanos: 0 };

fn manager() -> ContainerManager {
    let mut config = GatewayConfig::default_in("/var/lib/agentman");
    config.workspace_root = "/srv/work".to_string();
    ContainerManager::new(config)
}

fn names(pairs: &[agentman_gateway::provision::Pair]) -> Vec<(String, String)> {
    pairs.iter().map(|p| (p.name.clone(), p.value.clone())).collect()
}

fn pair(a: &str, b: &str) -> (String, String) {
    (a.to_string(), b.to_string())
}

fn running_probe() -> Probe {
    Probe { id: Some("c1".to_string()), running: Some(true), paused: Some(false) }
}

#[test]
fn default_settings() {
    let config = GatewayConfig::default_in("/var/lib/agentman");
    assert_eq!(config.listen_addr, "0.0.0.0:2222");
    assert_eq!(config.docker_image, "agentman-base:dev");
    assert_eq!(config.workspace_root, "/var/lib/agentman/workspaces");
    assert_eq!(config.state_file, "/var/lib/agentman/state.json");
    assert_eq!(config.host_key_path, "/var/lib/agentman/host_key");
    assert!(config.bootstrap_github_users.is_empty());
    assert_eq!(
        config.port_forwarding,
        Policy {
            allow_local: true,
            allow_remote: true,
            allow_gateway_ports: false,
            allow_nonlocal_destinations: false
        }
    );
    let security = ContainerSecurityConfig::default();
    assert!(security.cap_drop_all && security.no_new_privileges && security.use_seccomp);
    assert!(!security.readonly_rootfs);
    assert_eq!(security.cap_add, vec!["CHOWN", "DAC_OVERRIDE", "FOWNER", "SETGID", "SETUID"]);
    assert_eq!(security.memory_limit.as_deref(), Some("4g"));
    assert_eq!(security.cpu_limit_nanos, Some(2_000_000_000));
    assert_eq!(host_key_step(true), HostKeyStep::Load);
    assert_eq!(host_key_step(false), HostKeyStep::Generate { mode: 0o600 });
}

#[test]
fn workspace_paths() {
    assert_eq!(manager().config.workspace_path("octocat", "demo"), "/srv/work/octocat/demo");
    assert_eq!(path_join("/a", "b"), "/a/b");
    assert_eq!(path_join("/a/", "b"), "/a/b");
    assert_eq!(path_join("", "b"), "b");
    assert_eq!(path_join("/a", "/b"), "/b");
    assert_eq!(path_join("/a", ""), "/a/");
    assert_eq!(path_join("/", "b"), "/b");
}

#[test]
fn container_names() {
    assert_eq!(name_with_date("demo", "octocat", "20240131"), "demo-octocat-20240131");
    assert_eq!(
        container_base_name("demo", "octocat", 1706659200).as_deref(),
        Some("demo-octocat-20240131")
    );
    assert_eq!(container_base_name("p", "u", 0).as_deref(), Some("p-u-19700101"));
    assert_eq!(container_base_name("p", "u", 86399).as_deref(), Some("p-u-19700101"));
    assert_eq!(container_base_name("p", "u", 86400).as_deref(), Some("p-u-19700102"));
    assert_eq!(container_base_name("p", "u", -1).as_deref(), Some("p-u-19691231"));
    assert_eq!(container_base_name("p", "u", i64::MAX), None);
    assert_eq!(name_candidate("base", 0), "base");
    assert_eq!(name_candidate("base", 1), "base-1");
    assert_eq!(name_candidate("base", 100), "base-100");
}

#[test]
fn container_environment_and_labels() {
    assert_eq!(
        build_env("octocat", "demo", "demo-octocat-20240131"),
        vec![
            "GITHUB_USERNAME=octocat",
            "AGENTMAN_PROJECT=demo",
            "AGENTMAN_CONTAINER_ID=demo-octocat-20240131",
            "TERM=xterm-256color"
        ]
    );
    assert_eq!(
        names(&build_labels("octocat", "demo", "/srv/work/octocat/demo")),
        vec![
            pair("agentman.managed", "true"),
            pair("agentman.github_user", "octocat"),
            pair("agentman.project", "demo"),
            pair("agentman.workspace_path", "/srv/work/octocat/demo")
        ]
    );
}

#[test]
fn host_settings_follow_the_security_settings() {
    let host = build_host_config(&ContainerSecurityConfig::default(), "/w/o/d").unwrap();
    assert_eq!(host.binds, vec!["/w/o/d:/workspace"]);
    assert_eq!(host.extra_hosts, vec!["host.docker.internal:host-gateway"]);
    assert!(!host.privileged);
    assert!(host.init);
    assert_eq!(host.network_mode, "bridge");
    assert_eq!(host.cap_drop, Some(vec!["ALL".to_string()]));
    assert_eq!(host.cap_add.as_ref().map(|c| c.len()), Some(5));
    assert_eq!(host.security_opt, Some(vec!["no-new-privileges:true".to_string()]));
    assert!(!host.readonly_rootfs);
    assert!(host.tmpfs.is_empty());
    assert_eq!(host.memory, Some(4 * 1024 * 1024 * 1024));
    assert_eq!(host.nano_cpus, Some(2_000_000_000));
    let open = ContainerSecurityConfig {
        cap_drop_all: false,
        cap_add: vec!["CHOWN".to_string()],
        no_new_privileges: false,
        readonly_rootfs: true,
        memory_limit: None,
        cpu_limit_nanos: None,
        use_seccomp: false,
    };
    let host = build_host_config(&open, "/w").unwrap();
    assert_eq!((host.cap_drop, host.cap_add, host.security_opt), (None, None, None));
    assert!(host.readonly_rootfs);
    assert_eq!(
        names(&host.tmpfs),
        vec![
            pair("/tmp", "rw,noexec,nosuid,size=1g"),
            pair("/run", "rw,noexec,nosuid,size=64m"),
            pair("/var/tmp", "rw,noexec,nosuid,size=256m")
        ]
    );
    assert_eq!((host.memory, host.nano_cpus), (None, None));
    let bare = ContainerSecurityConfig { cap_drop_all: true, cap_add: vec![], ..open.clone() };
    assert_eq!(build_host_config(&bare, "/w").unwrap().cap_add, None);
    let broken = ContainerSecurityConfig { memory_limit: Some("lots".to_string()), ..open };
    assert_eq!(build_host_config(&broken, "/w").err(), Some(LimitError::Invalid));
}

#[test]
fn workspace_directory_permissions() {
    let stat = |uid, gid, mode| DirStat { uid, gid, mode };
    assert!(workspace_writable(stat(1000, 0, 0o700)));
    assert!(workspace_writable(stat(1000, 0, 0o40755)));
    assert!(!workspace_writable(stat(1000, 1000, 0o577)));
    assert!(!workspace_writable(stat(1000, 1000, 0o677)));
    assert!(workspace_writable(stat(0, 1000, 0o070)));
    assert!(!workspace_writable(stat(0, 1000, 0o757)));
    assert!(workspace_writable(stat(0, 0, 0o003)));
    assert!(!workspace_writable(stat(0, 0, 0o775)));
    assert_eq!(ensure_workspace_writable(false, stat(1000, 1000, 0o755)), WritableStep::Done);
    assert_eq!(ensure_workspace_writable(true, stat(0, 0, 0o777)), WritableStep::Done);
    assert_eq!(
        ensure_workspace_writable(false, stat(0, 0, 0o755)),
        WritableStep::Repair { uid: 1000, gid: 1000, mode: 0o775 }
    );
    assert_eq!(
        ensure_workspace_writable(true, stat(0, 0, 0o775)),
        WritableStep::OpenUp { mode: 0o777 }
    );
}

fn started(id: &str, mgr: &ContainerManager, store: &mut Store) -> Vec<String> {
    let mut seen = Vec::new();
    let (mut run, first) = mgr.get_or_create_container("octocat", "demo", NOW);
    let mut action = first;
    loop {
        let reply = match &action {
            ProvisionAction::PrepareDir(p) => {
                seen.push(format!("dir {}", p));
                EngineReply::Done
            }
            ProvisionAction::Inspect(c) => {
                seen.push(format!("inspect {}", c));
                EngineReply::Probe(running_probe())
            }
            ProvisionAction::LookupName(n) => {
                seen.push(format!("lookup {}", n));
                EngineReply::NameTaken(n == "demo-octocat-20240131")
            }
            ProvisionAction::Create(spec) => {
                seen.push(format!("create {}", spec.name));
                assert_eq!(spec.hostname, spec.name);
                assert_eq!(spec.image, "agentman-base:dev");
                assert_eq!(spec.working_dir, "/workspace");
                assert!(spec.tty && spec.open_stdin);
                assert!(spec.attach_stdin && spec.attach_stdout && spec.attach_stderr);
                assert_eq!(spec.host.binds, vec!["/srv/work/octocat/demo:/workspace"]);
                assert!(!spec.host.privileged);
                assert_eq!(spec.env[2], format!("AGENTMAN_CONTAINER_ID={}", spec.name));
                assert_eq!(spec.labels[3].value, "/srv/work/octocat/demo");
                EngineReply::Created(id.to_string())
            }
            ProvisionAction::Start(c) => {
                seen.push(format!("start {}", c));
                EngineReply::Done
            }
            ProvisionAction::Unpause(c) => {
                seen.push(format!("unpause {}", c));
                EngineReply::Done
            }
            ProvisionAction::Done(c) => {
                seen.push(format!("done {}", c));
                return seen;
            }
            ProvisionAction::Fail(e) => panic!("failed: {:?}", e),
        };
        action = mgr.provision_step(&mut run, store, reply, NOW);
    }
}

#[test]
fn a_second_call_reuses_the_running_container() {
    let mgr = manager();
    let mut store = Store::new();
    assert_eq!(
        started("c1", &mgr, &mut store),
        vec![
            "dir /srv/work/octocat/demo",
            "lookup demo-octocat-20240131",
            "lookup demo-octocat-20240131-1",
            "dir /srv/work/octocat/demo",
            "create demo-octocat-20240131-1",
            "start c1",
            "done c1"
        ]
    );
    let record = store.get_workspace("octocat", "demo").unwrap();
    assert_eq!(record.container_name, "demo-octocat-20240131-1");
    assert_eq!(record.container_id.as_deref(), Some("c1"));
    assert_eq!(record.host_workspace_path, "/srv/work/octocat/demo");
    assert_eq!(record.created_at, NOW);
    assert_eq!(
        started("c2", &mgr, &mut store),
        vec!["dir /srv/work/octocat/demo", "inspect c1", "inspect c1", "done c1"]
    );
    assert_eq!(store.get_workspace("octocat", "demo").unwrap().container_id.as_deref(), Some("c1"));
}

fn after(replies: Vec<EngineReply>, store: &mut Store) -> Vec<ProvisionAction> {
    let mgr = manager();
    let (mut run, first) = mgr.get_or_create_container("octocat", "demo", NOW);
    let mut out = vec![first];
    for r in replies {
        out.push(mgr.provision_step(&mut run, store, r, NOW));
    }
    out
}

fn recorded() -> Store {
    let mut store = Store::new();
    store.set_workspace(Info {
        github_user: "octocat".to_string(),
        project: "demo".to_string(),
        container_name: "old-name".to_string(),
        container_id: Some("c9".to_string()),
        created_at: Time { secs: 5, nanos: 0 },
        host_workspace_path: "/srv/work/octocat/demo".to_string(),
    });
    store
}

#[test]
fn a_recorded_container_is_made_to_run() {
    let probe = |running, paused| {
        EngineReply::Probe(Probe { id: None, running, paused })
    };
    let acts = after(
        vec![EngineReply::Done, probe(None, None), probe(Some(false), None), EngineReply::Done],
        &mut recorded(),
    );
    assert!(matches!(&acts[3], ProvisionAction::Start(c) if c == "c9"));
    assert!(matches!(&acts[4], ProvisionAction::Done(c) if c == "c9"));
    let acts = after(
        vec![EngineReply::Done, probe(None, None), probe(Some(true), Some(true)), EngineReply::Done],
        &mut recorded(),
    );
    assert!(matches!(&acts[3], ProvisionAction::Unpause(c) if c == "c9"));
    assert!(matches!(&acts[4], ProvisionAction::Done(c) if c == "c9"));
    let acts = after(
        vec![
            EngineReply::Done,
            probe(None, None),
            probe(Some(false), Some(true)),
            EngineReply::Done,
            EngineReply::Done,
        ],
        &mut recorded(),
    );
    assert!(matches!(&acts[3], ProvisionAction::Unpause(_)));
    assert!(matches!(&acts[4], ProvisionAction::Start(_)));
    assert!(matches!(&acts[5], ProvisionAction::Done(c) if c == "c9"));
}

#[test]
fn a_vanished_container_is_replaced() {
    let mut store = recorded();
    let acts = after(
        vec![
            EngineReply::Done,
            EngineReply::NotFound,
            EngineReply::NameTaken(false),
            EngineReply::Done,
            EngineReply::Created("fresh".to_string()),
            EngineReply::Done,
        ],
        &mut store,
    );
    assert!(matches!(&acts[1], ProvisionAction::Inspect(c) if c == "c9"));
    assert!(matches!(&acts[2], ProvisionAction::LookupName(n) if n == "demo-octocat-20240131"));
    assert!(matches!(&acts[6], ProvisionAction::Done(c) if c == "fresh"));
    let record = store.get_workspace("octocat", "demo").unwrap();
    assert_eq!(record.container_name, "demo-octocat-20240131");
    assert_eq!(record.container_id.as_deref(), Some("fresh"));
    assert_eq!(record.created_at, NOW);
}

#[test]
fn provisioning_failures() {
    let fails = |acts: Vec<ProvisionAction>| match acts.into_iter().last().unwrap() {
        ProvisionAction::Fail(e) => e,
        other => panic!("unexpected {:?}", other),
    };
    assert!(matches!(
        fails(after(vec![EngineReply::Failed("ro fs".to_string())], &mut Store::new())),
        ProvisionError::Directory(m) if m == "ro fs"
    ));
    assert!(matches!(
        fails(after(vec![EngineReply::Done, EngineReply::Failed("down".to_string())], &mut recorded())),
        ProvisionError::Engine(m) if m == "down"
    ));
    assert!(matches!(
        fails(after(vec![EngineReply::NotFound], &mut Store::new())),
        ProvisionError::Protocol
    ));
    let mut taken = vec![EngineReply::Done];
    for _ in 0..101 {
        taken.push(EngineReply::NameTaken(true));
    }
    let acts = after(taken, &mut Store::new());
    assert!(matches!(&acts[101], ProvisionAction::LookupName(n) if n == "demo-octocat-20240131-100"));
    assert!(matches!(&acts[102], ProvisionAction::Fail(ProvisionError::NoFreeName)));
    let mgr = manager();
    let (mut run, _) = mgr.get_or_create_container("octocat", "demo", NOW);
    let far = Time { secs: i64::MAX, nanos: 0 };
    assert!(matches!(
        mgr.provision_step(&mut run, &mut Store::new(), EngineReply::Done, far),
        ProvisionAction::Fail(ProvisionError::DateOutOfRange)
    ));
    let mut config = GatewayConfig::default_in("/d");
    config.container_security.memory_limit = Some("huge".to_string());
    let mgr = ContainerManager::new(config);
    let (mut run, _) = mgr.get_or_create_container("octocat", "demo", NOW);
    let mut store = Store::new();
    mgr.provision_step(&mut run, &mut store, EngineReply::Done, NOW);
    mgr.provision_step(&mut run, &mut store, EngineReply::NameTaken(false), NOW);
    assert!(matches!(
        mgr.provision_step(&mut run, &mut store, EngineReply::Done, NOW),
        ProvisionAction::Fail(ProvisionError::MemoryLimit(LimitError::Invalid))
    ));
}

fn labeled(id: Option<&str>, user: Option<&str>, project: Option<&str>) -> LabeledContainer {
    LabeledContainer {
        id: id.map(|s| s.to_string()),
        github_user: user.map(|s| s.to_string()),
        project: project.map(|s| s.to_string()),
    }
}

fn labels() -> Vec<LabeledContainer> {
    vec![
        labeled(Some("zz"), Some("octocat"), Some("demo")),
        labeled(Some("other"), Some("hubot"), Some("demo")),
        labeled(Some("c9"), Some("octocat"), Some("demo")),
        labeled(None, Some("octocat"), Some("demo")),
        labeled(Some("nolabel"), None, Some("demo")),
        labeled(Some("aa"), Some("octocat"), Some("demo")),
        labeled(Some("wrong"), Some("octocat"), Some("demo2")),
    ]
}

#[test]
fn labelled_containers_of_a_workspace() {
    assert_eq!(
        list_labeled_workspace_containers(&labels(), "octocat", "demo"),
        vec!["zz", "c9", "aa"]
    );
    assert!(list_labeled_workspace_containers(&labels(), "mona", "demo").is_empty());
}

#[test]
fn destroy_dry_run() {
    let mgr = manager();
    let mut store = recorded();
    let opts = Options { keep_workspace: false, force: false, dry_run: true };
    let (mut run, first) = mgr.destroy_workspace(&store, "octocat", "demo", opts);
    assert!(matches!(first, DestroyAction::ListLabeled));
    let act = mgr.destroy_step(&mut run, &mut store, DestroyReply::Labeled(labels()));
    assert!(matches!(&act, DestroyAction::CheckDir(p) if p == "/srv/work/octocat/demo"));
    let act = mgr.destroy_step(&mut run, &mut store, DestroyReply::DirExists(true));
    let res = match act {
        DestroyAction::Finish(Ok(res)) => res,
        other => panic!("unexpected {:?}", other),
    };
    assert_eq!(
        res.removed_containers,
        vec!["aa (dry-run)", "c9 (dry-run)", "old-name (dry-run)", "zz (dry-run)"]
    );
    assert!(res.dry_run);
    assert!(!res.workspace_deleted);
    assert!(res.workspace_would_be_deleted);
    assert!(!res.state_entry_deleted);
    assert!(res.warnings.is_empty());
    assert_eq!(res.workspace_path, "/srv/work/octocat/demo");
    assert!(store.get_workspace("octocat", "demo").is_some());
    assert_eq!(
        res.format_human(),
        "agentman: destroy summary\n- removed containers: aa (dry-run), c9 (dry-run), old-name (dry-run), zz (dry-run)\n- workspace path: /srv/work/octocat/demo\n- workspace deleted: would delete (dry-run)\n- state entry deleted: no\n"
    );
}

#[test]
fn destroy_dry_run_without_a_directory_or_with_one_to_keep() {
    let mgr = manager();
    let mut store = recorded();
    let opts = Options { keep_workspace: false, force: false, dry_run: true };
    let (mut run, _) = mgr.destroy_workspace(&store, "octocat", "demo", opts);
    let act = mgr.destroy_step(&mut run, &mut store, DestroyReply::Labeled(vec![]));
    assert!(matches!(act, DestroyAction::CheckDir(_)));
    let act = mgr.destroy_step(&mut run, &mut store, DestroyReply::DirExists(false));
    let res = match act {
        DestroyAction::Finish(Ok(res)) => res,
        other => panic!("unexpected {:?}", other),
    };
    assert!(res.dry_run && !res.workspace_deleted && !res.workspace_would_be_deleted);
    assert!(!res.state_entry_deleted);
    assert_eq!(
        res.format_human(),
        "agentman: destroy summary\n- removed containers: c9 (dry-run), old-name (dry-run)\n- workspace path: /srv/work/octocat/demo\n- workspace deleted: no\n- state entry deleted: no\n"
    );
    let kept = Options { keep_workspace: true, force: false, dry_run: true };
    let (mut run, _) = mgr.destroy_workspace(&store, "octocat", "demo", kept);
    let act = mgr.destroy_step(&mut run, &mut store, DestroyReply::Labeled(vec![]));
    let res = match act {
        DestroyAction::Finish(Ok(res)) => res,
        other => panic!("unexpected {:?}", other),
    };
    assert!(res.dry_run && !res.workspace_deleted && !res.workspace_would_be_deleted);
    assert_eq!(res.removed_containers, vec!["c9 (dry-run)", "old-name (dry-run)"]);
    assert!(store.get_workspace("octocat", "demo").is_some());
}

#[test]
fn destroy_stops_and_removes_each_target() {
    let mgr = manager();
    let mut store = recorded();
    let opts = Options { keep_workspace: false, force: false, dry_run: false };
    let (mut run, _) = mgr.destroy_workspace(&store, "octocat", "demo", opts);
    let mut log = Vec::new();
    let mut act =
        mgr.destroy_step(&mut run, &mut store, DestroyReply::Failed("engine busy".to_string()));
    let res = loop {
        let reply = match &act {
            DestroyAction::Stop { target, timeout_secs } => {
                assert_eq!(*timeout_secs, 10);
                log.push(format!("stop {}", target));
                if target == "c9" {
                    DestroyReply::Failed("timeout".to_string())
                } else {
                    DestroyReply::NotFound
                }
            }
            DestroyAction::Remove { target, force, volumes, link } => {
                assert!(!*force && *volumes && !*link);
                log.push(format!("remove {}", target));
                if target == "c9" {
                    DestroyReply::Done
                } else {
                    DestroyReply::NotFound
                }
            }
            DestroyAction::CheckDir(p) => {
                log.push(format!("check {}", p));
                DestroyReply::DirExists(true)
            }
            DestroyAction::DeleteDir(p) => {
                log.push(format!("delete {}", p));
                DestroyReply::Done
            }
            DestroyAction::ListLabeled => panic!("listed twice"),
            DestroyAction::Finish(_) => break act,
        };
        act = mgr.destroy_step(&mut run, &mut store, reply);
    };
    assert_eq!(
        log,
        vec![
            "stop c9",
            "remove c9",
            "stop old-name",
            "remove old-name",
            "check /srv/work/octocat/demo",
            "delete /srv/work/octocat/demo"
        ]
    );
    let res = match res {
        DestroyAction::Finish(Ok(res)) => res,
        other => panic!("unexpected {:?}", other),
    };
    assert_eq!(res.removed_containers, vec!["c9"]);
    assert_eq!(
        res.warnings,
        vec!["failed to list labeled containers: engine busy", "stop container c9: timeout"]
    );
    assert!(res.workspace_deleted && res.state_entry_deleted);
    assert!(!res.dry_run && !res.workspace_would_be_deleted);
    assert!(res.format_human().contains("- workspace deleted: yes\n"));
    assert!(store.get_workspace("octocat", "demo").is_none());
}

#[test]
fn destroy_with_force_and_kept_workspace() {
    let mgr = manager();
    let mut store = recorded();
    let opts = Options { keep_workspace: true, force: true, dry_run: false };
    let (mut run, _) = mgr.destroy_workspace(&store, "octocat", "demo", opts);
    let act = mgr.destroy_step(&mut run, &mut store, DestroyReply::Labeled(vec![]));
    assert!(matches!(
        &act,
        DestroyAction::Remove { target, force: true, volumes: true, link: false } if target == "c9"
    ));
    let act = mgr.destroy_step(&mut run, &mut store, DestroyReply::Failed("busy".to_string()));
    assert!(matches!(&act, DestroyAction::Remove { target, .. } if target == "old-name"));
    let act = mgr.destroy_step(&mut run, &mut store, DestroyReply::Done);
    let res = match act {
        DestroyAction::Finish(Ok(res)) => res,
        other => panic!("unexpected {:?}", other),
    };
    assert_eq!(res.removed_containers, vec!["old-name"]);
    assert_eq!(res.warnings, vec!["remove container c9: busy"]);
    assert!(!res.workspace_deleted && !res.workspace_would_be_deleted && !res.dry_run);
    assert!(res.state_entry_deleted);
}

#[test]
fn destroy_of_nothing_and_failed_deletion() {
    let mgr = manager();
    let mut store = Store::new();
    let opts = Options { keep_workspace: false, force: false, dry_run: false };
    let (mut run, _) = mgr.destroy_workspace(&store, "octocat", "demo", opts);
    let act = mgr.destroy_step(&mut run, &mut store, DestroyReply::Labeled(vec![]));
    assert!(matches!(act, DestroyAction::CheckDir(_)));
    let act = mgr.destroy_step(&mut run, &mut store, DestroyReply::DirExists(false));
    match act {
        DestroyAction::Finish(Ok(res)) => {
            assert!(res.removed_containers.is_empty());
            assert!(!res.workspace_deleted && !res.state_entry_deleted);
            assert!(!res.workspace_would_be_deleted && !res.dry_run);
        }
        other => panic!("unexpected {:?}", other),
    }
    let mut store = recorded();
    let (mut run, _) = mgr.destroy_workspace(&store, "octocat", "demo", Options { force: true, ..opts });
    mgr.destroy_step(&mut run, &mut store, DestroyReply::Labeled(vec![]));
    mgr.destroy_step(&mut run, &mut store, DestroyReply::Done);
    mgr.destroy_step(&mut run, &mut store, DestroyReply::Done);
    let act = mgr.destroy_step(&mut run, &mut store, DestroyReply::DirExists(true));
    assert!(matches!(&act, DestroyAction::DeleteDir(p) if p == "/srv/work/octocat/demo"));
    let act = mgr.destroy_step(&mut run, &mut store, DestroyReply::Failed("denied".to_string()));
    assert!(matches!(
        &act,
        DestroyAction::Finish(Err(e)) if e == "Failed to delete workspace directory: /srv/work/octocat/demo"
    ));
    assert!(store.get_workspace("octocat", "demo").is_some());
}

#[test]
fn exec_options() {
    let mgr = manager();
    let opts = mgr.create_exec(vec!["ls".to_string()], true, None);
    assert_eq!(opts.cmd, vec!["ls"]);
    assert!(opts.attach_stdin && opts.attach_stdout && opts.attach_stderr && opts.tty);
    assert_eq!(opts.working_dir, "/workspace");
    assert_eq!(opts.env, None);
    let start = mgr.start_exec(false);
    assert!(!start.detach && !start.tty);
    let size = mgr.resize_exec(80, 24);
    assert_eq!((size.width, size.height), (80, 24));
    assert_eq!(mgr.get_container_ip(Some("10.0.0.2"), Some("172.17.0.2")).as_deref(), Some("10.0.0.2"));
    assert_eq!(mgr.get_container_ip(Some(""), Some("172.17.0.2")).as_deref(), Some("172.17.0.2"));
    assert_eq!(mgr.get_container_ip(None, Some("")), None);
    assert_eq!(mgr.get_container_ip(None, None), None);
    let mut store = Store::new();
    assert!(mgr.get_workspace(&store, "octocat", "demo").is_none());
    store.set_workspace(Info {
        github_user: "octocat".to_string(),
        project: "demo".to_string(),
        container_name: "n".to_string(),
        container_id: None,
        created_at: NOW,
        host_workspace_path: "/p".to_string(),
    });
    assert_eq!(mgr.list_workspaces(&store, "octocat").len(), 1);
    assert_eq!(mgr.get_workspace(&store, "octocat", "demo").unwrap().container_name, "n");
}

#[test]
fn first_session_creates_a_dated_container() {
    let mgr = manager();
    let mut store = Store::new();
    let (mut run, first) = mgr.get_or_create_container("octocat", "demo", NOW);
    assert!(matches!(&first, ProvisionAction::PrepareDir(p) if p == "/srv/work/octocat/demo"));
    let act = mgr.provision_step(&mut run, &mut store, EngineReply::Done, NOW);
    assert!(matches!(&act, ProvisionAction::LookupName(n) if n == "demo-octocat-20240131"));
    let act = mgr.provision_step(&mut run, &mut store, EngineReply::NameTaken(false), NOW);
    assert!(matches!(&act, ProvisionAction::PrepareDir(p) if p == "/srv/work/octocat/demo"));
    let act = mgr.provision_step(&mut run, &mut store, EngineReply::Done, NOW);
    match &act {
        ProvisionAction::Create(spec) => {
            assert_eq!(spec.name, "demo-octocat-20240131");
            assert_eq!(spec.host.network_mode, "bridge");
            assert!(spec.host.init);
            assert_eq!(spec.host.cap_drop, Some(vec!["ALL".to_string()]));
            assert_eq!(spec.host.memory, Some(4 * 1024 * 1024 * 1024));
            assert_eq!(
                spec.env,
                vec![
                    "GITHUB_USERNAME=octocat",
                    "AGENTMAN_PROJECT=demo",
                    "AGENTMAN_CONTAINER_ID=demo-octocat-20240131",
                    "TERM=xterm-256color"
                ]
            );
        }
        other => panic!("unexpected {:?}", other),
    }
    assert!(store.get_workspace("octocat", "demo").is_none());
    let act = mgr.provision_step(&mut run, &mut store, EngineReply::Created("abc123".to_string()), NOW);
    assert!(matches!(&act, ProvisionAction::Start(c) if c == "abc123"));
    let act = mgr.provision_step(&mut run, &mut store, EngineReply::Done, NOW);
    assert!(matches!(&act, ProvisionAction::Done(c) if c == "abc123"));
    let record = store.get_workspace("octocat", "demo").unwrap();
    assert_eq!(record.container_name, "demo-octocat-20240131");
    assert_eq!(record.host_workspace_path, "/srv/work/octocat/demo");
    assert!(matches!(
        mgr.provision_step(&mut run, &mut store, EngineReply::Done, NOW),
        ProvisionAction::Fail(ProvisionError::Protocol)
    ));
}

#[test]
fn destroy_dry_run_from_the_command_line() {
    let mgr = manager();
    let mut store = recorded();
    let cmd = parse_gateway_control_command("agentman destroy --dry-run").unwrap();
    let opts = match execute_gateway_control_command(cmd, &store, "octocat", "demo") {
        ControlStep::Destroy(opts) => opts,
        other => panic!("unexpected {:?}", other),
    };
    assert!(opts.dry_run && !opts.force && !opts.keep_workspace);
    let (mut run, mut act) = mgr.destroy_workspace(&store, "octocat", "demo", opts);
    let mut asked = Vec::new();
    let result = loop {
        let reply = match act {
            DestroyAction::ListLabeled => {
                asked.push("list");
                DestroyReply::Labeled(vec![labeled(Some("c9"), Some("octocat"), Some("demo"))])
            }
            DestroyAction::CheckDir(_) => {
                asked.push("check");
                DestroyReply::DirExists(true)
            }
            DestroyAction::Finish(result) => break result,
            other => panic!("a dry run asked for {:?}", other),
        };
        act = mgr.destroy_step(&mut run, &mut store, reply);
    };
    assert_eq!(asked, vec!["list", "check"]);
    let (code, text) = destroy_outcome(&result);
    assert_eq!(code, 0);
    assert_eq!(
        text,
        "agentman: destroy summary\n- removed containers: c9 (dry-run), old-name (dry-run)\n- workspace path: /srv/work/octocat/demo\n- workspace deleted: would delete (dry-run)\n- state entry deleted: no\n"
    );
    assert_eq!(
        store.get_workspace("octocat", "demo").unwrap().container_id.as_deref(),
        Some("c9")
    );
}
