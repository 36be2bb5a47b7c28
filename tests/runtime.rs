use microvm_node::runtime::{
    capabilities, create_runtime_spec, namespaces, process_args, process_env, Capability, IdMapping,
    ImageConfig, NamespaceKind, RuntimeOverrides,
};

fn strs(v: &[&str]) -> Vec<String> {
    v.iter().map(|s| s.to_string()).collect()
}

fn cfg(entry: Option<&[&str]>, cmd: Option<&[&str]>, env: Option<&[&str]>) -> ImageConfig {
    ImageConfig { entrypoint: entry.map(strs), cmd: cmd.map(strs), env: env.map(strs) }
}

#[test]
fn args_entrypoint_then_cmd() {
    let c = cfg(Some(&["/docker-entrypoint.sh"]), Some(&["nginx", "-g", "daemon off;"]), None);
    let o = RuntimeOverrides::none();
    assert_eq!(process_args(&c, &o), strs(&["/docker-entrypoint.sh", "nginx", "-g", "daemon off;"]));
}

#[test]
fn args_override_replaces_cmd() {
    let c = cfg(Some(&["/entry"]), Some(&["serve"]), None);
    let mut o = RuntimeOverrides::none();
    o.additional_args = Some(strs(&["sleep", "10"]));
    assert_eq!(process_args(&c, &o), strs(&["/entry", "sleep", "10"]));
    let c = cfg(None, Some(&["serve"]), None);
    assert_eq!(process_args(&c, &o), strs(&["sleep", "10"]));
}

#[test]
fn args_default_shell() {
    let o = RuntimeOverrides::none();
    assert_eq!(process_args(&cfg(None, None, None), &o), strs(&["/bin/sh"]));
    assert_eq!(process_args(&cfg(Some(&["/e"]), None, None), &o), strs(&["/e", "/bin/sh"]));
}

#[test]
fn env_rules() {
    let mut o = RuntimeOverrides::none();
    let env = process_env(&cfg(None, None, None), &o);
    assert_eq!(env, strs(&["PATH=/usr/local/sbin:/usr/local/bin:/usr/sbin:/usr/bin:/sbin:/bin"]));
    o.additional_env = Some(vec![("A".into(), "1".into()), ("B".into(), "x=y".into())]);
    o.terminal = true;
    let env = process_env(&cfg(None, None, Some(&["PATH=/bin", "HOME=/root"])), &o);
    assert_eq!(env, strs(&["PATH=/bin", "HOME=/root", "A=1", "B=x=y", "TERM=xterm"]));
}

#[test]
fn fixed_policy() {
    let caps = capabilities();
    assert_eq!(caps.len(), 13);
    assert!(caps.contains(&Capability::NetBindService));
    assert!(caps.contains(&Capability::SysChroot));
    assert_eq!(
        namespaces(),
        vec![NamespaceKind::Mount, NamespaceKind::Pid, NamespaceKind::Ipc, NamespaceKind::Uts, NamespaceKind::Cgroup]
    );
    let c = cfg(None, Some(&["run"]), None);
    let spec = create_runtime_spec(Some(&c), &RuntimeOverrides::none()).unwrap();
    assert_eq!(spec.root_path, "rootfs");
    assert!(!spec.root_readonly);
    assert_eq!(spec.hostname, "node");
    assert_eq!(spec.id_mapping, IdMapping { container_id: 0, host_id: 0, size: 65536 });
    assert_eq!(spec.args, strs(&["run"]));
    assert!(create_runtime_spec(None, &RuntimeOverrides::none()).is_none());
}
