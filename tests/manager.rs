use microvm_node::manager::{
    container_overrides, guest_accept_outcome, kernel_boot_args, machine_config, validate_port,
    vsock_port_from, random_vsock_port, ManagerError, MachineTable,
};
use microvm_node::network::NetworkManager;

#[test]
fn provision_sizing() {
    let c = machine_config("nginx:latest".to_string(), 1, 512).unwrap();
    assert_eq!(c.vcpu_count, 1);
    assert_eq!(c.mem_size_mb, 512);
    assert_eq!(c.container_reference, "nginx:latest");
    assert!(machine_config("x".into(), 32, 0).is_ok());
    assert_eq!(machine_config("x".into(), 0, 512).unwrap_err(), ManagerError::InvalidArgument);
    assert_eq!(machine_config("x".into(), 33, 512).unwrap_err(), ManagerError::InvalidArgument);
    assert_eq!(machine_config("x".into(), 2, -1).unwrap_err(), ManagerError::InvalidArgument);
}

#[test]
fn ports_must_fit_u16() {
    assert_eq!(validate_port(8080), Ok(8080));
    assert_eq!(validate_port(0), Ok(0));
    assert_eq!(validate_port(65535), Ok(65535));
    assert_eq!(validate_port(65536), Err(ManagerError::InvalidArgument));
    assert_eq!(validate_port(-1), Err(ManagerError::InvalidArgument));
}

#[test]
fn empty_overrides_mean_image_defaults() {
    let o = container_overrides(vec![], vec![]);
    assert!(o.cmd_args.is_none() && o.env.is_none());
    let o = container_overrides(vec!["sleep".into()], vec![("A".into(), "1".into())]);
    assert_eq!(o.cmd_args.unwrap(), vec!["sleep"]);
    assert_eq!(o.env.unwrap().len(), 1);
}

#[test]
fn vsock_port_range() {
    assert_eq!(vsock_port_from(0), 3);
    assert_eq!(vsock_port_from(u32::MAX - 5), u32::MAX - 2);
    assert_eq!(vsock_port_from(u32::MAX - 4), 3);
    let p = random_vsock_port();
    assert!(p >= 3 && p <= u32::MAX - 2);
}

#[test]
fn guest_accept_deadline() {
    assert_eq!(guest_accept_outcome(500, true), Err(ManagerError::Timeout));
    assert_eq!(guest_accept_outcome(499, true), Ok(()));
    assert_eq!(guest_accept_outcome(10, false), Err(ManagerError::Internal));
}

#[test]
fn boot_args() {
    let mut m = NetworkManager::new();
    let s = m.provision_stack().unwrap();
    assert_eq!(
        kernel_boot_args(&s, false),
        "8250.nr_uarts=0 quiet loglevel=1 reboot=k panic=-1 pci=off ip=172.16.0.2::172.16.0.1:255.255.255.252::eth0:off"
    );
    assert!(kernel_boot_args(&s, true).starts_with("console=ttyS0 quiet"));
}

#[test]
fn table_insert_remove_list() {
    let mut t: MachineTable<u32> = MachineTable::new();
    assert!(t.insert("a".into(), 1).is_ok());
    assert!(t.insert("b".into(), 2).is_ok());
    assert!(t.insert("a".into(), 3).is_err());
    assert_eq!(t.list_ids(), vec!["a", "b"]);
    assert!(t.contains("b"));
    assert_eq!(t.remove("a"), Ok(1));
    assert_eq!(t.remove("a"), Err(ManagerError::NotFound));
    assert_eq!(t.list_ids(), vec!["b"]);
    assert_eq!(t.len(), 1);
}

#[test]
fn drain_under_load_and_again() {
    let mut t = MachineTable::new();
    let mut net = NetworkManager::new();
    for id in ["i1", "i2", "i3"] {
        let stack = net.provision_stack().unwrap();
        t.insert(id.to_string(), stack).unwrap();
    }
    let drained = t.drain();
    assert_eq!(drained.len(), 3);
    for (_, stack) in drained {
        net.reclaim(stack);
    }
    assert_eq!(t.len(), 0);
    assert!(t.drain().is_empty());
    assert_eq!(t.len(), 0);
    let mut names: Vec<String> = (0..3).map(|_| net.provision_stack().unwrap().nic().name().to_string()).collect();
    names.sort();
    assert_eq!(names, vec!["tap0", "tap1", "tap2"]);
    assert_eq!(net.provision_stack().unwrap().nic().name(), "tap3");
}
