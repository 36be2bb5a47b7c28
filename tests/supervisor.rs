use microvm_node::guest::GuestExitCode;
use microvm_node::supervisor::{
    init, supervisor_step, LineAssembler, SupervisorAction, SupervisorEvent, SupervisorState, MAX_LINE_LEN,
};
use microvm_node::vmm::{control_socket_path, jail_root, jail_uid, jailer_args, vsock_listener_path};

#[test]
fn lines_split_across_chunks() {
    let mut a = LineAssembler::new();
    assert!(a.feed(b"hel").is_empty());
    let out = a.feed(b"lo\nwor");
    assert_eq!(out, vec![b"hello".to_vec()]);
    let out = a.feed(b"ld\n\nx");
    assert_eq!(out, vec![b"world".to_vec(), b"".to_vec()]);
}

#[test]
fn long_line_is_cut_with_sentinel() {
    let mut a = LineAssembler::new();
    let long = vec![b'a'; MAX_LINE_LEN + 100];
    assert!(a.feed(&long).is_empty());
    let out = a.feed(b"tail\nnext\n");
    assert_eq!(out.len(), 2);
    let mut expect = vec![b'a'; MAX_LINE_LEN];
    expect.extend_from_slice(b"???...???");
    assert_eq!(out[0], expect);
    assert_eq!(out[1], b"next".to_vec());
}

#[test]
fn shutdown_then_exit_is_graceful() {
    let (s, a) = supervisor_step(SupervisorState::Running, SupervisorEvent::ShutdownRequested);
    assert_eq!((s, a), (SupervisorState::Stopping, SupervisorAction::KillContainer));
    let (s, a) = supervisor_step(s, SupervisorEvent::ContainerExited(Some(137)));
    assert_eq!(s, SupervisorState::Finished);
    assert_eq!(a, SupervisorAction::ReportExit(GuestExitCode::GracefulShutdown));
}

#[test]
fn container_exit_reports_code() {
    let (_, a) = supervisor_step(SupervisorState::Running, SupervisorEvent::ContainerExited(Some(2)));
    assert_eq!(a, SupervisorAction::ReportExit(GuestExitCode::ContainerExited(2)));
    let (_, a) = supervisor_step(SupervisorState::Running, SupervisorEvent::ContainerExited(None));
    assert_eq!(a, SupervisorAction::ReportExit(GuestExitCode::ContainerExited(9999)));
    let (s, a) = supervisor_step(SupervisorState::Stopping, SupervisorEvent::ShutdownRequested);
    assert_eq!((s, a), (SupervisorState::Stopping, SupervisorAction::Wait));
}

#[test]
fn init_steps() {
    let steps = init();
    assert_eq!(steps.len(), 11);
    assert_eq!(steps[0], vec!["mount", "-t", "proc", "proc", "/proc"]);
    assert_eq!(steps[7], vec!["/sbin/mke2fs", "-t", "ext4", "-O", "^has_journal", "/dev/vdb"]);
    assert_eq!(steps[10], vec!["sysctl", "-w", "net.ipv4.ip_forward=1"]);
}

#[test]
fn jail_layout() {
    assert_eq!(jail_uid(3), 10003);
    assert_eq!(
        jailer_args("id1", "/usr/bin/firecracker", 0, true),
        vec![
            "--id", "id1", "--exec-file", "/usr/bin/firecracker", "--uid", "10000", "--gid", "10000", "--",
            "--level", "error", "--metadata", "metadata.json"
        ]
    );
    assert_eq!(jailer_args("i", "f", 1, false).len(), 11);
    let root = jail_root("firecracker", "id1");
    assert_eq!(root, "/srv/jailer/firecracker/id1/root");
    assert_eq!(control_socket_path(&root), "/srv/jailer/firecracker/id1/root/run/firecracker.socket");
    assert_eq!(vsock_listener_path("/r", 52), "/r/run/v.sock_52");
}
