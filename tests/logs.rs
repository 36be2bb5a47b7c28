use microvm_node::guest::{GuestExitCode, GuestPacket, InitVmState, LogMessage, LogMessageType};
use microvm_node::logs::{MachineCommunicator, MachineExit, MachineLog, MAX_LINES_IN_BUFFER};

fn text_of(l: &MachineLog) -> String {
    match l {
        MachineLog::VmLog(m) => m.text.clone(),
        MachineLog::State(s, t) => format!("{}@{}", s.as_str(), t),
    }
}

fn line(t: &str) -> GuestPacket {
    GuestPacket::Log(LogMessage { text: t.to_string(), timestamp_ms: 1, message_type: LogMessageType::Stdout })
}

#[test]
fn snapshot_is_oldest_first() {
    let mut c: MachineCommunicator<u32> = MachineCommunicator::new();
    assert_eq!(c.handle_packet(line("a")), None);
    assert_eq!(c.handle_packet(line("b")), None);
    let snap: Vec<String> = c.clone_buffer_with_state().iter().map(text_of).collect();
    assert_eq!(snap, vec!["a", "b"]);
}

#[test]
fn ring_overflow_evicts_oldest() {
    let mut c: MachineCommunicator<u32> = MachineCommunicator::new();
    for i in 0..=MAX_LINES_IN_BUFFER {
        c.handle_packet(line(&i.to_string()));
    }
    let snap = c.clone_buffer_with_state();
    assert_eq!(snap.len(), MAX_LINES_IN_BUFFER);
    assert_eq!(text_of(&snap[0]), "1");
    assert_eq!(text_of(&snap[MAX_LINES_IN_BUFFER - 1]), MAX_LINES_IN_BUFFER.to_string());
}

#[test]
fn evicted_state_is_appended_to_snapshot() {
    let mut c: MachineCommunicator<u32> = MachineCommunicator::new();
    c.handle_packet(GuestPacket::VmState(InitVmState::Online, 5));
    let snap: Vec<String> = c.clone_buffer_with_state().iter().map(text_of).collect();
    assert_eq!(snap, vec!["online@5"]);
    for i in 0..MAX_LINES_IN_BUFFER {
        c.handle_packet(line(&i.to_string()));
    }
    let snap = c.clone_buffer_with_state();
    assert_eq!(snap.len(), MAX_LINES_IN_BUFFER + 1);
    assert_eq!(text_of(&snap[0]), "0");
    assert_eq!(text_of(&snap[MAX_LINES_IN_BUFFER]), "online@5");
}

#[test]
fn exit_clears_state_and_reports() {
    let mut c: MachineCommunicator<u32> = MachineCommunicator::new();
    c.handle_packet(GuestPacket::VmState(InitVmState::PullingContainerImage, 9));
    let r = c.handle_packet(GuestPacket::Exited(GuestExitCode::FailedToPullContainerImage));
    assert_eq!(r, Some(MachineExit::FailedToPullContainerImage));
    let snap: Vec<String> = c.clone_buffer_with_state().iter().map(text_of).collect();
    assert_eq!(snap, vec!["pulling_container_image@9"]);
    assert_eq!(
        c.handle_packet(GuestPacket::Exited(GuestExitCode::ContainerExited(3))),
        Some(MachineExit::ContainerExited(3))
    );
    assert_eq!(MachineExit::from(GuestExitCode::GracefulShutdown), MachineExit::GracefulShutdown);
}

#[test]
fn failed_subscribers_are_dropped() {
    let mut c: MachineCommunicator<&str> = MachineCommunicator::new();
    let snap = c.get_and_subscribe_to_logs("x");
    assert!(snap.is_empty());
    c.subscribe_log("y");
    c.subscribe_log("z");
    c.retain_delivered(&vec![true, false, true]);
    assert_eq!(c.subscriber_count(), 2);
    c.retain_delivered(&vec![true, true]);
    assert_eq!(c.subscriber_count(), 2);
    c.drop_subscribers();
    assert_eq!(c.subscriber_count(), 0);
}

#[test]
fn snapshot_then_subscribe_misses_nothing() {
    let mut c: MachineCommunicator<u8> = MachineCommunicator::new();
    c.handle_packet(line("before"));
    let snap = c.get_and_subscribe_to_logs(1);
    assert_eq!(snap.len(), 1);
    assert_eq!(c.subscriber_count(), 1);
    c.handle_packet(line("after"));
    assert_eq!(c.subscriber_count(), 1);
    let all: Vec<String> = c.clone_buffer_with_state().iter().map(text_of).collect();
    assert_eq!(all, vec!["before", "after"]);
}

#[test]
fn proto_messages() {
    let m = MachineLog::VmLog(LogMessage { text: "hi".into(), timestamp_ms: 42, message_type: LogMessageType::Stderr });
    let p = m.as_proto_log_message();
    assert_eq!(p.message.as_deref(), Some("hi"));
    assert_eq!(p.timestamp_ms, 42);
    assert_eq!(p.log_type, "stderr");
    assert!(p.state.is_none());
    let s = MachineLog::State(InitVmState::ExecutingContainer, 7).as_proto_log_message();
    assert_eq!(s.log_type, "state");
    assert_eq!(s.state.as_deref(), Some("executing_container"));
    assert!(s.message.is_none());
    assert_eq!(s.timestamp_ms, 7);
}

#[test]
fn log_message_constructors() {
    let m = LogMessage::system("boot".to_string());
    assert_eq!(m.message_type, LogMessageType::System);
    assert_eq!(m.text, "boot");
    assert_eq!(LogMessage::stdout("o".into()).message_type.as_str(), "stdout");
    assert_eq!(LogMessage::stderr("e".into()).message_type.as_str(), "stderr");
    assert_eq!(InitVmState::Online.as_str(), "online");
    assert_eq!(InitVmState::PullingContainerImage.as_str(), "pulling_container_image");
    assert!(m.timestamp_ms > 0);
}
