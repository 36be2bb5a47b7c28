//! Packets that travel over the guest/host byte channel.
use vstd::prelude::*;

verus! {

/// How the guest's workload ended.
#[derive(Clone, Copy, Debug, PartialEq, Eq, Structural)]
pub enum GuestExitCode {
    /// The host asked the guest to shut down and it did.
    GracefulShutdown,
    FailedToPullContainerImage,
    ContainerExited(i32),
}

/// Milestones that the guest reports while it boots its workload.
#[derive(Clone, Copy, Debug, PartialEq, Eq, Structural)]
pub enum InitVmState {
    Online,
    PullingContainerImage,
    ExecutingContainer,
}

pub open spec fn vm_state_name(s: InitVmState) -> Seq<char> {
    match s {
        InitVmState::Online => "online"@,
        InitVmState::PullingContainerImage => "pulling_container_image"@,
        InitVmState::ExecutingContainer => "executing_container"@,
    }
}

impl InitVmState {
    pub fn as_str(&self) -> (r: &'static str)
        ensures
            r@ == vm_state_name(*self),
    {
        match self {
            InitVmState::Online => "online",
            InitVmState::PullingContainerImage => "pulling_container_image",
            InitVmState::ExecutingContainer => "executing_container",
        }
    }
}

/// Where a log line came from.
#[derive(Clone, Copy, Debug, PartialEq, Eq, Structural)]
pub enum LogMessageType {
    /// Messages of the guest agent itself.
    System,
    Stdout,
    Stderr,
}

pub open spec fn log_type_name(t: LogMessageType) -> Seq<char> {
    match t {
        LogMessageType::System => "system"@,
        LogMessageType::Stdout => "stdout"@,
        LogMessageType::Stderr => "stderr"@,
    }
}

impl LogMessageType {
    pub fn as_str(&self) -> (r: &'static str)
        ensures
            r@ == log_type_name(*self),
    {
        match self {
            LogMessageType::System => "system",
            LogMessageType::Stdout => "stdout",
            LogMessageType::Stderr => "stderr",
        }
    }
}

/// One line of log output, stamped in milliseconds since the unix epoch.
#[derive(Clone, Debug, PartialEq, Eq)]
pub struct LogMessage {
    pub text: String,
    pub timestamp_ms: u64,
    pub message_type: LogMessageType,
}

/// Relies on std::time::SystemTime::now and its distance to UNIX_EPOCH:
/// the wall clock in milliseconds, 0 when the clock is before the epoch.
/// Nothing is promised of the value: it is whatever the clock reads.
#[verifier::external_body]
pub fn get_timestamp_ms() -> (r: u64) {
    std::time::SystemTime::now().duration_since(std::time::UNIX_EPOCH).unwrap_or_default().as_millis() as u64
}

impl LogMessage {
    /// A message stamped with the current time.
    pub fn new(text: String, message_type: LogMessageType) -> (r: LogMessage)
        ensures
            r.text@ == text@,
            r.message_type == message_type,
    {
        LogMessage { text, timestamp_ms: get_timestamp_ms(), message_type }
    }

    pub fn system(text: String) -> (r: LogMessage)
        ensures
            r.text@ == text@,
            r.message_type == LogMessageType::System,
    {
        Self::new(text, LogMessageType::System)
    }

    pub fn stdout(text: String) -> (r: LogMessage)
        ensures
            r.text@ == text@,
            r.message_type == LogMessageType::Stdout,
    {
        Self::new(text, LogMessageType::Stdout)
    }

    pub fn stderr(text: String) -> (r: LogMessage)
        ensures
            r.text@ == text@,
            r.message_type == LogMessageType::Stderr,
    {
        Self::new(text, LogMessageType::Stderr)
    }
}

/// A packet sent by the guest to the host.
#[derive(Clone, Debug, PartialEq, Eq)]
pub enum GuestPacket {
    Log(LogMessage),
    /// A state change and the time it happened, in milliseconds.
    VmState(InitVmState, u64),
    Exited(GuestExitCode),
}

/// A packet sent by the host to the guest.
#[derive(Clone, Copy, Debug, PartialEq, Eq, Structural)]
pub enum HostPacket {
    Shutdown,
}

} // verus!
