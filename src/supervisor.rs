//! Decisions of the in-guest supervisor: how container output becomes log
//! lines, how a shutdown request and the container's exit settle into the
//! exit code reported to the host, and the steps that prepare the guest.
use vstd::prelude::*;
use crate::guest::GuestExitCode;
use crate::text::strings;

verus! {

/// Bytes of one output line kept before it is cut.
pub const MAX_LINE_LEN: usize = 2048;

/// Exit code reported when the container ended without one (by a signal).
pub const NO_EXIT_CODE: i32 = 9999;

pub open spec fn sentinel() -> Seq<u8> {
    seq![63u8, 63u8, 63u8, 46u8, 46u8, 46u8, 63u8, 63u8, 63u8]
}

/// The line emitted for the bytes kept: those bytes, and the sentinel
/// `???...???` when the line was cut.
pub open spec fn emitted_line(kept: Seq<u8>, cut: bool) -> Seq<u8> {
    if cut {
        kept + sentinel()
    } else {
        kept
    }
}

/// One byte of output: a newline ends the line; other bytes are kept up to
/// `MAX_LINE_LEN`, after which the line is marked as cut.
pub open spec fn step(kept: Seq<u8>, cut: bool, b: u8) -> (Seq<u8>, bool, Seq<Seq<u8>>) {
    if b == 10 {
        (Seq::empty(), false, seq![emitted_line(kept, cut)])
    } else if kept.len() < MAX_LINE_LEN {
        (kept.push(b), cut, Seq::empty())
    } else {
        (kept, true, Seq::empty())
    }
}

/// The state after `chunk` and the lines it completed, in order.
pub open spec fn feed_spec(kept: Seq<u8>, cut: bool, chunk: Seq<u8>) -> (Seq<u8>, bool, Seq<Seq<u8>>)
    decreases chunk.len(),
{
    if chunk.len() == 0 {
        (kept, cut, Seq::empty())
    } else {
        let (k1, c1, out1) = feed_spec(kept, cut, chunk.drop_last());
        let (k2, c2, out2) = step(k1, c1, chunk.last());
        (k2, c2, out1 + out2)
    }
}

/// Splits a stream of container output into log lines.
pub struct LineAssembler {
    kept: Vec<u8>,
    cut: bool,
}

impl LineAssembler {
    pub closed spec fn pending(&self) -> Seq<u8> {
        self.kept@
    }

    pub closed spec fn is_cut(&self) -> bool {
        self.cut
    }

    pub open spec fn wf(&self) -> bool {
        self.pending().len() <= MAX_LINE_LEN
    }

    pub fn new() -> (r: LineAssembler)
        ensures
            r.wf(),
            r.pending() == Seq::<u8>::empty(),
            !r.is_cut(),
    {
        LineAssembler { kept: Vec::new(), cut: false }
    }

    fn emit(&self) -> (r: Vec<u8>)
        requires
            self.wf(),
        ensures
            r@ == emitted_line(self.pending(), self.is_cut()),
    {
        let mut line: Vec<u8> = Vec::with_capacity(self.kept.len() + 9);
        let mut i: usize = 0;
        while i < self.kept.len()
            invariant
                i <= self.kept@.len(),
                line@ =~= self.kept@.subrange(0, i as int),
            decreases self.kept@.len() - i,
        {
            line.push(self.kept[i]);
            i = i + 1;
        }
        assert(self.kept@.subrange(0, i as int) =~= self.kept@);
        if self.cut {
            let mut j: usize = 0;
            while j < 9
                invariant
                    j <= 9,
                    line@ =~= self.kept@ + sentinel().subrange(0, j as int),
                decreases 9 - j,
            {
                let b: u8 = if j == 3 || j == 4 || j == 5 {
                    46
                } else {
                    63
                };
                line.push(b);
                j = j + 1;
            }
            assert(sentinel().subrange(0, 9) =~= sentinel());
        }
        line
    }

    /// Takes a chunk of output and returns the lines it completed.
    pub fn feed(&mut self, chunk: &[u8]) -> (r: Vec<Vec<u8>>)
        requires
            old(self).wf(),
        ensures
            final(self).wf(),
            (final(self).pending(), final(self).is_cut(), r.deep_view()) == feed_spec(
                old(self).pending(),
                old(self).is_cut(),
                chunk@,
            ),
    {
        let mut lines: Vec<Vec<u8>> = Vec::new();
        let mut i: usize = 0;
        while i < chunk.len()
            invariant
                i <= chunk@.len(),
                self.wf(),
                (self.pending(), self.is_cut(), lines.deep_view()) == feed_spec(
                    old(self).pending(),
                    old(self).is_cut(),
                    chunk@.subrange(0, i as int),
                ),
            decreases chunk@.len() - i,
        {
            let b = chunk[i];
            let ghost before = (self.pending(), self.is_cut(), lines.deep_view());
            assert(chunk@.subrange(0, i as int + 1).drop_last() =~= chunk@.subrange(0, i as int));
            if b == 10 {
                let line = self.emit();
                assert(line.deep_view() =~= line@);
                let ghost prev = lines.deep_view();
                lines.push(line);
                assert(lines.deep_view() =~= prev.push(emitted_line(before.0, before.1)));
                self.kept = Vec::new();
                self.cut = false;
                assert(lines.deep_view() =~= before.2 + seq![emitted_line(before.0, before.1)]);
                assert(self.pending() =~= Seq::<u8>::empty());
            } else if self.kept.len() < MAX_LINE_LEN {
                self.kept.push(b);
                assert(lines.deep_view() =~= before.2 + Seq::<Seq<u8>>::empty());
            } else {
                self.cut = true;
                assert(lines.deep_view() =~= before.2 + Seq::<Seq<u8>>::empty());
            }
            i = i + 1;
        }
        assert(chunk@.subrange(0, i as int) =~= chunk@);
        lines
    }
}

/// Where the supervisor stands once the container runs.
#[derive(Clone, Copy, Debug, PartialEq, Eq, Structural)]
pub enum SupervisorState {
    Running,
    /// The host asked for a shutdown and the container was told to stop.
    Stopping,
    Finished,
}

/// What the supervisor learns.
#[derive(Clone, Copy, Debug, PartialEq, Eq, Structural)]
pub enum SupervisorEvent {
    ShutdownRequested,
    /// The container ended, with its exit code if it had one.
    ContainerExited(Option<i32>),
}

/// What the supervisor does next.
#[derive(Clone, Copy, Debug, PartialEq, Eq, Structural)]
pub enum SupervisorAction {
    /// Tell the runtime to kill the container, then keep waiting.
    KillContainer,
    /// Report this exit to the host and reboot.
    ReportExit(GuestExitCode),
    Wait,
}

/// One decision of the supervisor.
pub fn supervisor_step(state: SupervisorState, event: SupervisorEvent) -> (r: (
    SupervisorState,
    SupervisorAction,
))
    ensures
        match (state, event) {
            (SupervisorState::Running, SupervisorEvent::ShutdownRequested) => r == (
                SupervisorState::Stopping,
                SupervisorAction::KillContainer,
            ),
            (SupervisorState::Running, SupervisorEvent::ContainerExited(c)) => r == (
                SupervisorState::Finished,
                SupervisorAction::ReportExit(
                    GuestExitCode::ContainerExited(
                        match c {
                            Some(v) => v,
                            None => NO_EXIT_CODE,
                        },
                    ),
                ),
            ),
            (SupervisorState::Stopping, SupervisorEvent::ContainerExited(_)) => r == (
                SupervisorState::Finished,
                SupervisorAction::ReportExit(GuestExitCode::GracefulShutdown),
            ),
            _ => r == (state, SupervisorAction::Wait),
        },
{
    match (state, event) {
        (SupervisorState::Running, SupervisorEvent::ShutdownRequested) => (
            SupervisorState::Stopping,
            SupervisorAction::KillContainer,
        ),
        (SupervisorState::Running, SupervisorEvent::ContainerExited(c)) => {
            let code = match c {
                Some(v) => v,
                None => NO_EXIT_CODE,
            };
            (SupervisorState::Finished, SupervisorAction::ReportExit(GuestExitCode::ContainerExited(code)))
        },
        (SupervisorState::Stopping, SupervisorEvent::ContainerExited(_)) => (
            SupervisorState::Finished,
            SupervisorAction::ReportExit(GuestExitCode::GracefulShutdown),
        ),
        _ => (state, SupervisorAction::Wait),
    }
}

pub open spec fn init_commands() -> Seq<Seq<Seq<char>>> {
    seq![
        seq!["mount"@, "-t"@, "proc"@, "proc"@, "/proc"@],
        seq!["mount"@, "-t"@, "sysfs"@, "sysfs"@, "/sys"@],
        seq!["mount"@, "-t"@, "tmpfs"@, "tmpfs"@, "/run"@],
        seq!["mount"@, "-t"@, "tmpfs"@, "tmpfs"@, "/var/run"@],
        seq!["mkdir"@, "-p"@, "/dev/pts"@],
        seq!["mount"@, "-t"@, "devpts"@, "devpts"@, "/dev/pts"@],
        seq!["mount"@, "-t"@, "cgroup2"@, "cgroup2"@, "/sys/fs/cgroup"@],
        seq!["/sbin/mke2fs"@, "-t"@, "ext4"@, "-O"@, "^has_journal"@, "/dev/vdb"@],
        seq!["mount"@, "/dev/vdb"@, "/mnt"@],
        seq!["sysctl"@, "-w"@, "net.ipv4.ip_unprivileged_port_start=0"@],
        seq!["sysctl"@, "-w"@, "net.ipv4.ip_forward=1"@],
    ]
}

/// The commands that prepare the guest, in order: pseudo-filesystems,
/// cgroup v2, the scratch disk formatted without a journal and mounted at
/// `/mnt`, and the sysctls. Each must succeed; the caller becomes session
/// leader between the mount of `/mnt` and the sysctls.
pub fn init() -> (r: Vec<Vec<String>>)
    ensures
        r.deep_view() == init_commands(),
{
    let mut v: Vec<Vec<String>> = Vec::new();
    v.push(strings(&["mount", "-t", "proc", "proc", "/proc"]));
    v.push(strings(&["mount", "-t", "sysfs", "sysfs", "/sys"]));
    v.push(strings(&["mount", "-t", "tmpfs", "tmpfs", "/run"]));
    v.push(strings(&["mount", "-t", "tmpfs", "tmpfs", "/var/run"]));
    v.push(strings(&["mkdir", "-p", "/dev/pts"]));
    v.push(strings(&["mount", "-t", "devpts", "devpts", "/dev/pts"]));
    v.push(strings(&["mount", "-t", "cgroup2", "cgroup2", "/sys/fs/cgroup"]));
    v.push(strings(&["/sbin/mke2fs", "-t", "ext4", "-O", "^has_journal", "/dev/vdb"]));
    v.push(strings(&["mount", "/dev/vdb", "/mnt"]));
    v.push(strings(&["sysctl", "-w", "net.ipv4.ip_unprivileged_port_start=0"]));
    v.push(strings(&["sysctl", "-w", "net.ipv4.ip_forward=1"]));
    assert(v.deep_view() =~~= init_commands());
    v
}

} // verus!
