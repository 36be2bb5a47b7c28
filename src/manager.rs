//! Decisions of the node manager: request validation, the guest's kernel
//! command line and channel port, the auth gate, and the table of live
//! machines.
use vstd::prelude::*;
use crate::auth::{AuthKey, validate_authentication, verified_claims, audience_matches, opt_str_view};
use crate::network::{NetworkStack, dotted, slot_guest, slot_gateway};

verus! {

/// Error kinds of the RPC surface.
#[derive(Clone, Copy, Debug, PartialEq, Eq, Structural)]
pub enum ManagerError {
    Auth,
    NotFound,
    InvalidArgument,
    ResourceExhausted,
    Internal,
    Timeout,
}

/// Where the VMM and its jailer, kernel and root disk live.
#[derive(Clone, Debug)]
pub struct FirecrackerConfig {
    pub rootfs: String,
    pub kernel_image: String,
    pub jailer_binary: String,
    pub firecracker_binary: String,
}

/// Static configuration of the node manager.
#[derive(Clone, Debug)]
pub struct ManagerConfig {
    pub firecracker_config: FirecrackerConfig,
    pub public_network_interface: String,
    pub service_network_interface: String,
}

/// What to run in a machine and how large to make it.
#[derive(Clone, Debug)]
pub struct MachineConfig {
    pub container_reference: String,
    pub vcpu_count: u8,
    pub mem_size_mb: u32,
}

/// The caller's changes to the container's command and environment.
#[derive(Clone, Debug)]
pub struct ContainerOverrides {
    pub cmd_args: Option<Vec<String>>,
    pub env: Option<Vec<(String, String)>>,
}

/// Most vCPUs a machine may have.
pub const MAX_VCPUS: i32 = 32;

/// Checks a provision request's sizing: 1 to 32 vCPUs and a memory size
/// that is not negative.
pub fn machine_config(container_reference: String, vcpus: i32, memory_mb: i32) -> (r: Result<
    MachineConfig,
    ManagerError,
>)
    ensures
        (1 <= vcpus <= MAX_VCPUS && memory_mb >= 0) <==> r is Ok,
        r is Err ==> r == Err::<MachineConfig, ManagerError>(ManagerError::InvalidArgument),
        r matches Ok(c) ==> c.container_reference == container_reference && c.vcpu_count == vcpus
            && c.mem_size_mb == memory_mb,
{
    if vcpus < 1 || vcpus > MAX_VCPUS || memory_mb < 0 {
        return Err(ManagerError::InvalidArgument);
    }
    Ok(MachineConfig { container_reference, vcpu_count: vcpus as u8, mem_size_mb: memory_mb as u32 })
}

/// An empty list of arguments or variables means the image's own.
pub fn container_overrides(cmd_args: Vec<String>, env: Vec<(String, String)>) -> (r:
    ContainerOverrides)
    ensures
        cmd_args@.len() == 0 ==> r.cmd_args is None,
        cmd_args@.len() > 0 ==> r.cmd_args == Some(cmd_args),
        env@.len() == 0 ==> r.env is None,
        env@.len() > 0 ==> r.env == Some(env),
{
    let cmd = if cmd_args.len() > 0 {
        Some(cmd_args)
    } else {
        None
    };
    let vars = if env.len() > 0 {
        Some(env)
    } else {
        None
    };
    ContainerOverrides { cmd_args: cmd, env: vars }
}

/// A port number of a request, which must fit in 16 bits.
pub fn validate_port(port: i32) -> (r: Result<u16, ManagerError>)
    ensures
        0 <= port <= u16::MAX ==> r == Ok::<u16, ManagerError>(port as u16),
        !(0 <= port <= u16::MAX) ==> r == Err::<u16, ManagerError>(ManagerError::InvalidArgument),
{
    if port < 0 || port > 65535 {
        Err(ManagerError::InvalidArgument)
    } else {
        Ok(port as u16)
    }
}

/// Relies on rand::random: a value drawn from the thread's generator.
pub assume_specification<T>[ rand::random::<T> ]() -> (r: T)
    where
        rand::distributions::Standard: rand::distributions::Distribution<T>,
;

/// The guest channel port for a random draw: in `[3, u32::MAX - 2]`.
pub fn vsock_port_from(draw: u32) -> (r: u32)
    ensures
        r == draw % (u32::MAX - 4) as u32 + 3,
        3 <= r <= u32::MAX - 2,
{
    draw % (u32::MAX - 4) + 3
}

/// A random guest channel port.
pub fn random_vsock_port() -> (r: u32)
    ensures
        3 <= r <= u32::MAX - 2,
{
    let draw: u32 = rand::random::<u32>();
    vsock_port_from(draw)
}

pub open spec fn boot_args_spec(stack: NetworkStack, debug: bool) -> Seq<char> {
    (if debug {
        "console=ttyS0"@
    } else {
        "8250.nr_uarts=0"@
    }) + " quiet loglevel=1 reboot=k panic=-1 pci=off ip="@ + dotted(slot_guest(stack.slot_index()))
        + "::"@ + dotted(slot_gateway(stack.slot_index())) + ":"@ + "255.255.255.252"@
        + "::eth0:off"@
}

/// The guest kernel's command line: serial console only when debugging,
/// and the static address, gateway and mask of the machine's slot.
pub fn kernel_boot_args(stack: &NetworkStack, debug: bool) -> (r: String)
    requires
        stack.wf(),
    ensures
        r@ == boot_args_spec(*stack, debug),
{
    let mut s = if debug {
        String::from_str("console=ttyS0")
    } else {
        String::from_str("8250.nr_uarts=0")
    };
    s.append(" quiet loglevel=1 reboot=k panic=-1 pci=off ip=");
    let ip = stack.ipv4_addr().to_dotted();
    s.append(ip.as_str());
    s.append("::");
    let gw = stack.gateway().to_dotted();
    s.append(gw.as_str());
    s.append(":");
    s.append(stack.subnet_mask());
    s.append("::eth0:off");
    s
}

/// The auth gate of every call: with no key configured all calls pass;
/// with one, the token must validate for `expected_audience`.
pub fn validate_auth(secret: Option<&AuthKey>, token: &str, expected_audience: Option<&str>) -> (r:
    Result<(), ManagerError>)
    ensures
        secret is None ==> r is Ok,
        r is Err ==> r == Err::<(), ManagerError>(ManagerError::Auth),
        secret matches Some(k) ==> (r is Ok ==> (verified_claims(token@, k.bytes()) matches Some(c)
            && audience_matches(c, opt_str_view(expected_audience)))),
{
    match secret {
        None => Ok(()),
        Some(k) => {
            if validate_authentication(token, k, expected_audience) {
                Ok(())
            } else {
                Err(ManagerError::Auth)
            }
        },
    }
}

/// The live machines, by id; ids are unique.
pub struct MachineTable<M> {
    entries: Vec<(String, M)>,
}

impl<M> MachineTable<M> {
    /// Ids of the live machines, in insertion order.
    pub closed spec fn ids(&self) -> Seq<Seq<char>> {
        self.entries@.map_values(|e: (String, M)| e.0@)
    }

    /// The machines, in the order of their ids.
    pub closed spec fn machines(&self) -> Seq<M> {
        self.entries@.map_values(|e: (String, M)| e.1)
    }

    pub closed spec fn wf(&self) -> bool {
        self.ids().no_duplicates()
    }

    pub fn new() -> (r: MachineTable<M>)
        ensures
            r.wf(),
            r.ids() == Seq::<Seq<char>>::empty(),
    {
        let r = MachineTable { entries: Vec::new() };
        assert(r.ids() =~= Seq::<Seq<char>>::empty());
        r
    }

    fn position(&self, id: &str) -> (r: Option<usize>)
        ensures
            match r {
                Some(i) => i < self.ids().len() && self.ids()[i as int] == id@,
                None => !self.ids().contains(id@),
            },
    {
        let mut i: usize = 0;
        while i < self.entries.len()
            invariant
                i <= self.entries@.len(),
                forall|k: int| 0 <= k < i ==> self.ids()[k] != id@,
            decreases self.entries@.len() - i,
        {
            let key = id.to_owned();
            if self.entries[i].0 == key {
                return Some(i);
            }
            i = i + 1;
        }
        None
    }

    pub fn contains(&self, id: &str) -> (r: bool)
        ensures
            r == self.ids().contains(id@),
    {
        self.position(id).is_some()
    }

    pub fn len(&self) -> (r: usize)
        ensures
            r == self.ids().len(),
    {
        self.entries.len()
    }

    /// Adds a machine under a fresh id; an id already present is refused.
    pub fn insert(&mut self, id: String, machine: M) -> (r: Result<(), ManagerError>)
        requires
            old(self).wf(),
        ensures
            final(self).wf(),
            old(self).ids().contains(id@) ==> r == Err::<(), ManagerError>(ManagerError::Internal)
                && final(self).ids() == old(self).ids(),
            !old(self).ids().contains(id@) ==> r is Ok && final(self).ids() == old(self).ids().push(
                id@,
            ) && final(self).machines() == old(self).machines().push(machine),
    {
        if self.contains(id.as_str()) {
            return Err(ManagerError::Internal);
        }
        let ghost old_ids = self.ids();
        let ghost key = id@;
        let ghost old_ms = self.machines();
        self.entries.push((id, machine));
        assert(self.ids() =~= old_ids.push(key));
        assert(self.machines() =~= old_ms.push(machine));
        Ok(())
    }

    /// Takes the machine with `id` out of the table.
    pub fn remove(&mut self, id: &str) -> (r: Result<M, ManagerError>)
        requires
            old(self).wf(),
        ensures
            final(self).wf(),
            !old(self).ids().contains(id@) ==> r == Err::<M, ManagerError>(ManagerError::NotFound)
                && final(self).ids() == old(self).ids(),
            old(self).ids().contains(id@) ==> r == Ok::<M, ManagerError>(
                old(self).machines()[old(self).ids().index_of(id@)],
            ) && final(self).ids() == old(self).ids().remove(old(self).ids().index_of(id@)),
    {
        match self.position(id) {
            None => Err(ManagerError::NotFound),
            Some(i) => {
                let ghost old_ids = self.ids();
                proof {
                    old_ids.index_of_first_ensures(id@);
                    assert(old_ids.index_of(id@) == i as int) by {
                        let j = old_ids.index_of(id@);
                        if j != i {
                            assert(old_ids[j] == old_ids[i as int]);
                        }
                    }
                }
                let e = self.entries.remove(i);
                assert(self.ids() =~= old_ids.remove(i as int));
                proof {
                    assert forall|a: int, b: int| 0 <= a < b < self.ids().len() implies self.ids()[a]
                        != self.ids()[b] by {
                        let a2 = if a < i { a } else { a + 1 };
                        let b2 = if b < i { b } else { b + 1 };
                        assert(self.ids()[a] == old_ids[a2]);
                        assert(self.ids()[b] == old_ids[b2]);
                    }
                }
                Ok(e.1)
            },
        }
    }

    /// The ids of the live machines.
    pub fn list_ids(&self) -> (r: Vec<String>)
        ensures
            r.deep_view() == self.ids(),
    {
        let mut out: Vec<String> = Vec::new();
        let mut i: usize = 0;
        while i < self.entries.len()
            invariant
                i <= self.entries@.len(),
                out.deep_view() =~= self.ids().subrange(0, i as int),
            decreases self.entries@.len() - i,
        {
            let ghost prev = out.deep_view();
            out.push(self.entries[i].0.clone());
            assert(out.deep_view() =~= prev.push(self.ids()[i as int]));
            i = i + 1;
        }
        assert(self.ids().subrange(0, i as int) =~= self.ids());
        out
    }

    /// Empties the table, handing every entry out for shutdown.
    pub fn drain(&mut self) -> (r: Vec<(String, M)>)
        ensures
            final(self).wf(),
            final(self).ids() == Seq::<Seq<char>>::empty(),
            r@.map_values(|e: (String, M)| e.0@) == old(self).ids(),
            old(self).ids().len() == 0 ==> r@.len() == 0,
    {
        let mut out: Vec<(String, M)> = Vec::new();
        std::mem::swap(&mut out, &mut self.entries);
        assert(self.ids() =~= Seq::<Seq<char>>::empty());
        out
    }
}

} // verus!

verus! {

/// Milliseconds the host waits for the guest to connect after boot.
pub const GUEST_ACCEPT_TIMEOUT_MS: u64 = 500;

/// Outcome of waiting for the guest: a connection made before the deadline
/// is taken; at the deadline or later the wait has failed.
pub fn guest_accept_outcome(elapsed_ms: u64, connected: bool) -> (r: Result<(), ManagerError>)
    ensures
        elapsed_ms >= GUEST_ACCEPT_TIMEOUT_MS ==> r == Err::<(), ManagerError>(ManagerError::Timeout),
        elapsed_ms < GUEST_ACCEPT_TIMEOUT_MS && connected ==> r is Ok,
        elapsed_ms < GUEST_ACCEPT_TIMEOUT_MS && !connected ==> r == Err::<(), ManagerError>(
            ManagerError::Internal,
        ),
{
    if elapsed_ms >= GUEST_ACCEPT_TIMEOUT_MS {
        Err(ManagerError::Timeout)
    } else if connected {
        Ok(())
    } else {
        Err(ManagerError::Internal)
    }
}

} // verus!
