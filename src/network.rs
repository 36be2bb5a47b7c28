//! Network slots for machines: the allocator that hands out non-overlapping
//! /30 subnets and TAP devices, and the per-machine stack that records every
//! firewall rule it installs together with the rule that deletes it.
use vstd::prelude::*;
use crate::text::{copy_strings, decimal, decimal_string, lemma_decimal_injective, strings};

verus! {

/// Number of slots that the 172.16.0.0/16 range holds.
pub const MAX_SLOTS: u16 = 16384;

/// An IPv4 address, by octets.
#[derive(Clone, Copy, Debug, PartialEq, Eq, Structural)]
pub struct Ipv4Addr {
    pub a: u8,
    pub b: u8,
    pub c: u8,
    pub d: u8,
}

pub open spec fn dotted(ip: Ipv4Addr) -> Seq<char> {
    decimal(ip.a as nat) + "."@ + decimal(ip.b as nat) + "."@ + decimal(ip.c as nat) + "."@
        + decimal(ip.d as nat)
}

impl Ipv4Addr {
    /// The address in dotted-decimal notation.
    pub fn to_dotted(&self) -> (r: String)
        ensures
            r@ == dotted(*self),
    {
        let mut s = decimal_string(self.a as u32);
        s.append(".");
        let t = decimal_string(self.b as u32);
        s.append(t.as_str());
        s.append(".");
        let t = decimal_string(self.c as u32);
        s.append(t.as_str());
        s.append(".");
        let t = decimal_string(self.d as u32);
        s.append(t.as_str());
        s
    }
}

/// Gateway of slot `i`: 172.16.(i >> 6).((i << 2) & 0xFF | 1).
pub open spec fn slot_gateway(i: nat) -> Ipv4Addr {
    Ipv4Addr { a: 172, b: 16, c: (i / 64) as u8, d: ((i % 64) * 4 + 1) as u8 }
}

/// Guest address of slot `i`: one above its gateway.
pub open spec fn slot_guest(i: nat) -> Ipv4Addr {
    Ipv4Addr { a: 172, b: 16, c: (i / 64) as u8, d: ((i % 64) * 4 + 2) as u8 }
}

/// Host-side TAP device of slot `i`.
pub open spec fn slot_tap_name(i: nat) -> Seq<char> {
    "tap"@ + decimal(i)
}

/// Distinct slots have distinct guest addresses, gateways and TAP names.
pub proof fn lemma_slots_disjoint(i: nat, j: nat)
    requires
        i < MAX_SLOTS,
        j < MAX_SLOTS,
        i != j,
    ensures
        slot_guest(i) != slot_guest(j),
        slot_gateway(i) != slot_gateway(j),
        slot_tap_name(i) != slot_tap_name(j),
        slot_guest(i) != slot_gateway(j),
{
    assert(i == 64 * (i / 64) + i % 64);
    assert(j == 64 * (j / 64) + j % 64);
    if slot_tap_name(i) == slot_tap_name(j) {
        reveal_strlit("tap");
        assert(decimal(i) =~= slot_tap_name(i).subrange(3, slot_tap_name(i).len() as int));
        assert(decimal(j) =~= slot_tap_name(j).subrange(3, slot_tap_name(j).len() as int));
        lemma_decimal_injective(i, j);
    }
}

/// A slot: its index and the addresses and device name that it determines.
#[derive(Debug)]
pub struct NetworkStackSlot {
    pub index: u16,
    pub ipv4_addr: Ipv4Addr,
    pub gateway: Ipv4Addr,
    pub tap_dev_name: String,
}

impl NetworkStackSlot {
    pub open spec fn wf(&self) -> bool {
        &&& self.index < MAX_SLOTS
        &&& self.ipv4_addr == slot_guest(self.index as nat)
        &&& self.gateway == slot_gateway(self.index as nat)
        &&& self.tap_dev_name@ == slot_tap_name(self.index as nat)
    }

    /// The slot with index `index`.
    pub fn for_index(index: u16) -> (r: NetworkStackSlot)
        requires
            index < MAX_SLOTS,
        ensures
            r.wf(),
            r.index == index,
    {
        let c = (index / 64) as u8;
        let d = ((index % 64) * 4) as u8;
        let mut name = String::from_str("tap");
        let digits = decimal_string(index as u32);
        name.append(digits.as_str());
        NetworkStackSlot {
            index,
            ipv4_addr: Ipv4Addr { a: 172, b: 16, c, d: d + 2 },
            gateway: Ipv4Addr { a: 172, b: 16, c, d: d + 1 },
            tap_dev_name: name,
        }
    }
}

/// Why no slot could be handed out.
#[derive(Clone, Copy, Debug, PartialEq, Eq, Structural)]
pub enum NetworkError {
    /// Every slot of the range is in use.
    ResourceExhausted,
}

/// A host TAP device, by name, and the `ip` arguments that manage it.
#[derive(Debug)]
pub struct TunTap {
    name: String,
}

impl TunTap {
    pub closed spec fn name_view(&self) -> Seq<char> {
        self.name@
    }

    pub fn new(name: &str) -> (r: TunTap)
        ensures
            r.name_view() == name@,
    {
        TunTap { name: name.to_owned() }
    }

    pub fn name(&self) -> (r: &str)
        ensures
            r@ == self.name_view(),
    {
        self.name.as_str()
    }

    /// `ip` arguments that create the device in tap mode.
    pub fn create_args(&self) -> (r: Vec<String>)
        ensures
            r.deep_view() == seq!["tuntap"@, "add"@, self.name_view(), "mode"@, "tap"@],
    {
        let mut v: Vec<String> = Vec::new();
        v.push(String::from_str("tuntap"));
        v.push(String::from_str("add"));
        v.push(self.name.clone());
        v.push(String::from_str("mode"));
        v.push(String::from_str("tap"));
        assert(v.deep_view() =~= seq!["tuntap"@, "add"@, self.name_view(), "mode"@, "tap"@]);
        v
    }

    /// `ip` arguments that assign `cidr_addrs` to the device.
    pub fn add_address(&self, cidr_addrs: &str) -> (r: Vec<String>)
        ensures
            r.deep_view() == seq!["addr"@, "add"@, cidr_addrs@, "dev"@, self.name_view()],
    {
        let mut v: Vec<String> = Vec::new();
        v.push(String::from_str("addr"));
        v.push(String::from_str("add"));
        v.push(cidr_addrs.to_owned());
        v.push(String::from_str("dev"));
        v.push(self.name.clone());
        assert(v.deep_view() =~= seq!["addr"@, "add"@, cidr_addrs@, "dev"@, self.name_view()]);
        v
    }

    /// `ip` arguments that bring the device up.
    pub fn up(&self) -> (r: Vec<String>)
        ensures
            r.deep_view() == seq!["link"@, "set"@, self.name_view(), "up"@],
    {
        let mut v: Vec<String> = Vec::new();
        v.push(String::from_str("link"));
        v.push(String::from_str("set"));
        v.push(self.name.clone());
        v.push(String::from_str("up"));
        assert(v.deep_view() =~= seq!["link"@, "set"@, self.name_view(), "up"@]);
        v
    }

    /// `ip` arguments that destroy the device.
    pub fn delete_args(&self) -> (r: Vec<String>)
        ensures
            r.deep_view() == seq!["link"@, "del"@, self.name_view()],
    {
        let mut v: Vec<String> = Vec::new();
        v.push(String::from_str("link"));
        v.push(String::from_str("del"));
        v.push(self.name.clone());
        assert(v.deep_view() =~= seq!["link"@, "del"@, self.name_view()]);
        v
    }
}

} // verus!

verus! {

/// The argument vector that deletes the rule that `args` appended or
/// inserted: the same arguments with the first one replaced by `-D`.
pub open spec fn delete_twin(args: Seq<Seq<char>>) -> Seq<Seq<char>> {
    seq!["-D"@] + args.drop_first()
}

/// The three rules that let a guest reach the outside through `outbound`.
pub open spec fn public_nat_rules_spec(outbound: Seq<char>, guest: Seq<char>, tap: Seq<char>) -> Seq<
    Seq<Seq<char>>,
> {
    seq![
        seq!["-A"@, "POSTROUTING"@, "-t"@, "nat"@, "-o"@, outbound, "-s"@, guest, "-j"@, "MASQUERADE"@],
        seq!["-A"@, "FORWARD"@, "-m"@, "conntrack"@, "--ctstate"@, "RELATED,ESTABLISHED"@, "-j"@, "ACCEPT"@],
        seq!["-A"@, "FORWARD"@, "-i"@, tap, "-o"@, outbound, "-j"@, "ACCEPT"@],
    ]
}

/// The four rules that forward `host_port` on `inbound` to `guest_port` of the guest.
pub open spec fn forwarding_rules_spec(
    inbound: Seq<char>,
    host_port: u16,
    guest_port: u16,
    guest: Seq<char>,
    tap: Seq<char>,
) -> Seq<Seq<Seq<char>>> {
    let gp = decimal(guest_port as nat);
    seq![
        seq!["-A"@, "PREROUTING"@, "-t"@, "nat"@, "-i"@, inbound, "-p"@, "tcp"@, "--dport"@, decimal(host_port as nat), "-j"@, "DNAT"@, "--to-destination"@, guest + ":"@ + gp],
        seq!["-A"@, "POSTROUTING"@, "-t"@, "nat"@, "-o"@, tap, "-p"@, "tcp"@, "--dport"@, gp, "-j"@, "MASQUERADE"@],
        seq!["-I"@, "FORWARD"@, "-i"@, tap, "-o"@, inbound, "-p"@, "tcp"@, "--sport"@, gp, "-m"@, "state"@, "--state"@, "ESTABLISHED,RELATED"@, "-j"@, "ACCEPT"@],
        seq!["-I"@, "FORWARD"@, "-i"@, inbound, "-o"@, tap, "-p"@, "tcp"@, "--dport"@, gp, "-m"@, "state"@, "--state"@, "NEW,ESTABLISHED,RELATED"@, "-j"@, "ACCEPT"@],
    ]
}

/// The network of one machine: its slot, its TAP device, and the delete
/// twins of the firewall rules installed for it, in installation order.
#[derive(Debug)]
pub struct NetworkStack {
    index: u16,
    ipv4_addr: Ipv4Addr,
    gateway: Ipv4Addr,
    nic: TunTap,
    delete_chain_args: Vec<Vec<String>>,
}

impl NetworkStack {
    pub closed spec fn slot_index(&self) -> nat {
        self.index as nat
    }

    /// Delete twins of the installed rules, oldest first.
    pub closed spec fn undo_list(&self) -> Seq<Seq<Seq<char>>> {
        self.delete_chain_args.deep_view()
    }

    pub closed spec fn wf(&self) -> bool {
        &&& self.index < MAX_SLOTS
        &&& self.ipv4_addr == slot_guest(self.index as nat)
        &&& self.gateway == slot_gateway(self.index as nat)
        &&& self.nic.name_view() == slot_tap_name(self.index as nat)
    }

    /// The stack of a slot, with no rule installed yet.
    pub fn new(slot: NetworkStackSlot) -> (r: NetworkStack)
        requires
            slot.wf(),
        ensures
            r.wf(),
            r.slot_index() == slot.index,
            r.undo_list() == Seq::<Seq<Seq<char>>>::empty(),
    {
        let nic = TunTap::new(slot.tap_dev_name.as_str());
        let r = NetworkStack {
            index: slot.index,
            ipv4_addr: slot.ipv4_addr,
            gateway: slot.gateway,
            nic,
            delete_chain_args: Vec::new(),
        };
        assert(r.delete_chain_args.deep_view() =~= Seq::<Seq<Seq<char>>>::empty());
        r
    }

    pub fn ipv4_addr(&self) -> (r: Ipv4Addr)
        requires
            self.wf(),
        ensures
            r == slot_guest(self.slot_index()),
    {
        self.ipv4_addr
    }

    pub fn gateway(&self) -> (r: Ipv4Addr)
        requires
            self.wf(),
        ensures
            r == slot_gateway(self.slot_index()),
    {
        self.gateway
    }

    pub fn subnet_mask(&self) -> (r: &'static str)
        ensures
            r@ == "255.255.255.252"@,
    {
        "255.255.255.252"
    }

    pub fn nic(&self) -> (r: &TunTap)
        requires
            self.wf(),
        ensures
            r.name_view() == slot_tap_name(self.slot_index()),
    {
        &self.nic
    }

    /// `gateway/30`, the address assigned to the TAP device.
    pub fn gateway_cidr(&self) -> (r: String)
        requires
            self.wf(),
        ensures
            r@ == dotted(slot_gateway(self.slot_index())) + "/30"@,
    {
        let mut s = self.gateway.to_dotted();
        s.append("/30");
        s
    }

    /// The rules of public NAT, in order: masquerade on
    /// `outbound_if_name` for the guest address, accept related and
    /// established traffic, accept forwarding from the TAP device.
    pub fn public_nat_rules(&self, outbound_if_name: &str) -> (r: Vec<Vec<String>>)
        requires
            self.wf(),
        ensures
            r.deep_view() == public_nat_rules_spec(
                outbound_if_name@,
                dotted(slot_guest(self.slot_index())),
                slot_tap_name(self.slot_index()),
            ),
    {
        let addr = self.ipv4_addr.to_dotted();
        let nic = self.nic.name();
        let mut rules: Vec<Vec<String>> = Vec::new();
        rules.push(
            strings(
                &[
                    "-A",
                    "POSTROUTING",
                    "-t",
                    "nat",
                    "-o",
                    outbound_if_name,
                    "-s",
                    addr.as_str(),
                    "-j",
                    "MASQUERADE",
                ],
            ),
        );
        rules.push(
            strings(
                &["-A", "FORWARD", "-m", "conntrack", "--ctstate", "RELATED,ESTABLISHED", "-j", "ACCEPT"],
            ),
        );
        rules.push(strings(&["-A", "FORWARD", "-i", nic, "-o", outbound_if_name, "-j", "ACCEPT"]));
        assert(rules.deep_view() =~~= public_nat_rules_spec(
            outbound_if_name@,
            dotted(slot_guest(self.slot_index())),
            slot_tap_name(self.slot_index()),
        ));
        rules
    }

    /// The rules that publish `inbound_port` of `inbound_if_name` as
    /// `guest_port` of the guest, in order: DNAT on prerouting, masquerade
    /// towards the TAP device, and accepts for both directions.
    pub fn forwarding_rules(&self, inbound_if_name: &str, inbound_port: u16, guest_port: u16) -> (r:
        Vec<Vec<String>>)
        requires
            self.wf(),
        ensures
            r.deep_view() == forwarding_rules_spec(
                inbound_if_name@,
                inbound_port,
                guest_port,
                dotted(slot_guest(self.slot_index())),
                slot_tap_name(self.slot_index()),
            ),
    {
        let nic = self.nic.name();
        let hp = decimal_string(inbound_port as u32);
        let gp = decimal_string(guest_port as u32);
        let mut dest = self.ipv4_addr.to_dotted();
        dest.append(":");
        dest.append(gp.as_str());
        let mut rules: Vec<Vec<String>> = Vec::new();
        rules.push(
            strings(
                &[
                    "-A",
                    "PREROUTING",
                    "-t",
                    "nat",
                    "-i",
                    inbound_if_name,
                    "-p",
                    "tcp",
                    "--dport",
                    hp.as_str(),
                    "-j",
                    "DNAT",
                    "--to-destination",
                    dest.as_str(),
                ],
            ),
        );
        rules.push(
            strings(
                &[
                    "-A",
                    "POSTROUTING",
                    "-t",
                    "nat",
                    "-o",
                    nic,
                    "-p",
                    "tcp",
                    "--dport",
                    gp.as_str(),
                    "-j",
                    "MASQUERADE",
                ],
            ),
        );
        rules.push(
            strings(
                &[
                    "-I",
                    "FORWARD",
                    "-i",
                    nic,
                    "-o",
                    inbound_if_name,
                    "-p",
                    "tcp",
                    "--sport",
                    gp.as_str(),
                    "-m",
                    "state",
                    "--state",
                    "ESTABLISHED,RELATED",
                    "-j",
                    "ACCEPT",
                ],
            ),
        );
        rules.push(
            strings(
                &[
                    "-I",
                    "FORWARD",
                    "-i",
                    inbound_if_name,
                    "-o",
                    nic,
                    "-p",
                    "tcp",
                    "--dport",
                    gp.as_str(),
                    "-m",
                    "state",
                    "--state",
                    "NEW,ESTABLISHED,RELATED",
                    "-j",
                    "ACCEPT",
                ],
            ),
        );
        assert(rules.deep_view() =~~= forwarding_rules_spec(
            inbound_if_name@,
            inbound_port,
            guest_port,
            dotted(slot_guest(self.slot_index())),
            slot_tap_name(self.slot_index()),
        ));
        rules
    }

    /// Records that the rule `args` was installed: its delete twin joins
    /// the undo list. Rules are never merged: installing the same rule twice
    /// records two twins.
    pub fn record_installed_rule(&mut self, args: &Vec<String>)
        requires
            args@.len() >= 1,
        ensures
            final(self).undo_list() == old(self).undo_list().push(delete_twin(args.deep_view())),
            final(self).slot_index() == old(self).slot_index(),
            old(self).wf() ==> final(self).wf(),
    {
        let mut twin: Vec<String> = Vec::new();
        twin.push(String::from_str("-D"));
        let mut i: usize = 1;
        while i < args.len()
            invariant
                1 <= i <= args@.len(),
                twin.deep_view() =~= seq!["-D"@] + args.deep_view().subrange(1, i as int),
            decreases args@.len() - i,
        {
            let ghost prev = twin.deep_view();
            twin.push(args[i].clone());
            assert(twin.deep_view() =~= prev.push(args.deep_view()[i as int]));
            i = i + 1;
            assert(twin.deep_view() =~= seq!["-D"@] + args.deep_view().subrange(1, i as int));
        }
        assert(twin.deep_view() =~= delete_twin(args.deep_view()));
        self.delete_chain_args.push(twin);
        assert(self.delete_chain_args.deep_view() =~= old(self).undo_list().push(
            delete_twin(args.deep_view()),
        ));
    }

    /// The commands that undo every installed rule, newest first.
    pub fn undo_commands(&self) -> (r: Vec<Vec<String>>)
        ensures
            r.deep_view() == self.undo_list().reverse(),
    {
        let mut out: Vec<Vec<String>> = Vec::new();
        let n = self.delete_chain_args.len();
        let mut i: usize = n;
        while i > 0
            invariant
                i <= n,
                n == self.undo_list().len(),
                out.deep_view() =~= self.undo_list().subrange(i as int, n as int).reverse(),
            decreases i,
        {
            i = i - 1;
            let ghost prev = out.deep_view();
            out.push(copy_strings(&self.delete_chain_args[i]));
            assert(out.deep_view() =~= prev.push(self.undo_list()[i as int]));
            assert(out.deep_view() =~= self.undo_list().subrange(i as int, n as int).reverse());
        }
        assert(self.undo_list().subrange(0, n as int) =~= self.undo_list());
        out
    }
}

} // verus!

verus! {

/// Hands out network slots: returned slots first (last returned, first
/// reused), then never-issued ones in index order.
#[derive(Debug)]
pub struct NetworkManager {
    recovered_slots: Vec<NetworkStackSlot>,
    next_id: u16,
}

impl NetworkManager {
    /// Indices of the returned slots, in the order they were returned.
    pub closed spec fn recovered(&self) -> Seq<nat> {
        self.recovered_slots@.map_values(|s: NetworkStackSlot| s.index as nat)
    }

    /// Every index below this one has been issued at least once.
    pub closed spec fn next_fresh(&self) -> nat {
        self.next_id as nat
    }

    /// Indices issued and not returned.
    pub open spec fn outstanding(&self) -> Set<nat> {
        Set::new(|i: nat| i < self.next_fresh() && !self.recovered().contains(i))
    }

    pub closed spec fn wf(&self) -> bool {
        &&& self.next_id <= MAX_SLOTS
        &&& forall|k: int| 0 <= k < self.recovered_slots@.len() ==> (#[trigger] self.recovered_slots@[k]).wf()
            && self.recovered_slots@[k].index < self.next_id
        &&& self.recovered().no_duplicates()
    }

    pub fn new() -> (r: NetworkManager)
        ensures
            r.wf(),
            r.next_fresh() == 0,
            r.recovered() == Seq::<nat>::empty(),
            r.outstanding() == Set::<nat>::empty(),
    {
        let r = NetworkManager { recovered_slots: Vec::new(), next_id: 0 };
        assert(r.recovered() =~= Seq::<nat>::empty());
        assert(r.outstanding() =~= Set::<nat>::empty());
        r
    }

    /// The next slot: the last returned one if any, else the next fresh
    /// index; `ResourceExhausted` exactly when every slot is outstanding.
    pub fn next_slot(&mut self) -> (r: Result<NetworkStackSlot, NetworkError>)
        requires
            old(self).wf(),
        ensures
            final(self).wf(),
            r is Err <==> (forall|i: nat| i < MAX_SLOTS ==> old(self).outstanding().contains(i)),
            r is Err ==> final(self).recovered() == old(self).recovered() && final(self).next_fresh()
                == old(self).next_fresh(),
            r matches Ok(s) ==> {
                &&& s.wf()
                &&& !old(self).outstanding().contains(s.index as nat)
                &&& final(self).outstanding() == old(self).outstanding().insert(s.index as nat)
                &&& old(self).recovered().len() > 0 ==> {
                    &&& s.index == old(self).recovered().last()
                    &&& final(self).recovered() == old(self).recovered().drop_last()
                    &&& final(self).next_fresh() == old(self).next_fresh()
                }
                &&& old(self).recovered().len() == 0 ==> {
                    &&& s.index == old(self).next_fresh()
                    &&& final(self).recovered() == old(self).recovered()
                    &&& final(self).next_fresh() == old(self).next_fresh() + 1
                }
            },
    {
        let ghost old_rec = self.recovered();
        if let Some(slot) = self.recovered_slots.pop() {
            proof {
                assert(self.recovered() =~= old_rec.drop_last());
                assert(old_rec.last() == slot.index as nat);
                assert forall|i: nat| #![auto] self.recovered().contains(i) implies old_rec.contains(i) by {
                    let k = choose|k: int| 0 <= k < self.recovered().len() && self.recovered()[k] == i;
                    assert(old_rec[k] == i);
                }
                assert forall|i: nat| #![auto] old_rec.contains(i) && i != slot.index implies self.recovered().contains(i) by {
                    let k = choose|k: int| 0 <= k < old_rec.len() && old_rec[k] == i;
                    assert(k != old_rec.len() - 1);
                    assert(self.recovered()[k] == i);
                }
                assert(!self.recovered().contains(slot.index as nat)) by {
                    if self.recovered().contains(slot.index as nat) {
                        let k = choose|k: int| 0 <= k < self.recovered().len() && self.recovered()[k] == slot.index as nat;
                        assert(old_rec[k] == old_rec[old_rec.len() - 1]);
                    }
                }
                assert(self.outstanding() =~= old(self).outstanding().insert(slot.index as nat));
                assert(old_rec[old_rec.len() - 1] == slot.index as nat);
                assert(old_rec.contains(slot.index as nat));
                assert(old(self).recovered_slots@[old_rec.len() - 1].wf());
                assert(!old(self).outstanding().contains(slot.index as nat));
            }
            return Ok(slot);
        }
        assert(old_rec.len() == 0);
        if self.next_id >= MAX_SLOTS {
            proof {
                assert forall|i: nat| i < MAX_SLOTS implies old(self).outstanding().contains(i) by {
                    assert(!old_rec.contains(i));
                }
            }
            assert(self.recovered() =~= old_rec);
            return Err(NetworkError::ResourceExhausted);
        }
        let id = self.next_id;
        self.next_id = id + 1;
        let slot = NetworkStackSlot::for_index(id);
        proof {
            assert(self.recovered() =~= old_rec);
            assert(self.outstanding() =~= old(self).outstanding().insert(id as nat));
            assert(!old(self).outstanding().contains(id as nat));
            assert(!old(self).outstanding().contains(id as nat) && (id as nat) < MAX_SLOTS);
        }
        Ok(slot)
    }

    /// Allocates a slot and wraps it in a stack with no rule installed.
    pub fn provision_stack(&mut self) -> (r: Result<NetworkStack, NetworkError>)
        requires
            old(self).wf(),
        ensures
            final(self).wf(),
            r is Err <==> (forall|i: nat| i < MAX_SLOTS ==> old(self).outstanding().contains(i)),
            r is Err ==> final(self).outstanding() == old(self).outstanding(),
            r matches Ok(s) ==> {
                &&& s.wf()
                &&& s.undo_list() == Seq::<Seq<Seq<char>>>::empty()
                &&& !old(self).outstanding().contains(s.slot_index())
                &&& final(self).outstanding() == old(self).outstanding().insert(s.slot_index())
            },
    {
        match self.next_slot() {
            Ok(slot) => Ok(NetworkStack::new(slot)),
            Err(e) => Err(e),
        }
    }

    /// Takes back the slot of a stack that this manager handed out; the
    /// next allocation reuses it.
    pub fn reclaim(&mut self, stack: NetworkStack)
        requires
            old(self).wf(),
            stack.wf(),
            old(self).outstanding().contains(stack.slot_index()),
        ensures
            final(self).wf(),
            final(self).recovered() == old(self).recovered().push(stack.slot_index()),
            final(self).next_fresh() == old(self).next_fresh(),
            final(self).outstanding() == old(self).outstanding().remove(stack.slot_index()),
    {
        let slot = NetworkStackSlot::for_index(stack.index);
        let ghost old_rec = self.recovered();
        self.recovered_slots.push(slot);
        proof {
            assert(self.recovered() =~= old_rec.push(stack.slot_index()));
            assert forall|a: int, b: int| 0 <= a < b < self.recovered().len() implies self.recovered()[a] != self.recovered()[b] by {
                if b == self.recovered().len() - 1 {
                    assert(old_rec.contains(self.recovered()[a]));
                }
            }
            assert forall|k: int| 0 <= k < self.recovered_slots@.len() implies (#[trigger] self.recovered_slots@[k]).wf()
                && self.recovered_slots@[k].index < self.next_id by {
                if k < old_rec.len() {
                    assert(self.recovered_slots@[k] == old(self).recovered_slots@[k]);
                }
            }
            assert forall|i: nat| #![auto] self.recovered().contains(i) == (old_rec.contains(i) || i
                == stack.slot_index()) by {
                if old_rec.contains(i) {
                    let k = choose|k: int| 0 <= k < old_rec.len() && old_rec[k] == i;
                    assert(self.recovered()[k] == i);
                }
                if i == stack.slot_index() {
                    assert(self.recovered()[old_rec.len() as int] == i);
                }
                if self.recovered().contains(i) {
                    let k = choose|k: int| 0 <= k < self.recovered().len() && self.recovered()[k] == i;
                    if k < old_rec.len() {
                        assert(old_rec[k] == i);
                    }
                }
            }
            assert(self.outstanding() =~= old(self).outstanding().remove(stack.slot_index()));
        }
    }
}

} // verus!

verus! {

/// Slots that are issued and not reclaimed never share a guest address, a
/// gateway or a TAP device name.
pub proof fn lemma_outstanding_slots_disjoint(m: NetworkManager, i: nat, j: nat)
    requires
        m.wf(),
        m.outstanding().contains(i),
        m.outstanding().contains(j),
        i != j,
    ensures
        slot_guest(i) != slot_guest(j),
        slot_tap_name(i) != slot_tap_name(j),
        slot_gateway(i) != slot_gateway(j),
{
    lemma_slots_disjoint(i, j);
}

/// Delete twins of a batch of rules, in the batch's order.
pub open spec fn twins(rules: Seq<Seq<Seq<char>>>) -> Seq<Seq<Seq<char>>> {
    rules.map_values(|r: Seq<Seq<char>>| delete_twin(r))
}

/// Installing the same rules twice is not deduplicated: the undo list
/// holds the twins of both installations, so both are removed when the
/// stack is torn down.
pub proof fn lemma_install_twice_recorded_twice(undo: Seq<Seq<Seq<char>>>, rules: Seq<Seq<Seq<char>>>)
    ensures
        (undo + twins(rules) + twins(rules)).len() == undo.len() + 2 * rules.len(),
        forall|k: int|
            0 <= k < rules.len() ==> (undo + twins(rules) + twins(rules))[undo.len() + k]
                == delete_twin(rules[k]) && (undo + twins(rules) + twins(rules))[undo.len()
                + rules.len() + k] == delete_twin(rules[k]),
{
}

} // verus!

verus! {

proof fn lemma_outstanding_below_cap(m: NetworkManager, i: nat)
    requires
        m.wf(),
        m.outstanding().contains(i),
    ensures
        i < MAX_SLOTS,
{
}

/// Slots handed out by consecutive allocations, with no reclaim between
/// them, have pairwise distinct guest addresses, gateways and TAP names.
/// `states[k]` is the allocator before the `k`-th allocation and `issued[k]`
/// the slot index it returned; the premises are what `next_slot` and
/// `provision_stack` promise of each successful call.
pub proof fn lemma_consecutive_allocations_disjoint(states: Seq<NetworkManager>, issued: Seq<nat>)
    requires
        states.len() == issued.len() + 1,
        forall|k: int| 0 <= k < states.len() ==> (#[trigger] states[k]).wf(),
        forall|k: int|
            0 <= k < issued.len() ==> !states[k].outstanding().contains(#[trigger] issued[k])
                && states[k + 1].outstanding() == states[k].outstanding().insert(issued[k]),
    ensures
        forall|a: int, b: int|
            0 <= a < b < issued.len() ==> {
                &&& issued[a] != issued[b]
                &&& slot_guest(issued[a]) != slot_guest(issued[b])
                &&& slot_gateway(issued[a]) != slot_gateway(issued[b])
                &&& slot_tap_name(issued[a]) != slot_tap_name(issued[b])
            },
{
    assert forall|a: int, b: int| 0 <= a < b < issued.len() implies {
        &&& issued[a] != issued[b]
        &&& slot_guest(issued[a]) != slot_guest(issued[b])
        &&& slot_gateway(issued[a]) != slot_gateway(issued[b])
        &&& slot_tap_name(issued[a]) != slot_tap_name(issued[b])
    } by {
        lemma_issued_stays_outstanding(states, issued, a, b);
        assert(states[a + 1].outstanding().contains(issued[a]));
        lemma_outstanding_below_cap(states[b], issued[a]);
        assert(states[b + 1].outstanding().contains(issued[b]));
        lemma_outstanding_below_cap(states[b + 1], issued[b]);
        lemma_slots_disjoint(issued[a], issued[b]);
    }
}

proof fn lemma_issued_stays_outstanding(states: Seq<NetworkManager>, issued: Seq<nat>, a: int, b: int)
    requires
        states.len() == issued.len() + 1,
        forall|k: int|
            0 <= k < issued.len() ==> !states[k].outstanding().contains(#[trigger] issued[k])
                && states[k + 1].outstanding() == states[k].outstanding().insert(issued[k]),
        0 <= a < b <= issued.len(),
    ensures
        states[b].outstanding().contains(issued[a]),
    decreases b - a,
{
    assert(states[a + 1].outstanding() == states[a].outstanding().insert(issued[a]));
    if b > a + 1 {
        lemma_issued_stays_outstanding(states, issued, a, b - 1);
        assert(states[b].outstanding() == states[b - 1].outstanding().insert(issued[b - 1]));
    }
}

} // verus!
