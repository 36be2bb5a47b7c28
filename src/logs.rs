//! The host-side record of one machine's guest channel: a bounded ring of
//! log and state records, the last state seen, and the subscribers that
//! receive records as they arrive.
use vstd::prelude::*;
use circular_buffer::FixedCircularBuffer;
use crate::guest::{GuestExitCode, GuestPacket, InitVmState, LogMessage, vm_state_name, log_type_name};

verus! {

/// Number of records a machine's ring keeps.
pub const MAX_LINES_IN_BUFFER: usize = 256;

/// How a machine's guest channel ended.
#[derive(Clone, Copy, Debug, PartialEq, Eq, Structural)]
pub enum MachineExit {
    /// The channel closed without an exit packet.
    Unknown,
    ContainerExited(i32),
    GracefulShutdown,
    FailedToPullContainerImage,
}

pub open spec fn exit_of(code: GuestExitCode) -> MachineExit {
    match code {
        GuestExitCode::GracefulShutdown => MachineExit::GracefulShutdown,
        GuestExitCode::FailedToPullContainerImage => MachineExit::FailedToPullContainerImage,
        GuestExitCode::ContainerExited(c) => MachineExit::ContainerExited(c),
    }
}

impl From<GuestExitCode> for MachineExit {
    fn from(code: GuestExitCode) -> (r: MachineExit) {
        match code {
            GuestExitCode::GracefulShutdown => MachineExit::GracefulShutdown,
            GuestExitCode::FailedToPullContainerImage => MachineExit::FailedToPullContainerImage,
            GuestExitCode::ContainerExited(c) => MachineExit::ContainerExited(c),
        }
    }
}

impl vstd::std_specs::convert::FromSpecImpl<GuestExitCode> for MachineExit {
    open spec fn obeys_from_spec() -> bool {
        true
    }

    open spec fn from_spec(code: GuestExitCode) -> MachineExit {
        exit_of(code)
    }
}

/// One record of a machine's log: a line of output, or a state change
/// with its time in milliseconds.
#[derive(Clone, Debug)]
pub enum MachineLog {
    VmLog(LogMessage),
    State(InitVmState, u64),
}

/// A log record as the RPC surface carries it: exactly one of `message`
/// and `state` is set, and `log_type` is `state` for state records.
#[derive(Debug)]
pub struct ProtoLogMessage {
    pub message: Option<String>,
    pub timestamp_ms: i64,
    pub log_type: String,
    pub state: Option<String>,
}

impl MachineLog {
    /// A copy of the record.
    pub fn duplicate(&self) -> (r: MachineLog)
        ensures
            r == *self,
    {
        match self {
            MachineLog::VmLog(m) => MachineLog::VmLog(
                LogMessage {
                    text: m.text.clone(),
                    timestamp_ms: m.timestamp_ms,
                    message_type: m.message_type,
                },
            ),
            MachineLog::State(s, t) => MachineLog::State(*s, *t),
        }
    }

    pub fn as_proto_log_message(&self) -> (r: ProtoLogMessage)
        ensures
            match self {
                MachineLog::VmLog(m) => {
                    &&& r.message matches Some(t) && t@ == m.text@
                    &&& r.timestamp_ms == m.timestamp_ms as i64
                    &&& r.log_type@ == log_type_name(m.message_type)
                    &&& r.state is None
                },
                MachineLog::State(s, t) => {
                    &&& r.message is None
                    &&& r.timestamp_ms == *t as i64
                    &&& r.log_type@ == "state"@
                    &&& r.state matches Some(n) && n@ == vm_state_name(*s)
                },
            },
    {
        match self {
            MachineLog::VmLog(m) => ProtoLogMessage {
                message: Some(m.text.clone()),
                timestamp_ms: m.timestamp_ms as i64,
                log_type: String::from_str(m.message_type.as_str()),
                state: None,
            },
            MachineLog::State(s, t) => ProtoLogMessage {
                message: None,
                timestamp_ms: *t as i64,
                log_type: String::from_str("state"),
                state: Some(String::from_str(s.as_str())),
            },
        }
    }
}

#[verifier::external_type_specification]
#[verifier::external_body]
#[verifier::reject_recursive_types(T)]
pub struct ExFixedCircularBuffer<T, const N: usize>(FixedCircularBuffer<T, N>);

/// What a machine's ring holds, front (newest) first.
pub uninterp spec fn ring_items(b: FixedCircularBuffer<MachineLog, 256>) -> Seq<MachineLog>;

/// The ring after `item` is pushed at its front: when it is full, the
/// record at the back (the oldest) leaves.
pub open spec fn ring_push(items: Seq<MachineLog>, item: MachineLog) -> Seq<MachineLog> {
    if items.len() < MAX_LINES_IN_BUFFER {
        seq![item] + items
    } else {
        seq![item] + items.drop_last()
    }
}

/// Relies on circular_buffer::FixedCircularBuffer::new: an empty buffer.
#[verifier::external_body]
fn ring_new() -> (r: FixedCircularBuffer<MachineLog, 256>)
    ensures
        ring_items(r) == Seq::<MachineLog>::empty(),
{
    FixedCircularBuffer::new()
}

/// Relies on circular_buffer's push_front: the item becomes the front, and
/// a buffer at capacity gives up its back item.
#[verifier::external_body]
fn ring_push_front(b: &mut FixedCircularBuffer<MachineLog, 256>, item: MachineLog)
    ensures
        ring_items(*final(b)) == ring_push(ring_items(*old(b)), item),
{
    b.push_front(item);
}

/// Relies on circular_buffer's to_vec: the items, front to back.
#[verifier::external_body]
fn ring_to_vec(b: &FixedCircularBuffer<MachineLog, 256>) -> (r: Vec<MachineLog>)
    ensures
        r@ == ring_items(*b),
{
    b.to_vec()
}

/// The records of a snapshot: the ring oldest first, then the last state
/// if the ring no longer holds that state record.
pub open spec fn snapshot_of(items: Seq<MachineLog>, state: Option<(InitVmState, u64)>) -> Seq<
    MachineLog,
> {
    match state {
        Some((s, t)) => if items.contains(MachineLog::State(s, t)) {
            items.reverse()
        } else {
            items.reverse().push(MachineLog::State(s, t))
        },
        None => items.reverse(),
    }
}

/// The subscribers kept after a delivery round: those whose send succeeded.
pub open spec fn kept_subscribers<S>(subs: Seq<S>, delivered: Seq<bool>) -> Seq<S>
    decreases subs.len(),
{
    if subs.len() == 0 || delivered.len() == 0 {
        Seq::empty()
    } else {
        let rest = kept_subscribers(subs.drop_last(), delivered.drop_last());
        if delivered.last() {
            rest.push(subs.last())
        } else {
            rest
        }
    }
}

/// The record state of one machine's guest channel. `S` is the sending
/// end of a subscriber's channel.
pub struct MachineCommunicator<S> {
    log_subscribers: Vec<S>,
    log_buffer: FixedCircularBuffer<MachineLog, 256>,
    state: Option<(InitVmState, u64)>,
}

impl<S> MachineCommunicator<S> {
    /// The ring's records, newest first.
    pub closed spec fn items(&self) -> Seq<MachineLog> {
        ring_items(self.log_buffer)
    }

    pub closed spec fn last_state(&self) -> Option<(InitVmState, u64)> {
        self.state
    }

    pub closed spec fn subscribers(&self) -> Seq<S> {
        self.log_subscribers@
    }

    pub open spec fn wf(&self) -> bool {
        self.items().len() <= MAX_LINES_IN_BUFFER
    }

    pub fn new() -> (r: MachineCommunicator<S>)
        ensures
            r.wf(),
            r.items() == Seq::<MachineLog>::empty(),
            r.last_state() is None,
            r.subscribers() == Seq::<S>::empty(),
    {
        MachineCommunicator { log_subscribers: Vec::new(), log_buffer: ring_new(), state: None }
    }

    /// Puts a record at the front of the ring, evicting the oldest when full.
    pub fn push_log(&mut self, data: MachineLog)
        requires
            old(self).wf(),
        ensures
            final(self).wf(),
            final(self).items() == ring_push(old(self).items(), data),
            final(self).last_state() == old(self).last_state(),
            final(self).subscribers() == old(self).subscribers(),
    {
        ring_push_front(&mut self.log_buffer, data);
    }

    /// Drops the subscribers whose send failed; `delivered[i]` tells
    /// whether subscriber `i` took the last record.
    pub fn retain_delivered(&mut self, delivered: &Vec<bool>)
        requires
            delivered@.len() == old(self).subscribers().len(),
        ensures
            final(self).subscribers() == kept_subscribers(old(self).subscribers(), delivered@),
            final(self).items() == old(self).items(),
            final(self).last_state() == old(self).last_state(),
    {
        let mut subs = Vec::new();
        std::mem::swap(&mut subs, &mut self.log_subscribers);
        let ghost all = subs@;
        let mut kept: Vec<S> = Vec::new();
        let mut i: usize = 0;
        while i < delivered.len()
            invariant
                i <= delivered@.len(),
                delivered@.len() == all.len(),
                subs@ == all.subrange(i as int, all.len() as int),
                kept@ == kept_subscribers(all.subrange(0, i as int), delivered@.subrange(0, i as int)),
            decreases delivered@.len() - i,
        {
            let s = subs.remove(0);
            assert(subs@ =~= all.subrange(i + 1, all.len() as int));
            i = i + 1;
            proof {
                let a = all.subrange(0, i as int);
                let d = delivered@.subrange(0, i as int);
                assert(a.drop_last() =~= all.subrange(0, i - 1));
                assert(d.drop_last() =~= delivered@.subrange(0, i - 1));
            }
            if delivered[i - 1] {
                kept.push(s);
            }
        }
        proof {
            assert(all.subrange(0, i as int) =~= all);
            assert(delivered@.subrange(0, i as int) =~= delivered@);
        }
        self.log_subscribers = kept;
    }

    /// Registers a subscriber; it receives the records pushed from now on.
    pub fn subscribe_log(&mut self, tx: S)
        ensures
            final(self).subscribers() == old(self).subscribers().push(tx),
            final(self).items() == old(self).items(),
            final(self).last_state() == old(self).last_state(),
    {
        self.log_subscribers.push(tx);
    }

    pub fn subscriber_count(&self) -> (r: usize)
        ensures
            r == self.subscribers().len(),
    {
        self.log_subscribers.len()
    }

    /// The `i`-th subscriber, in the order they subscribed.
    pub fn subscriber(&self, i: usize) -> (r: &S)
        requires
            i < self.subscribers().len(),
        ensures
            *r == self.subscribers()[i as int],
    {
        &self.log_subscribers[i]
    }

    /// Forgets every subscriber, closing their streams.
    pub fn drop_subscribers(&mut self)
        ensures
            final(self).subscribers() == Seq::<S>::empty(),
            final(self).items() == old(self).items(),
            final(self).last_state() == old(self).last_state(),
    {
        self.log_subscribers = Vec::new();
    }

    /// The ring oldest first, followed by the last state when the ring no
    /// longer holds it.
    pub fn clone_buffer_with_state(&self) -> (r: Vec<MachineLog>)
        ensures
            r@ == snapshot_of(self.items(), self.last_state()),
    {
        let mut newest_first = ring_to_vec(&self.log_buffer);
        let ghost items = newest_first@;
        let n = newest_first.len();
        let mut holds_state = false;
        let mut out: Vec<MachineLog> = Vec::new();
        let mut k: usize = 0;
        while k < n
            invariant
                k <= n,
                n == items.len(),
                newest_first@ == items.subrange(0, n - k),
                out@ =~= items.subrange(n - k, n as int).reverse(),
                holds_state == (self.state matches Some((s, t)) && items.subrange(n - k, n as int).contains(
                    MachineLog::State(s, t),
                )),
            decreases n - k,
        {
            let rec = newest_first.pop().unwrap();
            proof {
                assert(items.subrange(n - k - 1, n as int) =~= seq![rec] + items.subrange(n - k, n as int));
            }
            if let Some((s, t)) = self.state {
                if let MachineLog::State(rs, rt) = &rec {
                    if *rs == s && *rt == t {
                        holds_state = true;
                    }
                }
                proof {
                    let tail = items.subrange(n - k - 1, n as int);
                    let target = MachineLog::State(s, t);
                    if tail.contains(target) && !holds_state {
                        let j = choose|j: int| 0 <= j < tail.len() && tail[j] == target;
                        if j > 0 {
                            assert(items.subrange(n - k, n as int)[j - 1] == target);
                        }
                    }
                    if holds_state && rec != target {
                        let prev_tail = items.subrange(n - k, n as int);
                        assert(prev_tail.contains(target));
                        let j = choose|j: int| 0 <= j < prev_tail.len() && prev_tail[j] == target;
                        assert(tail[j + 1] == target);
                    }
                    if rec == target {
                        assert(tail[0] == target);
                    }
                }
            }
            out.push(rec);
            k = k + 1;
        }
        proof {
            assert(items.subrange(0, n as int) =~= items);
        }
        if let Some((s, t)) = self.state {
            if !holds_state {
                out.push(MachineLog::State(s, t));
            }
        }
        out
    }

    /// Applies one packet from the guest. A log line is recorded; a state
    /// change becomes the last state and is recorded; an exit clears the
    /// last state, leaves the ring as it is, and is returned: the channel
    /// is finished.
    pub fn handle_packet(&mut self, packet: GuestPacket) -> (r: Option<MachineExit>)
        requires
            old(self).wf(),
        ensures
            final(self).wf(),
            final(self).subscribers() == old(self).subscribers(),
            final(self).items() == ring_after(old(self).items(), seq![packet]),
            match packet {
                GuestPacket::Log(m) => {
                    &&& r is None
                    &&& final(self).items() == ring_push(old(self).items(), MachineLog::VmLog(m))
                    &&& final(self).last_state() == old(self).last_state()
                },
                GuestPacket::VmState(s, t) => {
                    &&& r is None
                    &&& final(self).items() == ring_push(old(self).items(), MachineLog::State(s, t))
                    &&& final(self).last_state() == Some((s, t))
                },
                GuestPacket::Exited(code) => {
                    &&& r == Some(exit_of(code))
                    &&& final(self).items() == old(self).items()
                    &&& final(self).last_state() is None
                },
            },
    {
        proof {
            assert(seq![packet].drop_last() =~= Seq::<GuestPacket>::empty());
            assert(seq![packet].last() == packet);
            assert(ring_after(self.items(), Seq::<GuestPacket>::empty()) == self.items());
        }
        match packet {
            GuestPacket::Log(m) => {
                self.push_log(MachineLog::VmLog(m));
                None
            },
            GuestPacket::VmState(s, t) => {
                self.state = Some((s, t));
                self.push_log(MachineLog::State(s, t));
                None
            },
            GuestPacket::Exited(code) => {
                self.state = None;
                Some(MachineExit::from(code))
            },
        }
    }
}

} // verus!

verus! {

/// Pushing onto a full ring evicts exactly its oldest record: the ring
/// keeps its size, the new record is the newest, the rest shift by one.
pub proof fn lemma_full_ring_evicts_oldest(items: Seq<MachineLog>, item: MachineLog)
    requires
        items.len() == MAX_LINES_IN_BUFFER,
    ensures
        ring_push(items, item).len() == MAX_LINES_IN_BUFFER,
        ring_push(items, item)[0] == item,
        forall|k: int| 1 <= k < MAX_LINES_IN_BUFFER ==> ring_push(items, item)[k] == items[k - 1],
        ring_push(items, item).reverse() == items.reverse().drop_first().push(item),
{
    assert(ring_push(items, item).reverse() =~= items.reverse().drop_first().push(item));
}

/// A delivery round in which every subscriber had room drops none of them.
pub proof fn lemma_full_delivery_keeps_subscribers<S>(subs: Seq<S>, delivered: Seq<bool>)
    requires
        delivered.len() == subs.len(),
        forall|k: int| 0 <= k < delivered.len() ==> delivered[k],
    ensures
        kept_subscribers(subs, delivered) == subs,
    decreases subs.len(),
{
    if subs.len() > 0 {
        lemma_full_delivery_keeps_subscribers(subs.drop_last(), delivered.drop_last());
        assert(subs.drop_last().push(subs.last()) =~= subs);
    }
}

impl<S> MachineCommunicator<S> {
    /// Takes a snapshot and registers a subscriber in one step, so that a
    /// record pushed afterwards is offered to the subscriber and a record
    /// pushed before is in the snapshot.
    pub fn get_and_subscribe_to_logs(&mut self, tx: S) -> (r: Vec<MachineLog>)
        ensures
            r@ == snapshot_of(old(self).items(), old(self).last_state()),
            final(self).subscribers() == old(self).subscribers().push(tx),
            final(self).items() == old(self).items(),
            final(self).last_state() == old(self).last_state(),
    {
        let snapshot = self.clone_buffer_with_state();
        self.subscribe_log(tx);
        snapshot
    }
}

} // verus!

verus! {

/// The record a guest packet adds to the ring, if any.
pub open spec fn record_of(p: GuestPacket) -> Option<MachineLog> {
    match p {
        GuestPacket::Log(m) => Some(MachineLog::VmLog(m)),
        GuestPacket::VmState(s, t) => Some(MachineLog::State(s, t)),
        GuestPacket::Exited(_) => None,
    }
}

/// The records of a packet sequence, in arrival order: what a subscriber
/// present from the start is offered.
pub open spec fn records_of(ps: Seq<GuestPacket>) -> Seq<MachineLog>
    decreases ps.len(),
{
    if ps.len() == 0 {
        Seq::empty()
    } else {
        records_of(ps.drop_last()) + match record_of(ps.last()) {
            Some(r) => seq![r],
            None => Seq::empty(),
        }
    }
}

/// The ring after the packets `ps` were handled, starting from `items`.
pub open spec fn ring_after(items: Seq<MachineLog>, ps: Seq<GuestPacket>) -> Seq<MachineLog>
    decreases ps.len(),
{
    if ps.len() == 0 {
        items
    } else {
        match record_of(ps.last()) {
            Some(r) => ring_push(ring_after(items, ps.drop_last()), r),
            None => ring_after(items, ps.drop_last()),
        }
    }
}

proof fn lemma_ring_after_lists_records(ps: Seq<GuestPacket>)
    requires
        records_of(ps).len() <= MAX_LINES_IN_BUFFER,
    ensures
        ring_after(Seq::empty(), ps).reverse() == records_of(ps),
    decreases ps.len(),
{
    if ps.len() > 0 {
        let prev = ps.drop_last();
        assert(records_of(prev).len() <= records_of(ps).len());
        lemma_ring_after_lists_records(prev);
        let ring = ring_after(Seq::empty(), prev);
        assert(ring.len() == ring.reverse().len());
        match record_of(ps.last()) {
            Some(r) => {
                assert(ring.len() < MAX_LINES_IN_BUFFER);
                assert((seq![r] + ring).reverse() =~= ring.reverse().push(r));
                assert(records_of(ps) =~= records_of(prev).push(r));
            },
            None => {
                assert(records_of(ps) =~= records_of(prev));
            },
        }
    }
}

/// Once the channel has ended with an exit packet (the last state is then
/// cleared), a machine's snapshot lists exactly the records that its
/// packets carried, in arrival order, as long as the ring never had to
/// evict one.
pub proof fn lemma_snapshot_after_exit(ps: Seq<GuestPacket>)
    requires
        records_of(ps).len() <= MAX_LINES_IN_BUFFER,
    ensures
        snapshot_of(ring_after(Seq::empty(), ps), None) == records_of(ps),
{
    lemma_ring_after_lists_records(ps);
}

} // verus!

verus! {

/// A subscriber that took the record is kept, whatever happened to the
/// others: a subscriber is only lost when it had no room.
pub proof fn lemma_delivered_subscriber_kept<S>(subs: Seq<S>, delivered: Seq<bool>, k: int)
    requires
        delivered.len() == subs.len(),
        0 <= k < subs.len(),
        delivered[k],
    ensures
        kept_subscribers(subs, delivered).contains(subs[k]),
    decreases subs.len(),
{
    let rest = kept_subscribers(subs.drop_last(), delivered.drop_last());
    if k == subs.len() - 1 {
        assert(kept_subscribers(subs, delivered) == rest.push(subs.last()));
        assert(rest.push(subs.last())[rest.len() as int] == subs[k]);
    } else {
        lemma_delivered_subscriber_kept(subs.drop_last(), delivered.drop_last(), k);
        assert(subs.drop_last()[k] == subs[k]);
        let j = choose|j: int| 0 <= j < rest.len() && rest[j] == subs[k];
        if delivered.last() {
            assert(rest.push(subs.last())[j] == subs[k]);
        }
    }
}

} // verus!
