//! The single-client slot shared by both transports, and the broker that
//! turns a transport's need for an interactive decision into an ordered,
//! bounded queue drained by one consumer.

use vstd::prelude::*;

verus! {

/// A remote peer's address (IP and port as plain integers), so that two
/// peers compare equal exactly when their addresses do.
#[derive(Clone, Copy, PartialEq, Eq, Structural, Debug)]
pub struct PeerId {
    pub ip: u128,
    pub port: u16,
}

/// Process-wide guard of the transports: at most one session is active at a time,
/// across the WebSocket and UDP listeners combined.
pub struct ConnectionSlot {
    pub occupant: Option<PeerId>,
}

/// A claim succeeds exactly when the slot is empty.
pub open spec fn claim_ok(s: ConnectionSlot, peer: PeerId) -> bool {
    s.occupant is None
}

/// The slot after a claim attempt by `peer`: occupied by `peer` if the
/// attempt succeeds, unchanged otherwise.
pub open spec fn after_claim(s: ConnectionSlot, peer: PeerId) -> ConnectionSlot {
    if claim_ok(s, peer) {
        ConnectionSlot { occupant: Some(peer) }
    } else {
        s
    }
}

/// The slot after a release: always empty.
pub open spec fn after_release(s: ConnectionSlot) -> ConnectionSlot {
    ConnectionSlot { occupant: None }
}

impl ConnectionSlot {
    /// An empty slot, as at process startup.
    pub fn new() -> (s: Self)
        ensures
            s.occupant is None,
    {
        ConnectionSlot { occupant: None }
    }

    /// Test-and-set occupancy: returns `true` and records `peer` iff the
    /// slot was empty, else returns `false` without side effect.
    pub fn try_claim(&mut self, peer: PeerId) -> (claimed: bool)
        ensures
            claimed == claim_ok(*old(self), peer),
            *final(self) == after_claim(*old(self), peer),
    {
        match self.occupant {
            Some(_) => false,
            None => {
                self.occupant = Some(peer);
                true
            },
        }
    }

    /// Clear occupancy unconditionally. Releasing an already-empty slot is
    /// a no-op, not an error.
    pub fn release(&mut self)
        ensures
            *final(self) == after_release(*old(self)),
    {
        self.occupant = None;
    }
}

/// After one peer's claim succeeds, every claim attempt by any peer fails
/// until the slot is released.
pub proof fn lemma_claim_is_exclusive(s: ConnectionSlot, p1: PeerId, p2: PeerId)
    requires
        claim_ok(s, p1),
    ensures
        !claim_ok(after_claim(s, p1), p2),
{
}

/// Release is idempotent: releasing an already-empty slot leaves the state
/// unchanged, and a second release changes nothing over the first.
pub proof fn lemma_release_idempotent(s: ConnectionSlot)
    ensures
        after_release(after_release(s)) == after_release(s),
        s.occupant is None ==> after_release(s) == s,
{
}

/// Capacity of the pending-approval queue; enqueueing beyond it resolves as
/// a denial rather than blocking.
pub const APPROVAL_QUEUE_CAPACITY: usize = 16;

/// A request awaiting the operator's decision: the requesting peer, and the
/// identity of its single-use response channel.
#[derive(Clone, Copy, PartialEq, Eq, Structural, Debug)]
pub struct PendingApproval {
    pub peer: PeerId,
    pub ticket: u64,
}

/// Bridges transport handlers to a serialized interactive approval decision:
/// either auto-approve, or an ordered bounded queue drained by one consumer.
///
/// `closed` records that the consumer is gone (its end of the queue was
/// dropped), after which every request resolves as a denial.
pub struct ApprovalBroker {
    pub auto_approve: bool,
    pub queue: Vec<PendingApproval>,
    pub next_ticket: u64,
    pub closed: bool,
}

/// The broker as the contracts see it: the queue as a sequence, oldest first.
#[verifier::ext_equal]
pub struct BrokerView {
    pub auto_approve: bool,
    pub queue: Seq<PendingApproval>,
    pub next_ticket: u64,
    pub closed: bool,
}

impl View for ApprovalBroker {
    type V = BrokerView;

    open spec fn view(&self) -> BrokerView {
        BrokerView {
            auto_approve: self.auto_approve,
            queue: self.queue@,
            next_ticket: self.next_ticket,
            closed: self.closed,
        }
    }
}

/// How `request_approval` resolves: granted at once (auto-approve), denied
/// at once (queue closed or full), or enqueued under a ticket whose decision
/// arrives later through the consumer.
#[derive(Clone, Copy, PartialEq, Eq, Structural, Debug)]
pub enum ApprovalOutcome {
    Granted,
    Denied,
    Pending(u64),
}

/// A new request can be queued while the consumer is alive and the queue is
/// below its capacity.
pub open spec fn spec_can_enqueue(b: BrokerView) -> bool {
    !b.closed && b.queue.len() < APPROVAL_QUEUE_CAPACITY
}

/// One approval request against broker state `b`: the next state and how the
/// request resolves.
pub open spec fn spec_request(b: BrokerView, peer: PeerId) -> (BrokerView, ApprovalOutcome) {
    if b.auto_approve {
        (b, ApprovalOutcome::Granted)
    } else if !spec_can_enqueue(b) {
        (b, ApprovalOutcome::Denied)
    } else {
        (
            BrokerView {
                queue: b.queue.push(PendingApproval { peer, ticket: b.next_ticket }),
                next_ticket: (b.next_ticket + 1) as u64,
                ..b
            },
            ApprovalOutcome::Pending(b.next_ticket),
        )
    }
}

/// The consumer taking the oldest pending request, if any.
pub open spec fn spec_pop(b: BrokerView) -> (BrokerView, Option<PendingApproval>) {
    if b.queue.len() == 0 {
        (b, None)
    } else {
        (BrokerView { queue: b.queue.drop_first(), ..b }, Some(b.queue[0]))
    }
}

/// What one consumer step did: nothing was pending, the oldest request was
/// skipped because its requester had already gone, or it is now presented to
/// the operator.
#[derive(Clone, Copy, PartialEq, Eq, Structural, Debug)]
pub enum ConsumerEvent {
    Idle,
    Skipped { peer: PeerId },
    Prompt { peer: PeerId, ticket: u64 },
}

impl ApprovalBroker {
    /// A fresh broker with an empty queue and a live consumer.
    pub fn new(auto_approve: bool) -> (b: Self)
        ensures
            b@.auto_approve == auto_approve,
            b@.queue.len() == 0,
            b@.next_ticket == 0,
            !b@.closed,
    {
        ApprovalBroker { auto_approve, queue: Vec::new(), next_ticket: 0, closed: false }
    }

    /// Ask for a decision about `peer`. In auto-approve mode this is granted
    /// at once and the queue is untouched; otherwise the request is queued
    /// under a fresh ticket, or denied outright if the queue is closed or
    /// full. This never blocks and never fails the calling session.
    pub fn request_approval(&mut self, peer: PeerId) -> (r: ApprovalOutcome)
        requires
            !old(self)@.auto_approve && spec_can_enqueue(old(self)@) ==> old(self).next_ticket
                < u64::MAX,
        ensures
            ({
                let (b2, out) = spec_request(old(self)@, peer);
                final(self)@ == b2 && r == out
            }),
    {
        if self.auto_approve {
            return ApprovalOutcome::Granted;
        }
        if self.closed || self.queue.len() >= APPROVAL_QUEUE_CAPACITY {
            return ApprovalOutcome::Denied;
        }
        let ticket = self.next_ticket;
        self.queue.push(PendingApproval { peer, ticket });
        self.next_ticket = ticket + 1;
        ApprovalOutcome::Pending(ticket)
    }

    /// Mark the consumer as gone: every later request resolves as a denial.
    pub fn close(&mut self)
        ensures
            final(self)@ == (BrokerView { closed: true, ..old(self)@ }),
    {
        self.closed = true;
    }

    /// One step of the approval consumer: take the oldest pending request,
    /// strictly in arrival order. `abandoned` reports whether that request's
    /// response channel was already dropped by its requester; such a request
    /// is skipped without a prompt and without an error, and the consumer
    /// moves on to the next one.
    pub fn consumer_step(&mut self, abandoned: bool) -> (e: ConsumerEvent)
        ensures
            ({
                let (b2, popped) = spec_pop(old(self)@);
                &&& final(self)@ == b2
                &&& e == (match popped {
                    None => ConsumerEvent::Idle,
                    Some(pa) => if abandoned {
                        ConsumerEvent::Skipped { peer: pa.peer }
                    } else {
                        ConsumerEvent::Prompt { peer: pa.peer, ticket: pa.ticket }
                    },
                })
            }),
    {
        if self.queue.len() == 0 {
            return ConsumerEvent::Idle;
        }
        let pa = self.queue.remove(0);
        proof {
            assert(old(self).queue@.remove(0) =~= old(self).queue@.drop_first());
        }
        if abandoned {
            ConsumerEvent::Skipped { peer: pa.peer }
        } else {
            ConsumerEvent::Prompt { peer: pa.peer, ticket: pa.ticket }
        }
    }
}

/// In auto-approve mode a request always resolves as granted, with no queue
/// interaction, whatever the broker's queue holds and however many requests
/// came before.
pub proof fn lemma_auto_approve_always_grants(b: BrokerView, peer: PeerId)
    requires
        b.auto_approve,
    ensures
        spec_request(b, peer) == (b, ApprovalOutcome::Granted),
{
}

/// ASCII whitespace, as the operator's input line may carry it: space, tab,
/// line feed, carriage return.
pub open spec fn is_space(b: u8) -> bool {
    b == 32 || b == 9 || b == 10 || b == 13
}

/// The byte with any ASCII capital letter lowered.
pub open spec fn lower(b: u8) -> u8 {
    if 65 <= b && b <= 90 {
        (b + 32) as u8
    } else {
        b
    }
}

/// The sequence with its leading whitespace removed.
pub open spec fn trim_front(s: Seq<u8>) -> Seq<u8>
    decreases s.len(),
{
    if s.len() > 0 && is_space(s[0]) {
        trim_front(s.drop_first())
    } else {
        s
    }
}

/// The sequence with its trailing whitespace removed.
pub open spec fn trim_back(s: Seq<u8>) -> Seq<u8>
    decreases s.len(),
{
    if s.len() > 0 && is_space(s[s.len() - 1]) {
        trim_back(s.drop_last())
    } else {
        s
    }
}

/// The sequence with every ASCII capital letter lowered.
pub open spec fn lowered(s: Seq<u8>) -> Seq<u8> {
    s.map_values(|b: u8| lower(b))
}

/// The operator's line means "approve" exactly when, stripped of
/// surrounding whitespace and with ASCII capitals lowered, it reads "y" or
/// "yes". Anything else - including an empty line - denies.
pub open spec fn spec_decision(s: Seq<u8>) -> bool {
    let t = lowered(trim_back(trim_front(s)));
    t == seq![121u8] || t == seq![121u8, 101u8, 115u8]
}

fn is_space_byte(b: u8) -> (r: bool)
    ensures
        r == is_space(b),
{
    b == 32 || b == 9 || b == 10 || b == 13
}

fn lower_byte(b: u8) -> (r: u8)
    ensures
        r == lower(b),
{
    if 65 <= b && b <= 90 {
        b + 32
    } else {
        b
    }
}

/// Turn the operator's raw input line into the approval decision: `true`
/// exactly when the line, trimmed and case-folded, reads "y" or "yes".
pub fn parse_decision(line: &Vec<u8>) -> (approved: bool)
    ensures
        approved == spec_decision(line@),
{
    let n = line.len();
    let mut i: usize = 0;
    proof {
        assert(line@.subrange(0, n as int) =~= line@);
    }
    loop
        invariant
            i <= n,
            n == line.len(),
            trim_front(line@) == trim_front(line@.subrange(i as int, n as int)),
        ensures
            i <= n,
            n == line.len(),
            trim_front(line@) == line@.subrange(i as int, n as int),
        decreases n - i,
    {
        if i >= n {
            proof {
                assert(line@.subrange(i as int, n as int).len() == 0);
            }
            break;
        }
        if !is_space_byte(line[i]) {
            break;
        }
        proof {
            assert(line@.subrange(i as int, n as int).drop_first() =~= line@.subrange(
                i as int + 1,
                n as int,
            ));
        }
        i = i + 1;
    }
    let mut j: usize = n;
    loop
        invariant
            i <= j <= n,
            n == line.len(),
            trim_back(trim_front(line@)) == trim_back(line@.subrange(i as int, j as int)),
        ensures
            i <= j <= n,
            n == line.len(),
            trim_back(trim_front(line@)) == line@.subrange(i as int, j as int),
        decreases j,
    {
        if j <= i {
            proof {
                assert(line@.subrange(i as int, j as int).len() == 0);
            }
            break;
        }
        if !is_space_byte(line[j - 1]) {
            break;
        }
        proof {
            assert(line@.subrange(i as int, j as int).drop_last() =~= line@.subrange(
                i as int,
                j as int - 1,
            ));
        }
        j = j - 1;
    }
    let ghost t = line@.subrange(i as int, j as int);
    let len = j - i;
    if len == 1 {
        let r = lower_byte(line[i]) == 121;
        proof {
            assert(lowered(t).len() == 1);
            assert(lowered(t)[0] == lower(line@[i as int]));
            assert(seq![121u8][0] == 121u8);
            if lower(line@[i as int]) == 121 {
                assert(lowered(t) =~= seq![121u8]);
            }
            assert(seq![121u8, 101u8, 115u8].len() == 3);
        }
        r
    } else if len == 3 {
        let r = lower_byte(line[i]) == 121 && lower_byte(line[i + 1]) == 101 && lower_byte(
            line[i + 2],
        ) == 115;
        proof {
            assert(lowered(t).len() == 3);
            assert(lowered(t)[0] == lower(line@[i as int]));
            assert(lowered(t)[1] == lower(line@[i as int + 1]));
            assert(lowered(t)[2] == lower(line@[i as int + 2]));
            assert(seq![121u8, 101u8, 115u8][0] == 121u8);
            assert(seq![121u8, 101u8, 115u8][1] == 101u8);
            assert(seq![121u8, 101u8, 115u8][2] == 115u8);
            if lower(line@[i as int]) == 121 && lower(line@[i as int + 1]) == 101 && lower(
                line@[i as int + 2],
            ) == 115 {
                assert(lowered(t) =~= seq![121u8, 101u8, 115u8]);
            }
            assert(seq![121u8].len() == 1);
        }
        r
    } else {
        proof {
            assert(lowered(t).len() == j - i);
            assert(seq![121u8].len() == 1);
            assert(seq![121u8, 101u8, 115u8].len() == 3);
        }
        false
    }
}

/// Requests queued in the order R1, R2, R3 are handed to the consumer in
/// exactly that order, each exactly once: the three pops return the three
/// requests under three distinct tickets, and afterwards the queue is empty.
pub proof fn lemma_approval_fifo(b0: BrokerView, p1: PeerId, p2: PeerId, p3: PeerId)
    requires
        !b0.auto_approve,
        !b0.closed,
        b0.queue.len() == 0,
        b0.next_ticket + 3 <= u64::MAX,
    ensures
        ({
            let (b1, r1) = spec_request(b0, p1);
            let (b2, r2) = spec_request(b1, p2);
            let (b3, r3) = spec_request(b2, p3);
            let (c1, q1) = spec_pop(b3);
            let (c2, q2) = spec_pop(c1);
            let (c3, q3) = spec_pop(c2);
            &&& r1 == ApprovalOutcome::Pending(b0.next_ticket)
            &&& r2 == ApprovalOutcome::Pending((b0.next_ticket + 1) as u64)
            &&& r3 == ApprovalOutcome::Pending((b0.next_ticket + 2) as u64)
            &&& q1 == Some(PendingApproval { peer: p1, ticket: b0.next_ticket })
            &&& q2 == Some(PendingApproval { peer: p2, ticket: (b0.next_ticket + 1) as u64 })
            &&& q3 == Some(PendingApproval { peer: p3, ticket: (b0.next_ticket + 2) as u64 })
            &&& c3.queue.len() == 0
        }),
{
    let (b1, r1) = spec_request(b0, p1);
    let (b2, r2) = spec_request(b1, p2);
    let (b3, r3) = spec_request(b2, p3);
    let pa1 = PendingApproval { peer: p1, ticket: b0.next_ticket };
    let pa2 = PendingApproval { peer: p2, ticket: (b0.next_ticket + 1) as u64 };
    let pa3 = PendingApproval { peer: p3, ticket: (b0.next_ticket + 2) as u64 };
    assert(b3.queue =~= seq![pa1, pa2, pa3]);
    let (c1, q1) = spec_pop(b3);
    assert(c1.queue =~= seq![pa2, pa3]);
    let (c2, q2) = spec_pop(c1);
    assert(c2.queue =~= seq![pa3]);
    let (c3, q3) = spec_pop(c2);
    assert(c3.queue =~= Seq::<PendingApproval>::empty());
}

} // verus!
