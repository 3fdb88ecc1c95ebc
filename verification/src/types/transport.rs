//! Transports for session type communication.
//!
//! A transport carries encoded payloads. The mock transports of this module
//! keep their queues behind locks shared by the communicating ends, so that
//! what one end sends the other receives. The multiparty broker keeps, behind
//! one lock, the registered participants and the messages not yet received;
//! its bookkeeping is [`BrokerState`], whose operations carry the contracts.

use vstd::prelude::*;
use vstd::rwlock::{RwLock, RwLockPredicate};
use std::collections::VecDeque;
use std::sync::Arc;
use crate::types::error::{SessionError, SessionErrorKind};
pub use crate::types::session_types::common::RoleIdentifier;
use crate::types::roles::Role;
use crate::names::text_equal;

verus! {

broadcast use vstd::std_specs::vec::group_vec_axioms;

/// A transport channel for session type communication.
///
/// Each implementation describes, by two relations, what its operations may
/// do: the transport after the call and the outcome. By default they allow
/// anything.
pub trait Transport: Sized {
    /// Whether sending `payload` from this transport may leave it as `after`
    /// with outcome `r`.
    open spec fn send_outcome(self, payload: Seq<u8>, after: Self, r: Result<(), SessionError>) -> bool {
        true
    }

    /// Whether receiving from this transport may leave it as `after` with
    /// outcome `r`.
    open spec fn receive_outcome(self, after: Self, r: Result<Vec<u8>, SessionError>) -> bool {
        true
    }

    /// Sends an encoded payload.
    fn send_payload(&mut self, payload: Vec<u8>) -> (r: Result<(), SessionError>)
        ensures
            old(self).send_outcome(payload@, *final(self), r),
    ;

    /// Receives an encoded payload.
    fn receive_payload(&mut self) -> (r: Result<Vec<u8>, SessionError>)
        ensures
            old(self).receive_outcome(*final(self), r),
    ;
}

/// The predicate of a queue lock: any queue of payloads may stand behind
/// it. `side` tells the two queues of a channel apart.
pub struct AnyQueue {
    /// Which of the two queues of a channel the lock guards.
    pub side: bool,
}

impl RwLockPredicate<VecDeque<Vec<u8>>> for AnyQueue {
    open spec fn inv(self, v: VecDeque<Vec<u8>>) -> bool {
        true
    }
}

/// A queue of payloads shared by the two ends of a mock channel.
pub type SharedQueue = Arc<RwLock<VecDeque<Vec<u8>>, AnyQueue>>;

/// Calls `Arc::clone`: another pointer to the same allocation (as the
/// standard library documents it), so the two share the value. In
/// contracts an `Arc` is seen as the value it points to, and the clone is
/// that value.
#[verifier::external_body]
fn share<T>(a: &Arc<T>) -> (r: Arc<T>)
    ensures
        r == *a,
{
    Arc::clone(a)
}

/// The payload at the front of the queue, or `UnexpectedClose` when the
/// queue was empty.
pub fn payload_or_close(front: Option<Vec<u8>>) -> (r: Result<Vec<u8>, SessionError>)
    ensures
        match front {
            Some(p) => r == Ok::<Vec<u8>, SessionError>(p),
            None => r matches Err(e) && e@ == SessionErrorKind::UnexpectedClose,
        },
{
    match front {
        Some(p) => Ok(p),
        None => Err(SessionError::UnexpectedClose),
    }
}

/// One end of an in-memory channel: it receives from its own queue and
/// sends to the queue of the other end.
pub struct MockChannelEnd {
    incoming: SharedQueue,
    other_incoming: SharedQueue,
}

impl MockChannelEnd {
    /// The queue this end receives from.
    pub closed spec fn inbox(self) -> SharedQueue {
        self.incoming
    }

    /// The queue this end sends to.
    pub closed spec fn outbox(self) -> SharedQueue {
        self.other_incoming
    }

    /// Creates the two ends of a channel: each sends to the queue the other
    /// receives from, and the two ends receive from different queues.
    pub fn new_pair() -> (r: (Self, Self))
        ensures
            r.0.outbox() == r.1.inbox(),
            r.1.outbox() == r.0.inbox(),
            r.0.inbox() != r.1.inbox(),
    {
        let queue1: SharedQueue = Arc::new(
            RwLock::new(VecDeque::new(), Ghost(AnyQueue { side: false })),
        );
        let queue2: SharedQueue = Arc::new(
            RwLock::new(VecDeque::new(), Ghost(AnyQueue { side: true })),
        );
        assert((*queue1).pred() != (*queue2).pred());
        (
            MockChannelEnd { incoming: share(&queue1), other_incoming: share(&queue2) },
            MockChannelEnd { incoming: queue2, other_incoming: queue1 },
        )
    }
}

impl Transport for MockChannelEnd {
    /// A send leaves the end as it was and succeeds.
    open spec fn send_outcome(self, payload: Seq<u8>, after: Self, r: Result<(), SessionError>) -> bool {
        after == self && r is Ok
    }

    /// A receive leaves the end as it was; it fails only with
    /// `UnexpectedClose`.
    open spec fn receive_outcome(self, after: Self, r: Result<Vec<u8>, SessionError>) -> bool {
        after == self && (r matches Err(e) ==> e@ == SessionErrorKind::UnexpectedClose)
    }

    /// Appends the payload to the other end's queue; this never fails.
    fn send_payload(&mut self, payload: Vec<u8>) -> (r: Result<(), SessionError>)
        ensures
            r is Ok,
            *final(self) == *old(self),
    {
        let (mut queue, handle) = self.other_incoming.acquire_write();
        queue.push_back(payload);
        handle.release_write(queue);
        Ok(())
    }

    /// Takes the payload at the front of this end's queue; an empty queue
    /// gives `UnexpectedClose`.
    fn receive_payload(&mut self) -> (r: Result<Vec<u8>, SessionError>)
        ensures
            r matches Err(e) ==> e@ == SessionErrorKind::UnexpectedClose,
            *final(self) == *old(self),
    {
        let (mut queue, handle) = self.incoming.acquire_write();
        let front = queue.pop_front();
        handle.release_write(queue);
        payload_or_close(front)
    }
}

/// A transport for multiparty sessions: it sends to and receives from
/// participants named by role identifiers.
///
/// Each implementation describes, by two relations, what its operations may
/// do: the transport after the call and the outcome. By default they allow
/// anything.
pub trait MultipartyTransport: Sized {
    /// Whether sending `payload` to the participant named `to` may leave this
    /// transport as `after` with outcome `r`.
    open spec fn send_to_outcome(
        self,
        to: Seq<char>,
        payload: Seq<u8>,
        after: Self,
        r: Result<(), SessionError>,
    ) -> bool {
        true
    }

    /// Whether receiving from the participant named `from` may leave this
    /// transport as `after` with outcome `r`.
    open spec fn receive_from_outcome(
        self,
        from: Seq<char>,
        after: Self,
        r: Result<Vec<u8>, SessionError>,
    ) -> bool {
        true
    }

    /// Sends an encoded payload to the participant `to`.
    fn send_to(&mut self, to: &RoleIdentifier, payload: Vec<u8>) -> (r: Result<(), SessionError>)
        ensures
            old(self).send_to_outcome(to@, payload@, *final(self), r),
    ;

    /// Receives the next encoded payload sent by the participant `from`.
    fn receive_from(&mut self, from: &RoleIdentifier) -> (r: Result<Vec<u8>, SessionError>)
        ensures
            old(self).receive_from_outcome(from@, *final(self), r),
    ;
}

/// A message waiting at the broker: sender, recipient, encoded payload.
pub struct Envelope {
    /// The name of the sender.
    pub from: String,
    /// The name of the recipient.
    pub to: String,
    /// The encoded payload.
    pub payload: Vec<u8>,
}

/// A pending message as contracts see it: sender, recipient, payload.
pub type PendingView = (Seq<char>, Seq<char>, Seq<u8>);

/// Whether the pending message `m` goes from `from` to `to`.
pub open spec fn goes(m: PendingView, from: Seq<char>, to: Seq<char>) -> bool {
    m.0 == from && m.1 == to
}

/// Whether `k` is the index of the first message of `pending` from `from`
/// to `to`.
pub open spec fn first_match(pending: Seq<PendingView>, from: Seq<char>, to: Seq<char>, k: int) -> bool {
    &&& 0 <= k < pending.len()
    &&& goes(pending[k], from, to)
    &&& forall|j: int| 0 <= j < k ==> !goes(#[trigger] pending[j], from, to)
}

/// Whether `pending` holds no message from `from` to `to`.
pub open spec fn none_pending(pending: Seq<PendingView>, from: Seq<char>, to: Seq<char>) -> bool {
    forall|j: int| 0 <= j < pending.len() ==> !goes(#[trigger] pending[j], from, to)
}

/// The message a refused recipient or participant is reported with.
pub open spec fn not_found_message(name: Seq<char>) -> Seq<char> {
    "Participant "@ + name + " not found"@
}

/// The error for a participant that is not registered.
fn not_found(id: &RoleIdentifier) -> (r: SessionError)
    ensures
        r@ == SessionErrorKind::ProtocolViolation(not_found_message(id@)),
{
    let mut m = String::from_str("Participant ");
    m.append(id.name());
    m.append(" not found");
    SessionError::ProtocolViolation(m)
}

/// The participants registered at a broker and the messages sent but not yet
/// received, in the order they were sent.
pub struct BrokerState {
    participants: Vec<String>,
    pending: Vec<Envelope>,
}

impl BrokerState {
    /// The names of the registered participants.
    pub closed spec fn participant_names(self) -> Seq<Seq<char>> {
        self.participants@.map_values(|s: String| s@)
    }

    /// The messages sent but not yet received, oldest first.
    pub closed spec fn pending_messages(self) -> Seq<PendingView> {
        self.pending@.map_values(|e: Envelope| (e.from@, e.to@, e.payload@))
    }

    /// A broker with no participants and no messages.
    pub fn new() -> (r: Self)
        ensures
            r.participant_names() == Seq::<Seq<char>>::empty(),
            r.pending_messages() == Seq::<PendingView>::empty(),
    {
        let r = BrokerState { participants: Vec::new(), pending: Vec::new() };
        assert(r.participant_names() =~= Seq::<Seq<char>>::empty());
        assert(r.pending_messages() =~= Seq::<PendingView>::empty());
        r
    }

    /// Whether a participant of this name is registered.
    pub fn is_registered(&self, name: &str) -> (r: bool)
        ensures
            r == self.participant_names().contains(name@),
    {
        let mut i: usize = 0;
        while i < self.participants.len()
            invariant
                i <= self.participants@.len(),
                forall|j: int| 0 <= j < i ==> self.participant_names()[j] != name@,
            decreases self.participants.len() - i,
        {
            if text_equal(self.participants[i].as_str(), name) {
                assert(self.participant_names()[i as int] == name@);
                return true;
            }
            i = i + 1;
        }
        assert(!self.participant_names().contains(name@));
        false
    }

    /// Registers a participant; registering one twice changes nothing.
    pub fn register(&mut self, id: &RoleIdentifier) -> (r: Result<(), SessionError>)
        ensures
            r is Ok,
            final(self).participant_names() == (if old(self).participant_names().contains(id@) {
                old(self).participant_names()
            } else {
                old(self).participant_names().push(id@)
            }),
            final(self).pending_messages() == old(self).pending_messages(),
    {
        if !self.is_registered(id.name()) {
            let ghost before = self.participant_names();
            self.participants.push(id.name().to_string());
            assert(self.participant_names() =~= before.push(id@));
        }
        Ok(())
    }

    /// Leaves a message from `from` to `to`; a recipient that is not
    /// registered is refused, and nothing changes.
    pub fn deliver(&mut self, from: &RoleIdentifier, to: &RoleIdentifier, payload: Vec<u8>) -> (r:
        Result<(), SessionError>)
        ensures
            r is Ok <==> old(self).participant_names().contains(to@),
            r is Ok ==> final(self).pending_messages() == old(self).pending_messages().push(
                (from@, to@, payload@),
            ),
            r matches Err(e) ==> e@ == SessionErrorKind::ProtocolViolation(
                not_found_message(to@),
            ) && final(self).pending_messages() == old(self).pending_messages(),
            final(self).participant_names() == old(self).participant_names(),
    {
        if !self.is_registered(to.name()) {
            return Err(not_found(to));
        }
        let ghost before = self.pending_messages();
        let envelope = Envelope {
            from: from.name().to_string(),
            to: to.name().to_string(),
            payload,
        };
        self.pending.push(envelope);
        assert(self.pending_messages() =~= before.push((from@, to@, payload@)));
        Ok(())
    }

    /// Takes the oldest message from `from` to `to`; when there is none, the
    /// receive fails with `UnexpectedClose` and nothing changes.
    pub fn collect(&mut self, to: &RoleIdentifier, from: &RoleIdentifier) -> (r: Result<
        Vec<u8>,
        SessionError,
    >)
        ensures
            final(self).participant_names() == old(self).participant_names(),
            match r {
                Ok(p) => exists|k: int|
                    first_match(old(self).pending_messages(), from@, to@, k) && p@ == old(
                        self,
                    ).pending_messages()[k].2 && final(self).pending_messages() == old(
                        self,
                    ).pending_messages().remove(k),
                Err(e) => e@ == SessionErrorKind::UnexpectedClose && none_pending(
                    old(self).pending_messages(),
                    from@,
                    to@,
                ) && final(self).pending_messages() == old(self).pending_messages(),
            },
    {
        let ghost before = self.pending_messages();
        let mut i: usize = 0;
        while i < self.pending.len()
            invariant
                i <= self.pending@.len(),
                before == self.pending_messages(),
                before == old(self).pending_messages(),
                self.participant_names() == old(self).participant_names(),
                forall|j: int| 0 <= j < i ==> !goes(#[trigger] before[j], from@, to@),
            decreases self.pending.len() - i,
        {
            if text_equal(self.pending[i].from.as_str(), from.name()) && text_equal(
                self.pending[i].to.as_str(),
                to.name(),
            ) {
                assert(before[i as int] == (
                    self.pending@[i as int].from@,
                    self.pending@[i as int].to@,
                    self.pending@[i as int].payload@,
                ));
                let envelope = self.pending.remove(i);
                assert(first_match(before, from@, to@, i as int));
                assert(self.pending_messages() =~= before.remove(i as int));
                assert(envelope.payload@ == before[i as int].2);
                assert(first_match(before, from@, to@, i as int) && envelope.payload@ == before[i as int].2
                    && self.pending_messages() == before.remove(i as int));
                return Ok(envelope.payload);
            }
            i = i + 1;
        }
        Err(SessionError::UnexpectedClose)
    }
}

/// A message left for a registered recipient, when no other message from
/// the same sender to the same recipient is waiting, is the one the
/// recipient's next receive from that sender takes; the messages waiting
/// afterwards are those that waited before.
pub proof fn law_delivered_message_is_collected(
    pending: Seq<PendingView>,
    from: Seq<char>,
    to: Seq<char>,
    payload: Seq<u8>,
)
    requires
        none_pending(pending, from, to),
    ensures
        forall|k: int|
            first_match(pending.push((from, to, payload)), from, to, k) ==> k == pending.len()
                && pending.push((from, to, payload))[k].2 == payload && pending.push(
                (from, to, payload),
            ).remove(k) == pending,
        first_match(pending.push((from, to, payload)), from, to, pending.len() as int),
{
    let after = pending.push((from, to, payload));
    assert forall|k: int| first_match(after, from, to, k) implies k == pending.len() && after[k].2
        == payload && after.remove(k) == pending by {
        if k < pending.len() {
            assert(after[k] == pending[k]);
        }
        assert(after.remove(k) =~= pending);
    }
    assert forall|j: int| 0 <= j < pending.len() implies !goes(#[trigger] after[j], from, to) by {
        assert(after[j] == pending[j]);
    }
}

/// Any state may stand behind the broker's lock.
pub struct AnyBrokerState;

impl RwLockPredicate<BrokerState> for AnyBrokerState {
    open spec fn inv(self, v: BrokerState) -> bool {
        true
    }
}

/// The broker state shared by a broker and its channels.
pub type SharedBroker = Arc<RwLock<BrokerState, AnyBrokerState>>;

/// An in-memory broker that routes messages among registered participants.
pub struct MockMultipartyBroker {
    state: SharedBroker,
}

impl MockMultipartyBroker {
    /// The shared state of the broker.
    pub closed spec fn shared(self) -> SharedBroker {
        self.state
    }

    /// Creates a broker with no participants.
    pub fn new() -> (r: Self) {
        MockMultipartyBroker {
            state: Arc::new(RwLock::new(BrokerState::new(), Ghost(AnyBrokerState))),
        }
    }

    /// Registers a participant.
    pub fn register_participant(&self, id: &RoleIdentifier) -> (r: Result<(), SessionError>)
        ensures
            r is Ok,
    {
        let (mut state, handle) = self.state.acquire_write();
        let r = state.register(id);
        handle.release_write(state);
        r
    }

    /// Creates the channel of a registered participant playing role `R`; a
    /// participant that is not registered is refused.
    pub fn create_channel<R: Role>(&self, id: &RoleIdentifier) -> (r: Result<
        MockMultipartyChannel,
        SessionError,
    >)
        ensures
            r matches Ok(c) ==> c.owner() == id@ && c.broker() == self.shared(),
            r matches Err(e) ==> e@ == SessionErrorKind::ProtocolViolation(not_found_message(id@)),
    {
        let handle = self.state.acquire_read();
        let registered = handle.borrow().is_registered(id.name());
        handle.release_read();
        if registered {
            Ok(MockMultipartyChannel { id: id.clone(), broker: share(&self.state) })
        } else {
            Err(not_found(id))
        }
    }
}

/// The channel of one participant of a [`MockMultipartyBroker`].
pub struct MockMultipartyChannel {
    id: RoleIdentifier,
    broker: SharedBroker,
}

impl MockMultipartyChannel {
    /// The name of the participant this channel belongs to.
    pub closed spec fn owner(self) -> Seq<char> {
        self.id@
    }

    /// The broker state this channel shares.
    pub closed spec fn broker(self) -> SharedBroker {
        self.broker
    }
}

impl MultipartyTransport for MockMultipartyChannel {
    /// A send leaves the channel as it was; it fails only for a recipient
    /// that is not registered.
    open spec fn send_to_outcome(
        self,
        to: Seq<char>,
        payload: Seq<u8>,
        after: Self,
        r: Result<(), SessionError>,
    ) -> bool {
        after == self && (r matches Err(e) ==> e@ == SessionErrorKind::ProtocolViolation(
            not_found_message(to),
        ))
    }

    /// A receive leaves the channel as it was; it fails only with
    /// `UnexpectedClose`.
    open spec fn receive_from_outcome(
        self,
        from: Seq<char>,
        after: Self,
        r: Result<Vec<u8>, SessionError>,
    ) -> bool {
        after == self && (r matches Err(e) ==> e@ == SessionErrorKind::UnexpectedClose)
    }

    /// Leaves the payload at the broker for `to`; a recipient that is not
    /// registered is refused.
    fn send_to(&mut self, to: &RoleIdentifier, payload: Vec<u8>) -> (r: Result<(), SessionError>)
        ensures
            r matches Err(e) ==> e@ == SessionErrorKind::ProtocolViolation(not_found_message(to@)),
            *final(self) == *old(self),
    {
        let (mut state, handle) = self.broker.acquire_write();
        let r = state.deliver(&self.id, to, payload);
        handle.release_write(state);
        r
    }

    /// Takes the oldest payload `from` left for this participant; when there
    /// is none, the receive fails with `UnexpectedClose`.
    fn receive_from(&mut self, from: &RoleIdentifier) -> (r: Result<Vec<u8>, SessionError>)
        ensures
            r matches Err(e) ==> e@ == SessionErrorKind::UnexpectedClose,
            *final(self) == *old(self),
    {
        let (mut state, handle) = self.broker.acquire_write();
        let r = state.collect(&self.id, from);
        handle.release_write(state);
        r
    }
}

} // verus!
