use vstd::prelude::*;
use futures::sync::oneshot::Sender;
use crate::error::{ClientError, Outcome};
use crate::key::{key_of, OneTimeKey, OperationKind};
use crate::packet::{derive_key, derived_key, MqttPacket};
use crate::table::{LoopData, PendingEntry};

verus! {

/// A request as submitted by a caller: the packet to send and the notifier
/// through which the caller is to be completed.
pub type RequestTuple = (MqttPacket, Sender<Outcome>);

/// The state of a registration task.
pub enum RegistrationState {
    /// The request has not been registered yet.
    Processing(MqttPacket, Sender<Outcome>),
    /// The task has done its one step.
    Done,
}

/// What one poll of a task reports to its driver.
#[derive(PartialEq, Eq, Structural, Clone, Copy, Debug)]
pub enum PollStatus {
    /// The task has completed in this poll.
    Ready,
    /// The task made no progress; it is to be polled again later, or never.
    NotReady,
}

/// The task that registers one outbound request in the connection's
/// correlation table.
pub struct RegistrationTask {
    kind: OperationKind,
    state: RegistrationState,
}

/// The state of a task after one poll, given whether the lock was acquired.
pub open spec fn state_after(state: RegistrationState, locked: bool) -> RegistrationState {
    match state {
        RegistrationState::Processing(_, _) => if locked {
            RegistrationState::Done
        } else {
            state
        },
        RegistrationState::Done => RegistrationState::Done,
    }
}

/// What one poll reports, given the task's state and whether the lock was
/// acquired: completion once the request is registered, a failure where its
/// packet has no identifier, and no progress otherwise. A task that is done
/// reports no progress, for ever.
pub open spec fn poll_result(state: RegistrationState, locked: bool) -> Result<PollStatus, ClientError> {
    match state {
        RegistrationState::Processing(packet, _) => if !locked {
            Ok(PollStatus::NotReady)
        } else {
            match packet.packet_id {
                Some(_) => Ok(PollStatus::Ready),
                None => Err(ClientError::MissingPacketId),
            }
        },
        RegistrationState::Done => Ok(PollStatus::NotReady),
    }
}

/// The correlation table after a task of kind `kind` in state `state` polls
/// while holding the lock: its request is inserted under the derived key,
/// replacing whatever was there; nothing changes otherwise.
pub open spec fn table_after(
    kind: OperationKind,
    state: RegistrationState,
    table: Map<OneTimeKey, PendingEntry>,
) -> Map<OneTimeKey, PendingEntry> {
    match state {
        RegistrationState::Processing(packet, notifier) => match derived_key(kind, packet.packet_id) {
            Some(key) => table.insert(key, PendingEntry { packet, notifier }),
            None => table,
        },
        RegistrationState::Done => table,
    }
}

impl RegistrationTask {
    pub closed spec fn kind_spec(&self) -> OperationKind {
        self.kind
    }

    pub closed spec fn state_spec(&self) -> RegistrationState {
        self.state
    }

    /// A task that registers `request` as an operation of kind `kind`.
    pub fn new(kind: OperationKind, request: RequestTuple) -> (r: RegistrationTask)
        ensures
            r.kind_spec() == kind,
            r.state_spec() == RegistrationState::Processing(request.0, request.1),
    {
        let (packet, client) = request;
        RegistrationTask { kind, state: RegistrationState::Processing(packet, client) }
    }

    /// Whether the task has done its step; a task that is not done needs the
    /// connection lock for its next poll to make progress.
    pub fn is_done(&self) -> (r: bool)
        ensures
            r == (self.state_spec() is Done),
    {
        match self.state {
            RegistrationState::Processing(_, _) => false,
            RegistrationState::Done => true,
        }
    }

    /// One step of the task. `data` is the connection state when the
    /// connection lock was acquired for this step, `None` when it was not.
    pub fn poll(&mut self, data: Option<&mut LoopData>) -> (r: Result<PollStatus, ClientError>)
        ensures
            final(self).kind_spec() == old(self).kind_spec(),
            final(self).state_spec() == state_after(old(self).state_spec(), data is Some),
            r == poll_result(old(self).state_spec(), data is Some),
            match data {
                Some(d) => final(d).one_time@ == table_after(
                    old(self).kind_spec(),
                    old(self).state_spec(),
                    d.one_time@,
                ),
                None => true,
            },
    {
        poll_registration(self.kind, &mut self.state, data)
    }
}

/// The step shared by all registration tasks: with the lock held, a task
/// still processing derives its key, inserts its pending entry and is done;
/// a packet without identifier fails the task, and its notifier is fired
/// with that failure. Without the lock, or once done, nothing changes.
pub fn poll_registration(
    kind: OperationKind,
    state: &mut RegistrationState,
    data: Option<&mut LoopData>,
) -> (r: Result<PollStatus, ClientError>)
    ensures
        *final(state) == state_after(*old(state), data is Some),
        r == poll_result(*old(state), data is Some),
        match data {
            Some(d) => final(d).one_time@ == table_after(kind, *old(state), d.one_time@),
            None => true,
        },
{
    match data {
        None => Ok(PollStatus::NotReady),
        Some(d) => {
            let mut current = RegistrationState::Done;
            std::mem::swap(state, &mut current);
            match current {
                RegistrationState::Processing(packet, client) => {
                    match derive_key(kind, &packet) {
                        Ok(key) => {
                            let _ = d.one_time.insert(key, PendingEntry { packet, notifier: client });
                            Ok(PollStatus::Ready)
                        },
                        Err(e) => {
                            let _ = PendingEntry { packet, notifier: client }.fire(Err(e));
                            Err(e)
                        },
                    }
                },
                RegistrationState::Done => Ok(PollStatus::NotReady),
            }
        },
    }
}

/// The registration task of an unsubscribe request.
pub struct UnsubscribeHandler {
    state: RegistrationState,
}

impl UnsubscribeHandler {
    pub closed spec fn state_spec(&self) -> RegistrationState {
        self.state
    }

    /// A task that registers `request` as an unsubscribe request.
    pub fn new(request: RequestTuple) -> (r: UnsubscribeHandler)
        ensures
            r.state_spec() == RegistrationState::Processing(request.0, request.1),
    {
        let (packet, client) = request;
        UnsubscribeHandler { state: RegistrationState::Processing(packet, client) }
    }

    pub fn is_done(&self) -> (r: bool)
        ensures
            r == (self.state_spec() is Done),
    {
        match self.state {
            RegistrationState::Processing(_, _) => false,
            RegistrationState::Done => true,
        }
    }

    /// One step of the task, registering under `Unsubscribe(id)`. `data` is
    /// the connection state when the connection lock was acquired for this
    /// step, `None` when it was not.
    pub fn poll(&mut self, data: Option<&mut LoopData>) -> (r: Result<PollStatus, ClientError>)
        ensures
            final(self).state_spec() == state_after(old(self).state_spec(), data is Some),
            r == poll_result(old(self).state_spec(), data is Some),
            match data {
                Some(d) => final(d).one_time@ == table_after(
                    OperationKind::Unsubscribe,
                    old(self).state_spec(),
                    d.one_time@,
                ),
                None => true,
            },
    {
        poll_registration(OperationKind::Unsubscribe, &mut self.state, data)
    }
}

/// A request as a registration sees it: its operation kind, its packet and
/// its notifier.
pub type Request = (OperationKind, MqttPacket, Sender<Outcome>);

pub open spec fn request_key(req: Request) -> Option<OneTimeKey> {
    derived_key(req.0, req.1.packet_id)
}

pub open spec fn request_entry(req: Request) -> PendingEntry {
    PendingEntry { packet: req.1, notifier: req.2 }
}

/// The table after the tasks of `reqs` have each done their step, one after
/// another in the order of `reqs`, starting from `table`.
pub open spec fn register_all(
    table: Map<OneTimeKey, PendingEntry>,
    reqs: Seq<Request>,
) -> Map<OneTimeKey, PendingEntry>
    decreases reqs.len(),
{
    if reqs.len() == 0 {
        table
    } else {
        let last = reqs.last();
        table_after(
            last.0,
            RegistrationState::Processing(last.1, last.2),
            register_all(table, reqs.drop_last()),
        )
    }
}

/// Requests that all carry an identifier, no two under the same key.
pub open spec fn distinct_keys(reqs: Seq<Request>) -> bool {
    &&& forall|i: int| 0 <= i < reqs.len() ==> (#[trigger] reqs[i]).1.packet_id is Some
    &&& forall|i: int, j: int|
        0 <= i < reqs.len() && 0 <= j < reqs.len() && i != j ==> request_key(#[trigger] reqs[i])
            != request_key(#[trigger] reqs[j])
}

/// A request accepted once, with an identifier, yields exactly one new entry
/// once its task has polled with the lock: under its derived key, holding its
/// packet and notifier. Every other key keeps what it had, and the task is
/// done, reporting completion.
pub proof fn lemma_single_registration(
    kind: OperationKind,
    packet: MqttPacket,
    notifier: Sender<Outcome>,
    table: Map<OneTimeKey, PendingEntry>,
)
    requires
        packet.packet_id is Some,
    ensures
        ({
            let state = RegistrationState::Processing(packet, notifier);
            let key = key_of(kind, packet.packet_id->Some_0);
            let after = table_after(kind, state, table);
            &&& after.contains_key(key)
            &&& after[key] == (PendingEntry { packet, notifier })
            &&& after.dom() == table.dom().insert(key)
            &&& forall|k: OneTimeKey| k != key ==> #[trigger] after.contains_key(k) == table.contains_key(k)
                && (table.contains_key(k) ==> after[k] == table[k])
            &&& state_after(state, true) is Done
            &&& poll_result(state, true) == Ok::<PollStatus, ClientError>(PollStatus::Ready)
        }),
{
}

/// Registering requests with pairwise distinct keys, one at a time in any
/// order, leaves every one of them in the table under its own key with its
/// own entry; no other key changes.
pub proof fn lemma_all_registered(table: Map<OneTimeKey, PendingEntry>, reqs: Seq<Request>)
    requires
        distinct_keys(reqs),
    ensures
        forall|i: int|
            0 <= i < reqs.len() ==> {
                let key = (#[trigger] request_key(reqs[i]))->Some_0;
                &&& register_all(table, reqs).contains_key(key)
                &&& register_all(table, reqs)[key] == request_entry(reqs[i])
            },
        forall|k: OneTimeKey|
            (forall|i: int| 0 <= i < reqs.len() ==> request_key(#[trigger] reqs[i]) != Some(k))
                ==> (#[trigger] register_all(table, reqs).contains_key(k) == table.contains_key(k)
                && (table.contains_key(k) ==> register_all(table, reqs)[k] == table[k])),
    decreases reqs.len(),
{
    if reqs.len() > 0 {
        let init = reqs.drop_last();
        assert(distinct_keys(init)) by {
            assert forall|i: int| 0 <= i < init.len() implies (#[trigger] init[i]).1.packet_id is Some by {
                assert(init[i] == reqs[i]);
            }
            assert forall|i: int, j: int|
                0 <= i < init.len() && 0 <= j < init.len() && i != j implies request_key(
                #[trigger] init[i],
            ) != request_key(#[trigger] init[j]) by {
                assert(init[i] == reqs[i]);
                assert(init[j] == reqs[j]);
            }
        }
        lemma_all_registered(table, init);
        let last = reqs.last();
        assert(last == reqs[reqs.len() - 1]);
        assert(last.1.packet_id is Some);
        let lk = request_key(last)->Some_0;
        assert forall|i: int| 0 <= i < reqs.len() implies {
            let key = (#[trigger] request_key(reqs[i]))->Some_0;
            &&& register_all(table, reqs).contains_key(key)
            &&& register_all(table, reqs)[key] == request_entry(reqs[i])
        } by {
            if i < reqs.len() - 1 {
                assert(init[i] == reqs[i]);
                assert(request_key(reqs[i]) != request_key(reqs[reqs.len() - 1]));
                assert(reqs[i].1.packet_id is Some);
            }
        }
        assert forall|k: OneTimeKey|
            (forall|i: int| 0 <= i < reqs.len() ==> request_key(#[trigger] reqs[i]) != Some(k))
                implies (#[trigger] register_all(table, reqs).contains_key(k) == table.contains_key(k)
                && (table.contains_key(k) ==> register_all(table, reqs)[k] == table[k])) by {
            assert(request_key(reqs[reqs.len() - 1]) != Some(k));
            assert forall|i: int| 0 <= i < init.len() implies request_key(#[trigger] init[i]) != Some(k) by {
                assert(init[i] == reqs[i]);
                assert(request_key(reqs[i]) != Some(k));
            }
        }
    }
}

/// The order in which tasks with distinct keys take the lock does not
/// matter: the same requests registered in two orders give the same table.
pub proof fn lemma_registration_order_irrelevant(
    table: Map<OneTimeKey, PendingEntry>,
    a: Seq<Request>,
    b: Seq<Request>,
)
    requires
        distinct_keys(a),
        distinct_keys(b),
        forall|i: int| 0 <= i < a.len() ==> exists|j: int| 0 <= j < b.len() && b[j] == #[trigger] a[i],
        forall|j: int| 0 <= j < b.len() ==> exists|i: int| 0 <= i < a.len() && #[trigger] b[j] == a[i],
    ensures
        register_all(table, a) == register_all(table, b),
{
    lemma_all_registered(table, a);
    lemma_all_registered(table, b);
    let ra = register_all(table, a);
    let rb = register_all(table, b);
    assert forall|k: OneTimeKey| ra.contains_key(k) == rb.contains_key(k) && (ra.contains_key(k) ==> ra[k] == rb[k]) by {
        if exists|i: int| 0 <= i < a.len() && request_key(#[trigger] a[i]) == Some(k) {
            let i = choose|i: int| 0 <= i < a.len() && request_key(#[trigger] a[i]) == Some(k);
            let j = choose|j: int| 0 <= j < b.len() && b[j] == #[trigger] a[i];
            assert(request_key(b[j]) == Some(k));
        } else if exists|j: int| 0 <= j < b.len() && request_key(#[trigger] b[j]) == Some(k) {
            let j = choose|j: int| 0 <= j < b.len() && request_key(#[trigger] b[j]) == Some(k);
            let i = choose|i: int| 0 <= i < a.len() && #[trigger] b[j] == a[i];
            assert(request_key(a[i]) == Some(k));
        } else {
        }
    }
    assert(ra =~= rb);
}

/// Two requests under the same key, registered one after the other: only
/// the second's entry remains, exactly as if the first had never been
/// registered. The first's notifier is no longer reachable from the table,
/// so it is never fired.
pub proof fn lemma_colliding_keys_overwrite(
    table: Map<OneTimeKey, PendingEntry>,
    first: Request,
    second: Request,
)
    requires
        first.1.packet_id is Some,
        request_key(first) == request_key(second),
    ensures
        register_all(table, seq![first, second]) == table.insert(
            request_key(second)->Some_0,
            request_entry(second),
        ),
        register_all(table, seq![first, second]) == register_all(table, seq![second]),
{
    let s2 = seq![first, second];
    let s1 = seq![first];
    let t = seq![second];
    assert(s2.drop_last() =~= s1);
    assert(s1.drop_last() =~= Seq::<Request>::empty());
    assert(t.drop_last() =~= Seq::<Request>::empty());
    let k = request_key(second)->Some_0;
    assert(register_all(table, Seq::<Request>::empty()) == table);
    assert(s1.len() == 1 && s1.last() == first);
    assert(t.len() == 1 && t.last() == second);
    assert(s2.len() == 2 && s2.last() == second);
    assert(register_all(table, s1) == table.insert(k, request_entry(first)));
    assert(register_all(table, t) == table.insert(k, request_entry(second)));
    assert(table.insert(k, request_entry(first)).insert(k, request_entry(second)) =~= table.insert(
        k,
        request_entry(second),
    ));
}

/// A task polls productively once. Once done, polling again, with or
/// without the lock, changes no table, reports no completion and no failure,
/// and leaves the task done.
pub proof fn lemma_repoll_after_done(
    kind: OperationKind,
    state: RegistrationState,
    table: Map<OneTimeKey, PendingEntry>,
    locked: bool,
)
    ensures
        ({
            let done = state_after(state, true);
            &&& done is Done
            &&& table_after(kind, done, table) == table
            &&& poll_result(done, locked) == Ok::<PollStatus, ClientError>(PollStatus::NotReady)
            &&& state_after(done, locked) == done
        }),
{
}

/// A request without identifier fails its task, which fires its notifier
/// with the failure, and registers nothing: no entry holds that notifier, so
/// it cannot be fired a second time through the table.
pub proof fn lemma_failed_registration_leaves_table(
    kind: OperationKind,
    packet: MqttPacket,
    notifier: Sender<Outcome>,
    table: Map<OneTimeKey, PendingEntry>,
)
    requires
        packet.packet_id is None,
    ensures
        ({
            let state = RegistrationState::Processing(packet, notifier);
            &&& table_after(kind, state, table) == table
            &&& poll_result(state, true) == Err::<PollStatus, ClientError>(ClientError::MissingPacketId)
            &&& state_after(state, true) is Done
        }),
{
}

} // verus!
