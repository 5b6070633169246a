//! Bidirectional task channels and the named rendezvous registry.
//!
//! A [`TaskChannel`] is a pair of endpoints over unbounded FIFO queues.  Two
//! channels are *linked* when each one's receive endpoint is fed by the other
//! one's send endpoint.  The [`ChannelRegistry`] lets two tasks that only
//! agree on a name link a pair of channels without either knowing the other.
use vstd::prelude::*;

verus! {

use vstd::string::StringExecFns;

//
// Trusted surface over the `flume` crate, which supplies the underlying
// multi-producer FIFO queues.
//

/// Relies on `flume::Sender`: the transmitting endpoint of a queue.
#[verifier::external_type_specification]
#[verifier::external_body]
#[verifier::reject_recursive_types(T)]
pub struct ExSender<T>(flume::Sender<T>);

/// Relies on `flume::Receiver`: the consuming endpoint of a queue.
#[verifier::external_type_specification]
#[verifier::external_body]
#[verifier::reject_recursive_types(T)]
pub struct ExReceiver<T>(flume::Receiver<T>);

/// Relies on `flume::unbounded`: returns the two endpoints of one fresh
/// unbounded FIFO queue.  Nothing about the opaque endpoints is claimed here;
/// the ghost queue identities that the registry tracks are attached by the
/// callers.
#[verifier::external_body]
fn queue_endpoints<T>() -> (flume::Sender<T>, flume::Receiver<T>) {
    flume::unbounded()
}

/// Relies on `flume::Sender::send`: on an unbounded queue it never blocks; it
/// fails only when every receiving endpoint of the queue is gone, and the
/// message is then dropped.  Whether the peer is still alive is shared state,
/// so no outcome can be promised.
#[verifier::external_body]
fn queue_send<T>(sender: &flume::Sender<T>, msg: T) -> Result<(), ()> {
    match sender.send(msg) {
        Ok(()) => Ok(()),
        Err(_) => Err(()),
    }
}

/// Relies on `flume::Receiver::try_recv`: returns at once, with the oldest
/// queued message or with nothing.  What is queued is shared state, so no
/// outcome can be promised.
#[verifier::external_body]
fn queue_try_recv<T>(receiver: &flume::Receiver<T>) -> Option<T> {
    receiver.try_recv().ok()
}

/// Relies on `flume::Receiver::recv`: blocks until a message arrives (then
/// returns it) or until every sending endpoint of the queue is gone (then
/// returns nothing).  It does not panic.
#[verifier::external_body]
fn queue_recv<T>(receiver: &flume::Receiver<T>) -> Option<T> {
    receiver.recv().ok()
}

/// Relies on `flume::Sender::clone`: a clone is a further handle on the same
/// queue.
pub assume_specification<T>[ <flume::Sender<T> as Clone>::clone ](
    sender: &flume::Sender<T>,
) -> flume::Sender<T>;

/// Relies on `flume::Receiver::clone`: a clone is a further handle on the same
/// queue.
pub assume_specification<T>[ <flume::Receiver<T> as Clone>::clone ](
    receiver: &flume::Receiver<T>,
) -> flume::Receiver<T>;

//
// The channel itself.
//

/// One side of a (potential) bidirectional pipe: a send endpoint and a
/// receive endpoint over unbounded FIFO queues.
///
/// Each underlying queue carries a ghost identity, and the channel records
/// the identity of the queue its sender feeds and of the queue its receiver
/// drains.  A freshly created channel feeds its own receiver; the registry
/// links two channels by exchanging their receive endpoints.
#[verifier::reject_recursive_types(M)]
pub struct TaskChannel<M> {
    sender: flume::Sender<M>,
    receiver: flume::Receiver<M>,
    send_to: Ghost<nat>,
    recv_from: Ghost<nat>,
}

/// Two channels are linked when each one's receiver drains the queue the
/// other one's sender feeds, and the two queues are distinct.
pub open spec fn linked<M>(a: TaskChannel<M>, b: TaskChannel<M>) -> bool {
    &&& a.send_queue() == b.recv_queue()
    &&& b.send_queue() == a.recv_queue()
    &&& a.send_queue() != b.send_queue()
}

impl<M> TaskChannel<M> {
    /// The identity of the queue this channel's messages go into.
    pub closed spec fn send_queue(self) -> nat {
        self.send_to@
    }

    /// The identity of the queue this channel's receiver drains.
    pub closed spec fn recv_queue(self) -> nat {
        self.recv_from@
    }

    /// The send endpoint value itself, for contracts that pin down where an
    /// endpoint moved.
    pub closed spec fn spec_sender(self) -> flume::Sender<M> {
        self.sender
    }

    /// The receive endpoint value itself.
    pub closed spec fn spec_receiver(self) -> flume::Receiver<M> {
        self.receiver
    }

    /// A channel over one fresh queue, feeding its own receiver.  The ghost
    /// queue identity is chosen by the (crate-internal) caller.
    fn fresh(Ghost(queue): Ghost<nat>) -> (r: TaskChannel<M>)
        ensures
            r.send_queue() == queue,
            r.recv_queue() == queue,
    {
        let (sender, receiver) = queue_endpoints();
        TaskChannel { sender, receiver, send_to: Ghost(queue), recv_from: Ghost(queue) }
    }

    /// A standalone channel: one fresh queue, sender feeding its own
    /// receiver.  Channels meant to be linked to a peer come from
    /// [`ChannelRegistry::get_or_create`] instead.
    pub fn new() -> (r: TaskChannel<M>)
        ensures
            r.send_queue() == r.recv_queue(),
    {
        TaskChannel::fresh(Ghost(0))
    }

    /// Queue a message for the peer.  Never blocks (the queue is unbounded);
    /// fails, dropping the message, only when the peer's receive endpoint is
    /// gone.  Losing a message to a departed peer is deliberate best-effort
    /// behaviour, so the failure is reported, not propagated.
    pub fn send(&self, msg: M) -> Result<(), ()> {
        queue_send(&self.sender, msg)
    }

    /// Blocking receive: waits until a message arrives or every send endpoint
    /// feeding this channel is gone.
    pub fn recv(&self) -> Option<M> {
        queue_recv(&self.receiver)
    }

    /// Non-blocking receive: the oldest queued message, or nothing, at once.
    pub fn try_recv(&self) -> Option<M> {
        queue_try_recv(&self.receiver)
    }
}

impl<M> Clone for TaskChannel<M> {
    /// A clone is a further handle on the same two queues.
    fn clone(&self) -> (r: Self)
        ensures
            r.send_queue() == self.send_queue(),
            r.recv_queue() == self.recv_queue(),
    {
        TaskChannel {
            sender: self.sender.clone(),
            receiver: self.receiver.clone(),
            send_to: self.send_to,
            recv_from: self.recv_from,
        }
    }
}

/// Law: the two channels of one completed rendezvous are linked only to
/// each other, never across pairs, so pairs established under different
/// names (or by a later handshake under the same name) cannot cross-talk.
///
/// Each completing [`ChannelRegistry::get_or_create`] call hands the second
/// party a channel `c` and parks the counterpart `p`, and its contract gives
/// exactly the facts required here: the fresh queue that `c` feeds and `p`
/// drains carries the identity mark `k` of that call, and the older queue of
/// the pair lies below it.  Two completions never share a mark, since every
/// completion advances the mark it consumed.
pub proof fn lemma_pairs_are_private<M>(
    c1: TaskChannel<M>,
    p1: TaskChannel<M>,
    c2: TaskChannel<M>,
    p2: TaskChannel<M>,
    k1: nat,
    k2: nat,
)
    requires
        c1.send_queue() == k1 && p1.recv_queue() == k1,
        c1.recv_queue() < k1 && p1.send_queue() < k1,
        c2.send_queue() == k2 && p2.recv_queue() == k2,
        c2.recv_queue() < k2 && p2.send_queue() < k2,
        k1 != k2,
    ensures
        !linked(c1, c2),
        !linked(c1, p2),
        !linked(p1, c2),
        !linked(p1, p2),
{
}

//
// The rendezvous registry.
//

/// The per-name rendezvous state: either one side has registered and awaits
/// a peer, or the pairing is resolved and the counterpart channel is parked
/// here for pickup.
#[verifier::reject_recursive_types(M)]
pub enum PendingChannel<M> {
    /// One side registered, awaiting a peer.
    Waiting(TaskChannel<M>),
    /// Pairing resolved; the other side's (linked) channel is stored for
    /// pickup, e.g. after its owner reloads.
    Pending(TaskChannel<M>),
}

impl<M> PendingChannel<M> {
    /// The channel held in either state.
    pub open spec fn chan(self) -> TaskChannel<M> {
        match self {
            PendingChannel::Waiting(c) => c,
            PendingChannel::Pending(c) => c,
        }
    }
}

/// The rendezvous table as a map from channel name to its pending state.
pub open spec fn map_of<M>(s: Seq<(String, PendingChannel<M>)>) -> Map<
    Seq<char>,
    PendingChannel<M>,
>
    decreases s.len(),
{
    if s.len() == 0 {
        Map::empty()
    } else {
        map_of(s.drop_last()).insert(s.last().0@, s.last().1)
    }
}

/// Named rendezvous table: the one shared mutable resource of the core.  Two
/// independent tasks calling [`Self::get_or_create`] with the same name
/// become linked; the pairing handshake happens exactly once per pair of
/// calls.
#[verifier::reject_recursive_types(M)]
pub struct ChannelRegistry<M> {
    table: Vec<(String, PendingChannel<M>)>,
    next_queue: Ghost<nat>,
}

impl<M> ChannelRegistry<M> {
    /// The rendezvous state, one entry per registered name.
    pub closed spec fn entries(self) -> Map<Seq<char>, PendingChannel<M>> {
        map_of(self.table@)
    }

    /// The ghost supply of queue identities: every queue created so far has
    /// an identity below this mark, and each creation advances it.
    pub closed spec fn queue_counter(self) -> nat {
        self.next_queue@
    }

    /// Internal consistency: names are registered at most once, every stored
    /// queue identity is below the fresh-identity mark, and a waiting
    /// channel still feeds its own receiver.
    pub closed spec fn wf(self) -> bool {
        &&& forall|i: int, j: int|
            0 <= i < self.table@.len() && 0 <= j < self.table@.len() && i != j
                ==> #[trigger] self.table@[i].0@ != #[trigger] self.table@[j].0@
        &&& forall|i: int|
            0 <= i < self.table@.len() ==> {
                &&& (#[trigger] self.table@[i].1).chan().send_queue() < self.next_queue@
                &&& self.table@[i].1.chan().recv_queue() < self.next_queue@
                &&& self.table@[i].1 is Waiting
                    ==> self.table@[i].1.chan().send_queue()
                        == self.table@[i].1.chan().recv_queue()
            }
        &&& self.next_queue@ >= 1
    }
}

impl<M> ChannelRegistry<M> {
    /// An empty rendezvous table.
    pub fn new() -> (r: Self)
        ensures
            r.wf(),
            r.entries() =~= Map::<Seq<char>, PendingChannel<M>>::empty(),
    {
        ChannelRegistry { table: Vec::new(), next_queue: Ghost(1) }
    }

    /// The row registered under `key`, if any.
    fn find_entry(table: &Vec<(String, PendingChannel<M>)>, key: &String) -> (r: Option<usize>)
        ensures
            match r {
                Some(i) => i < table@.len() && table@[i as int].0@ == key@,
                None => forall|j: int| 0 <= j < table@.len() ==> #[trigger] table@[j].0@ != key@,
            },
    {
        let mut i: usize = 0;
        while i < table.len()
            invariant
                i <= table@.len(),
                forall|j: int| 0 <= j < i ==> #[trigger] table@[j].0@ != key@,
            decreases table@.len() - i,
        {
            if table[i].0 == *key {
                return Some(i);
            }
            i = i + 1;
        }
        None
    }

    /// Request or create the channel registered under `name`.
    ///
    /// - If the pairing for `name` was already resolved, the parked
    ///   counterpart channel is removed and returned: the "pick up the other
    ///   side" path, used e.g. when a task reloads and must re-acquire its
    ///   link to a still-live peer.
    /// - If another party is waiting under `name`, this caller is the second
    ///   party: a fresh channel is created, the two receive endpoints are
    ///   exchanged so each channel now drains what the other feeds, the
    ///   original (now linked) channel is parked for pickup, and the fresh
    ///   channel is returned.
    /// - Otherwise this caller is the first party: a fresh channel is
    ///   registered as waiting and no channel is returned; the caller must
    ///   retry on a later tick until a peer arrives.
    ///
    /// So, for every name, the first call returns nothing, and the second
    /// call returns a channel linked to the one the first caller picks up.
    pub fn get_or_create(&mut self, name: &str) -> (r: Option<TaskChannel<M>>)
        requires
            old(self).wf(),
        ensures
            final(self).wf(),
            old(self).queue_counter() <= final(self).queue_counter(),
            // first party: register as waiting, return nothing yet
            !old(self).entries().contains_key(name@) ==> {
                &&& r is None
                &&& final(self).queue_counter() == old(self).queue_counter() + 1
                &&& final(self).entries().contains_key(name@)
                &&& (final(self).entries()[name@] matches PendingChannel::Waiting(c)
                    && c.send_queue() == old(self).queue_counter()
                    && c.recv_queue() == old(self).queue_counter()
                    && final(self).entries() =~= old(self).entries().insert(
                    name@,
                    PendingChannel::Waiting(c),
                ))
            },
            // second party: link a fresh channel to the waiting one
            old(self).entries().contains_key(name@) ==> (old(self).entries()[name@] matches
                PendingChannel::Waiting(w) ==> {
                &&& final(self).queue_counter() == old(self).queue_counter() + 1
                &&& final(self).entries().contains_key(name@)
                &&& (final(self).entries()[name@] matches PendingChannel::Pending(p)
                    && r matches Some(c)
                    && linked(c, p)
                    && c.send_queue() == old(self).queue_counter()
                    && c.recv_queue() == w.recv_queue()
                    && c.recv_queue() < c.send_queue()
                    && c.spec_receiver() == w.spec_receiver()
                    && p.spec_sender() == w.spec_sender()
                    && p.send_queue() == w.send_queue()
                    && p.recv_queue() == old(self).queue_counter()
                    && p.send_queue() < p.recv_queue()
                    && final(self).entries() =~= old(self).entries().insert(
                    name@,
                    PendingChannel::Pending(p),
                ))
            }),
            // pickup: the parked counterpart leaves the table with the caller
            old(self).entries().contains_key(name@) ==> (old(self).entries()[name@] matches
                PendingChannel::Pending(p) ==> {
                &&& r == Some(p)
                &&& final(self).queue_counter() == old(self).queue_counter()
                &&& final(self).entries() =~= old(self).entries().remove(name@)
            }),
    {
        let key: String = String::from_str(name);
        let ghost t0 = self.table@;
        proof {
            lemma_map_of_contains(t0, name@);
        }
        match Self::find_entry(&self.table, &key) {
            None => {
                let ghost q = self.next_queue@;
                let chan = TaskChannel::fresh(Ghost(q));
                self.table.push((key, PendingChannel::Waiting(chan)));
                self.next_queue = Ghost(q + 1);
                proof {
                    assert(self.table@.drop_last() =~= t0);
                    assert(forall|j: int|
                        0 <= j < t0.len() ==> #[trigger] self.table@[j] == t0[j]);
                }
                None
            },
            Some(i) => {
                proof {
                    lemma_map_of_value(t0, i as int);
                    lemma_map_of_remove(t0, i as int);
                }
                let pair = self.table.remove(i);
                proof {
                    assert(forall|j: int|
                        0 <= j < self.table@.len() ==> #[trigger] self.table@[j] == if j < i {
                            t0[j]
                        } else {
                            t0[j + 1]
                        });
                }
                match pair.1 {
                    PendingChannel::Pending(accepted) => {
                        proof {
                            assert(map_of(self.table@) =~= map_of(t0).remove(name@));
                        }
                        Some(accepted)
                    },
                    PendingChannel::Waiting(matching) => {
                        let ghost t1 = self.table@;
                        let ghost q = self.next_queue@;
                        let (fresh_sender, fresh_receiver) = queue_endpoints();
                        let TaskChannel {
                            sender: waiting_sender,
                            receiver: waiting_receiver,
                            send_to: waiting_send_to,
                            recv_from: waiting_recv_from,
                        } = matching;
                        // exchange the receive endpoints, so each channel now
                        // drains the queue the other one feeds
                        let new_chan = TaskChannel {
                            sender: fresh_sender,
                            receiver: waiting_receiver,
                            send_to: Ghost(q),
                            recv_from: waiting_recv_from,
                        };
                        let parked = TaskChannel {
                            sender: waiting_sender,
                            receiver: fresh_receiver,
                            send_to: waiting_send_to,
                            recv_from: Ghost(q),
                        };
                        self.table.push((key, PendingChannel::Pending(parked)));
                        self.next_queue = Ghost(q + 1);
                        proof {
                            assert(self.table@.drop_last() =~= t1);
                            assert(forall|j: int|
                                0 <= j < t1.len() ==> #[trigger] self.table@[j] == t1[j]);
                            assert(map_of(self.table@) =~= map_of(t0).insert(
                                name@,
                                PendingChannel::Pending(parked),
                            ));
                        }
                        Some(new_chan)
                    },
                }
            },
        }
    }
}

/// A name is in the table's map exactly when some row holds it.
proof fn lemma_map_of_contains<M>(s: Seq<(String, PendingChannel<M>)>, k: Seq<char>)
    ensures
        map_of(s).contains_key(k) <==> exists|i: int| 0 <= i < s.len() && #[trigger] s[i].0@ == k,
    decreases s.len(),
{
    if s.len() > 0 {
        lemma_map_of_contains(s.drop_last(), k);
        if s.last().0@ == k {
            assert(s[s.len() - 1].0@ == k);
        } else if map_of(s).contains_key(k) {
            let i = choose|i: int| 0 <= i < s.drop_last().len() && #[trigger] s.drop_last()[i].0@
                == k;
            assert(s[i].0@ == k);
        } else if exists|i: int| 0 <= i < s.len() && #[trigger] s[i].0@ == k {
            let i = choose|i: int| 0 <= i < s.len() && #[trigger] s[i].0@ == k;
            assert(s.drop_last()[i].0@ == k);
        }
    }
}

/// With names registered at most once, the map sends a row's name to that
/// row's state.
proof fn lemma_map_of_value<M>(s: Seq<(String, PendingChannel<M>)>, i: int)
    requires
        0 <= i < s.len(),
        forall|a: int, b: int|
            0 <= a < s.len() && 0 <= b < s.len() && a != b
                ==> #[trigger] s[a].0@ != #[trigger] s[b].0@,
    ensures
        map_of(s).contains_key(s[i].0@),
        map_of(s)[s[i].0@] == s[i].1,
    decreases s.len(),
{
    if i == s.len() - 1 {
    } else {
        lemma_map_of_value(s.drop_last(), i);
        assert(s.drop_last()[i] == s[i]);
        assert(s.last().0@ != s[i].0@);
    }
}

/// With names registered at most once, removing a row removes exactly that
/// row's name from the map.
proof fn lemma_map_of_remove<M>(s: Seq<(String, PendingChannel<M>)>, i: int)
    requires
        0 <= i < s.len(),
        forall|a: int, b: int|
            0 <= a < s.len() && 0 <= b < s.len() && a != b
                ==> #[trigger] s[a].0@ != #[trigger] s[b].0@,
    ensures
        map_of(s.remove(i)) =~= map_of(s).remove(s[i].0@),
    decreases s.len(),
{
    lemma_map_of_contains(s.remove(i), s[i].0@);
    assert(forall|j: int|
        0 <= j < s.remove(i).len() ==> #[trigger] s.remove(i)[j] == if j < i {
            s[j]
        } else {
            s[j + 1]
        });
    if i == s.len() - 1 {
        assert(s.remove(i) =~= s.drop_last());
        lemma_map_of_contains(s.drop_last(), s[i].0@);
    } else {
        assert(s.remove(i).drop_last() =~= s.drop_last().remove(i));
        assert(s.remove(i).last() == s.last());
        lemma_map_of_remove(s.drop_last(), i);
        assert(s.drop_last()[i] == s[i]);
        assert(map_of(s.remove(i)) == map_of(s.drop_last().remove(i)).insert(
            s.last().0@,
            s.last().1,
        ));
        assert(s.last().0@ != s[i].0@);
    }
}

} // verus!
