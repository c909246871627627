//! The process monitor's coordination core: the table pairing each spawned
//! process id with the one-shot sink that its completion notice is owed to.
//!
//! The table is the single piece of shared state in the monitor. `register`
//! inserts an entry at spawn time; `deliver` removes it exactly once when the
//! reaper observes the process's termination, fulfilling the sink. The
//! exactly-once and no-zombie guarantees are stated and proved over the
//! table's map model at the end of this file.

use std::collections::HashMap;

use vstd::prelude::*;

use crate::error::{ExitStatus, RuncError};

verus! {

broadcast use vstd::std_specs::hash::group_hash_axioms;

/// The completion notice owed to one waiter: which process ended and how.
#[derive(Debug, Clone, Copy)]
pub struct Exit {
    pub pid: u32,
    pub status: ExitStatus,
}

#[verifier::external_type_specification]
#[verifier::external_body]
#[verifier::reject_recursive_types(T)]
pub struct ExSender<T>(tokio::sync::oneshot::Sender<T>);

#[verifier::external_type_specification]
#[verifier::external_body]
#[verifier::reject_recursive_types(T)]
pub struct ExReceiver<T>(tokio::sync::oneshot::Receiver<T>);

#[verifier::external_type_specification]
#[verifier::external_body]
pub struct ExRecvError(tokio::sync::oneshot::error::RecvError);

/// Relies on `tokio::sync::oneshot::Sender::send`: hands `exit` to the
/// paired receiver, consuming the sender; hands `exit` back when the
/// receiver was already dropped.
#[verifier::external_body]
fn send_exit(tx: tokio::sync::oneshot::Sender<Exit>, exit: Exit) -> (r: Result<(), Exit>)
    ensures
        r matches Err(e) ==> e == exit,
{
    tx.send(exit)
}

/// Relies on `tokio::sync::oneshot::Receiver::blocking_recv`: blocks the
/// calling thread until the paired sender sends a notice or is dropped, and
/// returns the notice exactly as it was sent, or nothing when the sender
/// was dropped. Must be called outside any asynchronous execution context;
/// inside one the call panics.
#[verifier::external_body]
fn recv_exit(rx: tokio::sync::oneshot::Receiver<Exit>) -> Option<Exit> {
    match rx.blocking_recv() {
        Ok(e) => Some(e),
        Err(_) => None,
    }
}

/// Blocks until the completion notice for the process registered against
/// this receiver's sender arrives. Waiting consumes the receiver, so a
/// second wait on the same registration is impossible; a sink whose sender
/// was dropped unfulfilled yields the channel-closed error.
pub fn wait_exit(rx: tokio::sync::oneshot::Receiver<Exit>) -> (r: Result<Exit, RuncError>)
    ensures
        r matches Err(e) ==> e is ChannelClosed,
{
    match recv_exit(rx) {
        Some(e) => Ok(e),
        None => Err(RuncError::ChannelClosed),
    }
}

/// The reaper's bookkeeping: one entry per in-flight process, pairing its
/// process id with the sink its completion notice is owed to.
pub struct WaiterTable {
    table: HashMap<u32, tokio::sync::oneshot::Sender<Exit>>,
}

impl View for WaiterTable {
    type V = Map<u32, tokio::sync::oneshot::Sender<Exit>>;

    closed spec fn view(&self) -> Map<u32, tokio::sync::oneshot::Sender<Exit>> {
        self.table@
    }
}

impl WaiterTable {
    /// A table with no in-flight processes.
    pub fn new() -> (r: Self)
        ensures
            r@ == Map::<u32, tokio::sync::oneshot::Sender<Exit>>::empty(),
    {
        WaiterTable { table: HashMap::new() }
    }

    /// How many processes are in flight.
    pub fn len(&self) -> (r: usize)
        ensures
            r == self@.len(),
    {
        self.table.len()
    }

    /// Whether no process is in flight.
    pub fn is_empty(&self) -> (r: bool)
        ensures
            r == self@.is_empty(),
    {
        self.table.is_empty()
    }

    /// Records that the process `pid` was spawned and that its completion
    /// notice is owed to `tx`.
    pub fn register(&mut self, pid: u32, tx: tokio::sync::oneshot::Sender<Exit>)
        ensures
            final(self)@ == old(self)@.insert(pid, tx),
    {
        self.table.insert(pid, tx);
    }

    /// Removes and returns the sink registered for `pid`, if one is.
    pub fn take(&mut self, pid: u32) -> (r: Option<tokio::sync::oneshot::Sender<Exit>>)
        ensures
            final(self)@ == old(self)@.remove(pid),
            r is Some <==> old(self)@.contains_key(pid),
            r matches Some(tx) ==> tx == old(self)@[pid],
    {
        self.table.remove(&pid)
    }

    /// Fulfills the sink registered for `pid` with the completion notice
    /// `Exit { pid, status }` and discards the bookkeeping entry; the notice
    /// goes nowhere when no sink was registered (true exactly when one was).
    /// A waiter that already dropped its receiver loses the notice, nothing
    /// more.
    pub fn deliver(&mut self, pid: u32, status: ExitStatus) -> (r: bool)
        ensures
            final(self)@ == old(self)@.remove(pid),
            r == old(self)@.contains_key(pid),
            (final(self)@, r) == reap_one(old(self)@, pid),
    {
        match self.take(pid) {
            Some(tx) => {
                let _ = send_exit(tx, Exit { pid, status });
                true
            },
            None => false,
        }
    }
}

/// One reaping step over the table model: the entry for `pid` leaves the
/// table, and a notice is delivered exactly when an entry was there.
pub open spec fn reap_one(m: Map<u32, tokio::sync::oneshot::Sender<Exit>>, pid: u32) -> (
    Map<u32, tokio::sync::oneshot::Sender<Exit>>,
    bool,
) {
    (m.remove(pid), m.contains_key(pid))
}

/// Reaping a whole sequence of process terminations, in the order the
/// operating system reports them: the final table and, for each step,
/// whether a notice was delivered.
pub open spec fn reap_all(m: Map<u32, tokio::sync::oneshot::Sender<Exit>>, order: Seq<u32>) -> (
    Map<u32, tokio::sync::oneshot::Sender<Exit>>,
    Seq<bool>,
)
    decreases order.len(),
{
    if order.len() == 0 {
        (m, Seq::empty())
    } else {
        let first = reap_one(m, order.first());
        let rest = reap_all(first.0, order.drop_first());
        (rest.0, seq![first.1] + rest.1)
    }
}

/// Exactly-once delivery and no zombie accumulation: when every registered
/// process terminates, in any order, each waiter receives a notice at its
/// process's own reaping step, and the bookkeeping table ends empty.
pub proof fn lemma_exactly_once_delivery(
    m: Map<u32, tokio::sync::oneshot::Sender<Exit>>,
    order: Seq<u32>,
)
    requires
        m.dom().finite(),
        order.no_duplicates(),
        order.to_set() == m.dom(),
    ensures
        reap_all(m, order).0 == Map::<u32, tokio::sync::oneshot::Sender<Exit>>::empty(),
        reap_all(m, order).1.len() == order.len(),
        forall|i: int| 0 <= i < order.len() ==> reap_all(m, order).1[i],
    decreases order.len(),
{
    if order.len() == 0 {
        assert(m.dom() =~= Set::<u32>::empty());
        assert(m =~= Map::<u32, tokio::sync::oneshot::Sender<Exit>>::empty());
    } else {
        let pid = order.first();
        let rest = order.drop_first();
        let m1 = m.remove(pid);
        assert(order.contains(pid));
        assert(m.dom().contains(pid));
        assert(rest.no_duplicates()) by {
            assert(forall|i: int, j: int|
                0 <= i < j < rest.len() ==> rest[i] == order[i + 1] && rest[j] == order[j + 1]);
        }
        assert(rest.to_set() =~= m1.dom()) by {
            assert forall|x: u32| rest.to_set().contains(x) implies m1.dom().contains(x) by {
                let k = choose|k: int| 0 <= k < rest.len() && rest[k] == x;
                assert(order[k + 1] == x);
                assert(order.contains(x));
                assert(x != pid) by {
                    if x == pid {
                        assert(order[0] == pid && order[k + 1] == pid);
                    }
                }
            }
            assert forall|x: u32| m1.dom().contains(x) implies rest.to_set().contains(x) by {
                assert(m.dom().contains(x) && x != pid);
                assert(order.contains(x));
                let k = choose|k: int| 0 <= k < order.len() && order[k] == x;
                assert(k != 0);
                assert(rest[k - 1] == x);
                assert(rest.contains(x));
            }
        }
        lemma_exactly_once_delivery(m1, rest);
        assert(reap_all(m, order).1 =~= seq![true] + reap_all(m1, rest).1);
    }
}

/// No double delivery: once a process's termination was reaped, a second
/// reaping of the same process id delivers nothing.
pub proof fn lemma_no_double_delivery(
    m: Map<u32, tokio::sync::oneshot::Sender<Exit>>,
    pid: u32,
)
    ensures
        !reap_one(reap_one(m, pid).0, pid).1,
{
}

} // verus!
