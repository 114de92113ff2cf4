//! The ledger of background fetches.
//!
//! Each fetch of a source runs on its own, outside this library. The ledger
//! keeps what is in flight: a fetch enters it when it is dispatched, learns
//! its outcome when the work is done, and leaves when the outcome is polled.
//! Whoever runs the work hands each outcome back under the ticket that the
//! dispatch gave out.

use vstd::multiset::Multiset;
use vstd::prelude::*;

use crate::feed::{Feed, FeedErrorView, FeedResult, FeedSource, FeedSourceView, FeedView};

verus! {

/// What a fetch gave, as contracts see it.
pub type Outcome = Result<FeedView, FeedErrorView>;

/// The outcome of a fetch as contracts see it.
pub open spec fn outcome_of(result: FeedResult<Feed>) -> Outcome {
    match result {
        Ok(feed) => Ok(feed@),
        Err(error) => Err(error@),
    }
}

/// One fetch in flight: the source it fetches, the name it goes by, and its
/// outcome once the work is done.
#[derive(Debug)]
pub struct Worker {
    ticket: u64,
    name: String,
    source: FeedSource,
    outcome: Option<FeedResult<Feed>>,
}

/// A [`Worker`] as contracts see it.
pub struct WorkerView {
    pub ticket: u64,
    pub name: Seq<char>,
    pub source: FeedSourceView,
    pub outcome: Option<Outcome>,
}

impl View for Worker {
    type V = WorkerView;

    closed spec fn view(&self) -> WorkerView {
        WorkerView {
            ticket: self.ticket,
            name: self.name@,
            source: self.source@,
            outcome: match self.outcome {
                Some(result) => Some(outcome_of(result)),
                None => None,
            },
        }
    }
}

impl Worker {
    /// A fetch of `source` under the name `name`, whose work is not done.
    pub fn new(ticket: u64, name: String, source: FeedSource) -> (worker: Worker)
        ensures
            worker@ == (WorkerView { ticket, name: name@, source: source@, outcome: None }),
    {
        Worker { ticket, name, source, outcome: None }
    }

    /// The ticket under which the outcome is handed back.
    pub fn ticket(&self) -> (ticket: u64)
        ensures
            ticket == self@.ticket,
    {
        self.ticket
    }

    /// The name that the fetch goes by.
    pub fn name(&self) -> (name: &String)
        ensures
            name@ == self@.name,
    {
        &self.name
    }

    /// The source that is fetched.
    pub fn source(&self) -> (source: &FeedSource)
        ensures
            source@ == self@.source,
    {
        &self.source
    }

    /// Ends the work with its outcome. The first outcome counts: a worker
    /// that has one keeps it.
    pub fn stop(&mut self, outcome: FeedResult<Feed>)
        ensures
            final(self)@ == (WorkerView {
                outcome: if old(self)@.outcome is Some {
                    old(self)@.outcome
                } else {
                    Some(outcome_of(outcome))
                },
                ..old(self)@
            }),
    {
        if self.outcome.is_none() {
            self.outcome = Some(outcome);
        }
    }

    /// Returns whether the work is done, so that joining gives its outcome.
    pub fn is_joinable(&self) -> (r: bool)
        ensures
            r == self@.outcome is Some,
    {
        self.outcome.is_some()
    }

    /// Consumes the worker and returns its name with its outcome.
    pub fn join(self) -> (product: (String, FeedResult<Feed>))
        requires
            self@.outcome is Some,
        ensures
            product.0@ == self@.name,
            Some(outcome_of(product.1)) == self@.outcome,
    {
        let Worker { name, outcome, .. } = self;
        (name, outcome.unwrap())
    }
}

/// The fetches in flight, in the order of their dispatch.
pub struct PoolView {
    pub workers: Seq<WorkerView>,
    pub next_ticket: u64,
}

/// The index of the first worker whose work is done, if there is one.
pub open spec fn first_done(workers: Seq<WorkerView>) -> Option<int>
    decreases workers.len(),
{
    if workers.len() == 0 {
        None
    } else if workers[0].outcome is Some {
        Some(0)
    } else {
        match first_done(workers.skip(1)) {
            Some(i) => Some(i + 1),
            None => None,
        }
    }
}

/// The index of the worker with the ticket `ticket`, if there is one.
pub open spec fn ticket_index(workers: Seq<WorkerView>, ticket: u64) -> Option<int>
    decreases workers.len(),
{
    if workers.len() == 0 {
        None
    } else if workers[0].ticket == ticket {
        Some(0)
    } else {
        match ticket_index(workers.skip(1), ticket) {
            Some(i) => Some(i + 1),
            None => None,
        }
    }
}

/// The pool after a fetch of `source` was dispatched under `name`.
pub open spec fn dispatched(pool: PoolView, name: Seq<char>, source: FeedSourceView) -> PoolView {
    PoolView {
        workers: pool.workers.push(
            WorkerView { ticket: pool.next_ticket, name, source, outcome: None },
        ),
        next_ticket: (pool.next_ticket + 1) as u64,
    }
}

/// The pool after the work under `ticket` ended with `outcome`. A ticket
/// that is not in flight, or whose work is done, changes nothing.
pub open spec fn completed(pool: PoolView, ticket: u64, outcome: Outcome) -> PoolView {
    match ticket_index(pool.workers, ticket) {
        Some(i) => if pool.workers[i].outcome is None {
            PoolView {
                workers: pool.workers.update(
                    i,
                    WorkerView { outcome: Some(outcome), ..pool.workers[i] },
                ),
                ..pool
            }
        } else {
            pool
        },
        None => pool,
    }
}

/// The pool after a poll: the first worker whose work is done has left.
pub open spec fn polled(pool: PoolView) -> PoolView {
    match first_done(pool.workers) {
        Some(i) => PoolView { workers: pool.workers.remove(i), ..pool },
        None => pool,
    }
}

/// What a poll returns: the name and the outcome of the first worker whose
/// work is done.
pub open spec fn poll_product(pool: PoolView) -> Option<(Seq<char>, Outcome)> {
    match first_done(pool.workers) {
        Some(i) => Some((pool.workers[i].name, pool.workers[i].outcome.unwrap())),
        None => None,
    }
}

/// The names of the fetches in flight, each as often as it was dispatched
/// and not polled.
pub open spec fn names_in_flight(workers: Seq<WorkerView>) -> Multiset<Seq<char>> {
    names_of(workers).to_multiset()
}

/// The names of `workers`, in their order.
pub open spec fn names_of(workers: Seq<WorkerView>) -> Seq<Seq<char>> {
    workers.map_values(|worker: WorkerView| worker.name)
}

spec fn tickets_ascend(workers: Seq<WorkerView>, next_ticket: u64) -> bool {
    &&& forall|i: int, j: int|
        0 <= i < j < workers.len() ==> (#[trigger] workers[i]).ticket < (
        #[trigger] workers[j]).ticket
    &&& forall|i: int| 0 <= i < workers.len() ==> (#[trigger] workers[i]).ticket < next_ticket
}

spec fn views_of(workers: Seq<Worker>) -> Seq<WorkerView> {
    workers.map_values(|worker: Worker| worker@)
}

proof fn lemma_first_done(workers: Seq<WorkerView>, i: int)
    requires
        0 <= i <= workers.len(),
        forall|k: int| 0 <= k < i ==> (#[trigger] workers[k]).outcome is None,
        i < workers.len() ==> workers[i].outcome is Some,
    ensures
        first_done(workers) == if i < workers.len() {
            Some(i)
        } else {
            None
        },
    decreases workers.len(),
{
    if workers.len() > 0 && i > 0 {
        let rest = workers.skip(1);
        assert forall|k: int| 0 <= k < i - 1 implies (#[trigger] rest[k]).outcome is None by {
            assert(rest[k] == workers[k + 1]);
        }
        lemma_first_done(rest, i - 1);
    }
}

proof fn lemma_ticket_index(workers: Seq<WorkerView>, ticket: u64, i: int)
    requires
        0 <= i <= workers.len(),
        forall|k: int| 0 <= k < i ==> (#[trigger] workers[k]).ticket != ticket,
        i < workers.len() ==> workers[i].ticket == ticket,
    ensures
        ticket_index(workers, ticket) == if i < workers.len() {
            Some(i)
        } else {
            None
        },
    decreases workers.len(),
{
    if workers.len() > 0 && i > 0 {
        let rest = workers.skip(1);
        assert forall|k: int| 0 <= k < i - 1 implies (#[trigger] rest[k]).ticket != ticket by {
            assert(rest[k] == workers[k + 1]);
        }
        lemma_ticket_index(rest, ticket, i - 1);
    }
}

/// The pool of background fetches: what was dispatched and not polled yet.
#[derive(Debug)]
pub struct FeedClient {
    workers: Vec<Worker>,
    next_ticket: u64,
}

impl View for FeedClient {
    type V = PoolView;

    closed spec fn view(&self) -> PoolView {
        PoolView { workers: views_of(self.workers@), next_ticket: self.next_ticket }
    }
}

impl Default for FeedClient {
    fn default() -> (client: FeedClient)
        ensures
            client@.workers == Seq::<WorkerView>::empty(),
            client@.next_ticket == 0,
    {
        let client = FeedClient { workers: Vec::new(), next_ticket: 0 };
        assert(client@.workers =~= Seq::<WorkerView>::empty());
        client
    }
}

impl FeedClient {
    #[verifier::type_invariant]
    spec fn tickets_are_unique(self) -> bool {
        tickets_ascend(views_of(self.workers@), self.next_ticket)
    }

    /// Enters a fetch of `source` under the name `name`, and returns the
    /// ticket under which its outcome is to be handed back. A second fetch
    /// under a name that is in flight is a fetch of its own.
    pub fn fetch(&mut self, name: &str, source: &FeedSource) -> (ticket: u64)
        requires
            old(self)@.next_ticket < u64::MAX,
        ensures
            final(self)@ == dispatched(old(self)@, name@, source@),
            ticket == old(self)@.next_ticket,
    {
        proof {
            use_type_invariant(&*self);
        }
        let ticket = self.next_ticket;
        let worker = Worker::new(ticket, String::from_str(name), source.clone());
        let ghost before = views_of(self.workers@);
        let mut workers: Vec<Worker> = Vec::new();
        core::mem::swap(&mut self.workers, &mut workers);
        workers.push(worker);
        assert(views_of(workers@) =~= before.push(worker@));
        self.next_ticket = ticket + 1;
        self.workers = workers;
        ticket
    }

    /// Hands the outcome of the work under `ticket` to the pool, and
    /// returns whether the pool took it: it does so for a ticket that is in
    /// flight and has no outcome yet.
    pub fn complete(&mut self, ticket: u64, outcome: FeedResult<Feed>) -> (taken: bool)
        ensures
            final(self)@ == completed(old(self)@, ticket, outcome_of(outcome)),
            taken == (final(self)@ != old(self)@),
    {
        proof {
            use_type_invariant(&*self);
        }
        let ghost before = views_of(self.workers@);
        let mut i: usize = 0;
        while i < self.workers.len() && self.workers[i].ticket != ticket
            invariant
                i <= self.workers.len(),
                before == views_of(self.workers@),
                forall|k: int| 0 <= k < i ==> (#[trigger] before[k]).ticket != ticket,
            decreases self.workers.len() - i,
        {
            i += 1;
        }
        proof {
            lemma_ticket_index(before, ticket, i as int);
        }
        if i < self.workers.len() && self.workers[i].outcome.is_none() {
            let mut workers: Vec<Worker> = Vec::new();
            core::mem::swap(&mut self.workers, &mut workers);
            workers[i].stop(outcome);
            assert(views_of(workers@) =~= before.update(
                i as int,
                WorkerView { outcome: Some(outcome_of(outcome)), ..before[i as int] },
            ));
            self.workers = workers;
            assert(self@.workers[i as int] != before[i as int]);
            true
        } else {
            false
        }
    }

    /// Returns the name and the outcome of a fetch whose work is done, and
    /// removes that fetch from the pool. Of several such fetches it takes
    /// the one that was dispatched first. Returns nothing, at once, where no
    /// work is done.
    pub fn poll(&mut self) -> (product: Option<(String, FeedResult<Feed>)>)
        ensures
            final(self)@ == polled(old(self)@),
            match product {
                Some((name, result)) => Some((name@, outcome_of(result))) == poll_product(
                    old(self)@,
                ),
                None => poll_product(old(self)@) is None,
            },
    {
        proof {
            use_type_invariant(&*self);
        }
        let ghost before = views_of(self.workers@);
        let mut i: usize = 0;
        while i < self.workers.len() && !self.workers[i].is_joinable()
            invariant
                i <= self.workers.len(),
                before == views_of(self.workers@),
                forall|k: int| 0 <= k < i ==> (#[trigger] before[k]).outcome is None,
            decreases self.workers.len() - i,
        {
            i += 1;
        }
        proof {
            lemma_first_done(before, i as int);
        }
        if i < self.workers.len() {
            let mut workers: Vec<Worker> = Vec::new();
            core::mem::swap(&mut self.workers, &mut workers);
            let worker = workers.remove(i);
            assert(views_of(workers@) =~= before.remove(i as int));
            self.workers = workers;
            Some(worker.join())
        } else {
            None
        }
    }

    /// The ticket that the next fetch will get, which is the number of
    /// fetches dispatched so far.
    pub fn next_ticket(&self) -> (ticket: u64)
        ensures
            ticket == self@.next_ticket,
    {
        self.next_ticket
    }

    /// Returns whether the pool has fetches that were dispatched and not
    /// polled yet.
    pub fn running(&self) -> (r: bool)
        ensures
            r == (self@.workers.len() > 0),
    {
        !self.workers.is_empty()
    }
}

/// What can happen to a pool.
pub enum PoolEvent {
    /// A fetch of a source is dispatched under a name.
    Fetch(Seq<char>, FeedSourceView),
    /// The work under a ticket ends with an outcome.
    Complete(u64, Outcome),
    /// The pool is polled.
    Poll,
}

/// The pool after `event`.
pub open spec fn after(pool: PoolView, event: PoolEvent) -> PoolView {
    match event {
        PoolEvent::Fetch(name, source) => dispatched(pool, name, source),
        PoolEvent::Complete(ticket, outcome) => completed(pool, ticket, outcome),
        PoolEvent::Poll => polled(pool),
    }
}

/// The pool after each of `events`, in their order.
pub open spec fn after_all(pool: PoolView, events: Seq<PoolEvent>) -> PoolView
    decreases events.len(),
{
    if events.len() == 0 {
        pool
    } else {
        after(after_all(pool, events.drop_last()), events.last())
    }
}

/// The names under which `events` dispatch a fetch, each as often as they
/// do.
pub open spec fn fetched(events: Seq<PoolEvent>) -> Multiset<Seq<char>>
    decreases events.len(),
{
    if events.len() == 0 {
        Multiset::empty()
    } else {
        match events.last() {
            PoolEvent::Fetch(name, _) => fetched(events.drop_last()).insert(name),
            _ => fetched(events.drop_last()),
        }
    }
}

/// The names that the polls among `events` return when the events happen
/// to `pool`, each as often as it is returned.
pub open spec fn yielded(pool: PoolView, events: Seq<PoolEvent>) -> Multiset<Seq<char>>
    decreases events.len(),
{
    if events.len() == 0 {
        Multiset::empty()
    } else {
        let earlier = yielded(pool, events.drop_last());
        match events.last() {
            PoolEvent::Poll => match poll_product(after_all(pool, events.drop_last())) {
                Some(product) => earlier.insert(product.0),
                None => earlier,
            },
            _ => earlier,
        }
    }
}

/// A pool without fetches in flight.
pub open spec fn idle_pool() -> PoolView {
    PoolView { workers: Seq::empty(), next_ticket: 0 }
}

/// A poll of a pool in which no fetch is in flight returns nothing and
/// leaves the pool as it is.
pub proof fn lemma_poll_of_idle_pool(pool: PoolView)
    requires
        pool.workers.len() == 0,
    ensures
        poll_product(pool) is None,
        polled(pool) == pool,
{
}

proof fn lemma_first_done_in_range(workers: Seq<WorkerView>)
    ensures
        match first_done(workers) {
            Some(i) => 0 <= i < workers.len() && workers[i].outcome is Some,
            None => true,
        },
    decreases workers.len(),
{
    if workers.len() > 0 && workers[0].outcome is None {
        lemma_first_done_in_range(workers.skip(1));
    }
}

proof fn lemma_ticket_index_in_range(workers: Seq<WorkerView>, ticket: u64)
    ensures
        match ticket_index(workers, ticket) {
            Some(i) => 0 <= i < workers.len(),
            None => true,
        },
    decreases workers.len(),
{
    if workers.len() > 0 && workers[0].ticket != ticket {
        lemma_ticket_index_in_range(workers.skip(1), ticket);
    }
}

proof fn lemma_balance_moves(
    a: Multiset<Seq<char>>,
    b: Multiset<Seq<char>>,
    c: Multiset<Seq<char>>,
    d: Multiset<Seq<char>>,
    name: Seq<char>,
)
    requires
        a.add(b) == c.add(d),
    ensures
        a.insert(name).add(b) == c.add(d.insert(name)),
        d.count(name) > 0 ==> a.add(b) == c.insert(name).add(d.remove(name)),
{
    broadcast use vstd::multiset::group_multiset_axioms;

    assert forall|v: Seq<char>| #[trigger] a.count(v) + b.count(v) == c.count(v) + d.count(v) by {
        vstd::multiset::axiom_multiset_add(a, b, v);
        vstd::multiset::axiom_multiset_add(c, d, v);
    }
    assert(a.insert(name).add(b) =~= c.add(d.insert(name)));
    if d.count(name) > 0 {
        assert(a.add(b) =~= c.insert(name).add(d.remove(name)));
    }
}

/// Whatever happens to a pool, no dispatched fetch is lost and none is
/// returned twice: the names dispatched, with those that were in flight at
/// the start, are the names that the polls returned, with those still in
/// flight at the end.
pub proof fn lemma_every_fetch_yields_once(pool: PoolView, events: Seq<PoolEvent>)
    ensures
        fetched(events).add(names_in_flight(pool.workers)) == yielded(pool, events).add(
            names_in_flight(after_all(pool, events).workers),
        ),
    decreases events.len(),
{
    broadcast use vstd::multiset::group_multiset_axioms;

    if events.len() == 0 {
        assert(fetched(events).add(names_in_flight(pool.workers)) =~= yielded(pool, events).add(
            names_in_flight(after_all(pool, events).workers),
        ));
    } else {
        let earlier = events.drop_last();
        lemma_every_fetch_yields_once(pool, earlier);
        let before = after_all(pool, earlier);
        let now = after(before, events.last());
        match events.last() {
            PoolEvent::Fetch(name, source) => {
                let worker = WorkerView {
                    ticket: before.next_ticket,
                    name,
                    source,
                    outcome: None,
                };
                assert(names_of(before.workers.push(worker)) =~= names_of(before.workers).push(
                    name,
                ));
                vstd::seq_lib::to_multiset_build(names_of(before.workers), name);
                lemma_balance_moves(
                    fetched(earlier),
                    names_in_flight(pool.workers),
                    yielded(pool, earlier),
                    names_in_flight(before.workers),
                    name,
                );
                assert(fetched(events).add(names_in_flight(pool.workers)) =~= yielded(
                    pool,
                    events,
                ).add(names_in_flight(now.workers)));
            },
            PoolEvent::Complete(ticket, outcome) => {
                lemma_ticket_index_in_range(before.workers, ticket);
                assert(names_of(now.workers) =~= names_of(before.workers));
                assert(fetched(events).add(names_in_flight(pool.workers)) =~= yielded(
                    pool,
                    events,
                ).add(names_in_flight(now.workers)));
            },
            PoolEvent::Poll => {
                lemma_first_done_in_range(before.workers);
                match first_done(before.workers) {
                    Some(i) => {
                        let names = names_of(before.workers);
                        assert(names_of(before.workers.remove(i)) =~= names.remove(i));
                        vstd::seq_lib::to_multiset_remove(names, i);
                        names.to_multiset_ensures();
                        assert(names[i] == before.workers[i].name);
                        assert(names.contains(before.workers[i].name));
                        assert(names.to_multiset().count(before.workers[i].name) > 0);
                        lemma_balance_moves(
                            fetched(earlier),
                            names_in_flight(pool.workers),
                            yielded(pool, earlier),
                            names_in_flight(before.workers),
                            before.workers[i].name,
                        );
                        assert(fetched(events).add(names_in_flight(pool.workers)) =~= yielded(
                            pool,
                            events,
                        ).add(names_in_flight(now.workers)));
                    },
                    None => {
                        assert(fetched(events).add(names_in_flight(pool.workers)) =~= yielded(
                            pool,
                            events,
                        ).add(names_in_flight(now.workers)));
                    },
                }
            },
        }
    }
}

/// Once a pool that started idle is idle again, its polls have returned
/// exactly the names that were dispatched, each as often as it was
/// dispatched.
pub proof fn lemma_drained_pool_yielded_all(events: Seq<PoolEvent>)
    requires
        after_all(idle_pool(), events).workers.len() == 0,
    ensures
        yielded(idle_pool(), events) == fetched(events),
        yielded(idle_pool(), events).len() == fetched(events).len(),
{
    broadcast use vstd::multiset::group_multiset_axioms;

    lemma_every_fetch_yields_once(idle_pool(), events);
    assert(names_of(idle_pool().workers) =~= Seq::<Seq<char>>::empty());
    assert(names_of(after_all(idle_pool(), events).workers) =~= Seq::<Seq<char>>::empty());
    Seq::<Seq<char>>::empty().to_multiset_ensures();
    assert(names_in_flight(idle_pool().workers) =~= Multiset::<Seq<char>>::empty());
    assert forall|v: Seq<char>| yielded(idle_pool(), events).count(v) == fetched(events).count(
        v,
    ) by {
        assert(fetched(events).add(Multiset::<Seq<char>>::empty()).count(v) == yielded(
            idle_pool(),
            events,
        ).add(Multiset::<Seq<char>>::empty()).count(v));
    }
    assert(yielded(idle_pool(), events) =~= fetched(events));
}

} // verus!
