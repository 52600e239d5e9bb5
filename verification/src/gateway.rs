//! The admission gateway: a queue of requests to the storage backend of
//! which at most a fixed number are under way at any time.
//!
//! The gateway decides; the caller performs. Each call takes an event and
//! says which requests are to be sent now.

use vstd::prelude::*;

verus! {

/// A request that has been sent, and whether its response has arrived.
#[derive(Clone, Copy, Debug, PartialEq, Eq, Structural)]
pub struct Slot {
    pub id: u64,
    pub done: bool,
}

/// The state of the gateway.
pub struct QueueState {
    /// The greatest number of requests under way.
    pub limit: nat,
    /// The requests that wait to be sent, oldest first.
    pub pending: Seq<u64>,
    /// The requests that have been sent and still hold a place, oldest
    /// first. A place is given up only when every older request is done.
    pub window: Seq<Slot>,
}

/// The window without the run of finished requests at its front.
pub open spec fn drained(window: Seq<Slot>) -> Seq<Slot>
    decreases window.len(),
{
    if window.len() > 0 && window[0].done {
        drained(window.drop_first())
    } else {
        window
    }
}

/// The queue after as many waiting requests as there are free places have
/// been sent, oldest first.
pub open spec fn filled(limit: nat, pending: Seq<u64>, window: Seq<Slot>) -> (Seq<u64>, Seq<Slot>)
    decreases pending.len(),
{
    if pending.len() > 0 && window.len() < limit {
        filled(limit, pending.drop_first(), window.push(Slot { id: pending[0], done: false }))
    } else {
        (pending, window)
    }
}

/// The state after finished requests have given up their places and
/// waiting requests have taken the free ones.
pub open spec fn settled(state: QueueState) -> QueueState {
    let (pending, window) = filled(state.limit, state.pending, drained(state.window));
    QueueState { limit: state.limit, pending, window }
}

/// The requests that are sent when a state settles: the oldest waiting
/// ones, as many as have left the line.
pub open spec fn sent_on_settling(state: QueueState) -> Seq<u64> {
    state.pending.subrange(0, state.pending.len() - settled(state).pending.len())
}

/// The place of the oldest request with the given name that is under way
/// and not done; the length of the window where there is none.
pub open spec fn open_slot(window: Seq<Slot>, id: u64) -> int
    decreases window.len(),
{
    if window.len() == 0 {
        0
    } else if window[0].id == id && !window[0].done {
        0
    } else {
        1 + open_slot(window.drop_first(), id)
    }
}

/// The place of the oldest waiting request with the given name; the length
/// of the line where there is none.
pub open spec fn waiting_place(pending: Seq<u64>, id: u64) -> int
    decreases pending.len(),
{
    if pending.len() == 0 {
        0
    } else if pending[0] == id {
        0
    } else {
        1 + waiting_place(pending.drop_first(), id)
    }
}

/// The state after a response has arrived: the oldest request of that name
/// that is under way is done.
pub open spec fn completed(state: QueueState, id: u64) -> QueueState {
    let place = open_slot(state.window, id);
    if 0 <= place < state.window.len() {
        QueueState {
            limit: state.limit,
            pending: state.pending,
            window: state.window.update(place, Slot { id, done: true }),
        }
    } else {
        state
    }
}

/// The state after a submitter has gone away: its request leaves the line
/// if it still waits, and goes on if it is under way.
pub open spec fn cancelled(state: QueueState, id: u64) -> QueueState {
    let place = waiting_place(state.pending, id);
    if 0 <= place < state.pending.len() {
        QueueState {
            limit: state.limit,
            pending: state.pending.remove(place),
            window: state.window,
        }
    } else {
        state
    }
}

/// A queue of requests that bounds how many of them are under way.
pub struct RequestQueue {
    limit: usize,
    pending: Vec<u64>,
    window: Vec<Slot>,
}

impl View for RequestQueue {
    type V = QueueState;

    closed spec fn view(&self) -> QueueState {
        QueueState { limit: self.limit as nat, pending: self.pending@, window: self.window@ }
    }
}

impl RequestQueue {
    /// Whether no more requests hold a place than the limit allows.
    pub open spec fn wf(&self) -> bool {
        self@.window.len() <= self@.limit
    }

    /// A queue with the given limit, and nothing in it.
    pub fn new(concurrent_request_limit: usize) -> (r: RequestQueue)
        ensures
            r.wf(),
            r@ == (QueueState {
                limit: concurrent_request_limit as nat,
                pending: Seq::empty(),
                window: Seq::empty(),
            }),
    {
        RequestQueue { limit: concurrent_request_limit, pending: Vec::new(), window: Vec::new() }
    }

    /// The number of requests that hold a place.
    pub fn in_flight(&self) -> (r: usize)
        ensures
            r == self@.window.len(),
    {
        self.window.len()
    }

    /// The number of requests that wait to be sent.
    pub fn waiting(&self) -> (r: usize)
        ensures
            r == self@.pending.len(),
    {
        self.pending.len()
    }

    /// Lets finished requests give up their places and waiting requests
    /// take the free ones; says which requests are to be sent now.
    fn settle(&mut self) -> (r: Vec<u64>)
        requires
            old(self).wf(),
        ensures
            final(self).wf(),
            final(self)@ == settled(old(self)@),
            r@ == sent_on_settling(old(self)@),
    {
        let ghost before = self@;
        while self.window.len() > 0 && self.window[0].done
            invariant
                self.limit == before.limit,
                self.pending@ == before.pending,
                self.window@.len() <= self.limit,
                drained(self.window@) == drained(before.window),
            decreases self.window@.len(),
        {
            let ghost prev = self.window@;
            self.window.remove(0);
            assert(self.window@ =~= prev.drop_first());
        }
        let ghost free = self.window@;
        assert(drained(free) == free);
        let mut sent: Vec<u64> = Vec::new();
        while self.pending.len() > 0 && self.window.len() < self.limit
            invariant
                self.limit == before.limit,
                self.window@.len() <= self.limit,
                filled(self.limit as nat, self.pending@, self.window@) == filled(
                    before.limit,
                    before.pending,
                    free,
                ),
                sent@ + self.pending@ =~= before.pending,
            decreases self.pending@.len(),
        {
            let ghost line = self.pending@;
            let id = self.pending.remove(0);
            assert(self.pending@ =~= line.drop_first());
            self.window.push(Slot { id, done: false });
            sent.push(id);
        }
        proof {
            assert(sent@ =~= before.pending.subrange(0, before.pending.len() - self.pending@.len()));
        }
        sent
    }

    /// Takes a request into the queue. Says which requests are to be sent
    /// now: the new one among them if a place is free and nothing waits
    /// before it.
    pub fn submit(&mut self, id: u64) -> (r: Vec<u64>)
        requires
            old(self).wf(),
        ensures
            final(self).wf(),
            final(self)@ == settled(
                QueueState {
                    limit: old(self)@.limit,
                    pending: old(self)@.pending.push(id),
                    window: old(self)@.window,
                },
            ),
            r@ == sent_on_settling(
                QueueState {
                    limit: old(self)@.limit,
                    pending: old(self)@.pending.push(id),
                    window: old(self)@.window,
                },
            ),
    {
        self.pending.push(id);
        self.settle()
    }

    /// Finds the oldest request of a name that is under way and not done.
    fn find_open_slot(&self, id: u64) -> (r: usize)
        ensures
            r == open_slot(self@.window, id),
            r <= self@.window.len(),
    {
        let ghost window = self.window@;
        let mut i: usize = 0;
        assert(window.subrange(0, window.len() as int) =~= window);
        while i < self.window.len()
            invariant
                i <= self.window@.len(),
                self.window@ == window,
                open_slot(window, id) == i + open_slot(
                    window.subrange(i as int, window.len() as int),
                    id,
                ),
            decreases self.window@.len() - i,
        {
            let slot = self.window[i];
            let ghost rest = window.subrange(i as int, window.len() as int);
            assert(rest[0] == slot);
            assert(rest.drop_first() =~= window.subrange(i + 1, window.len() as int));
            if slot.id == id && !slot.done {
                return i;
            }
            i += 1;
        }
        assert(window.subrange(i as int, window.len() as int).len() == 0);
        i
    }

    /// Finds the oldest waiting request of a name.
    fn find_waiting(&self, id: u64) -> (r: usize)
        ensures
            r == waiting_place(self@.pending, id),
            r <= self@.pending.len(),
    {
        let ghost line = self.pending@;
        let mut i: usize = 0;
        assert(line.subrange(0, line.len() as int) =~= line);
        while i < self.pending.len()
            invariant
                i <= self.pending@.len(),
                self.pending@ == line,
                waiting_place(line, id) == i + waiting_place(
                    line.subrange(i as int, line.len() as int),
                    id,
                ),
            decreases self.pending@.len() - i,
        {
            let ghost rest = line.subrange(i as int, line.len() as int);
            assert(rest[0] == line[i as int]);
            assert(rest.drop_first() =~= line.subrange(i + 1, line.len() as int));
            if self.pending[i] == id {
                return i;
            }
            i += 1;
        }
        assert(line.subrange(i as int, line.len() as int).len() == 0);
        i
    }

    /// Takes note that the response to a request has arrived. Says whether
    /// such a request was under way, and which requests are to be sent
    /// now.
    pub fn complete(&mut self, id: u64) -> (r: (bool, Vec<u64>))
        requires
            old(self).wf(),
        ensures
            final(self).wf(),
            r.0 == (open_slot(old(self)@.window, id) < old(self)@.window.len()),
            final(self)@ == settled(completed(old(self)@, id)),
            r.1@ == sent_on_settling(completed(old(self)@, id)),
    {
        let place = self.find_open_slot(id);
        let known = place < self.window.len();
        if known {
            self.window.set(place, Slot { id, done: true });
        }
        let sent = self.settle();
        (known, sent)
    }

    /// Takes note that the submitter of a request has gone away. A request
    /// that still waits leaves the queue and is never sent; one that is
    /// under way goes on. Says whether the request left the queue.
    pub fn cancel(&mut self, id: u64) -> (r: bool)
        requires
            old(self).wf(),
        ensures
            final(self).wf(),
            r == (waiting_place(old(self)@.pending, id) < old(self)@.pending.len()),
            final(self)@ == cancelled(old(self)@, id),
    {
        let place = self.find_waiting(id);
        if place < self.pending.len() {
            self.pending.remove(place);
            true
        } else {
            false
        }
    }
}

} // verus!
