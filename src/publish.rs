use vstd::prelude::*;

verus! {

/// A failed write: the position of its record and the database's message.
#[derive(Clone, Debug)]
pub struct PublishError {
    pub record: usize,
    pub message: String,
}

/// What the caller is to do next.
#[derive(Clone, Copy, Debug, PartialEq, Eq, Structural)]
pub enum Step {
    /// Start the write of the record at this position.
    Dispatch(usize),
    /// Wait for a write in flight to complete, then report it.
    Wait,
    /// Nothing is in flight and nothing more will be started.
    Done,
}

/// The dispatcher's state as plain numbers.
pub struct DispatcherView {
    pub total: nat,
    pub limit: nat,
    pub next: nat,
    pub in_flight: nat,
    pub succeeded: nat,
    pub failure: Option<(nat, Seq<char>)>,
    pub pending: Set<nat>,
}

/// Decides, for `total` records written concurrently, which write to start
/// next: at most `limit` in flight at once, records started in order, and
/// none started once a write has failed; writes already in flight are
/// waited for. The outcome is the first failure reported, if any.
pub struct Dispatcher {
    total: usize,
    limit: usize,
    next: usize,
    in_flight: usize,
    succeeded: usize,
    failure: Option<PublishError>,
    pending: Ghost<Set<nat>>,
}

impl View for Dispatcher {
    type V = DispatcherView;

    closed spec fn view(&self) -> DispatcherView {
        DispatcherView {
            total: self.total as nat,
            limit: self.limit as nat,
            next: self.next as nat,
            in_flight: self.in_flight as nat,
            succeeded: self.succeeded as nat,
            failure: match self.failure {
                Some(e) => Some((e.record as nat, e.message@)),
                None => None,
            },
            pending: self.pending@,
        }
    }
}

/// Whether a new write may start in state `v`.
pub open spec fn can_dispatch(v: DispatcherView) -> bool {
    &&& v.failure is None
    &&& v.next < v.total
    &&& v.in_flight < v.limit
}

/// Whether nothing is in flight and nothing more will start.
pub open spec fn is_done(v: DispatcherView) -> bool {
    &&& v.in_flight == 0
    &&& (v.failure is Some || v.next == v.total)
}

pub open spec fn view_wf(v: DispatcherView) -> bool {
    &&& v.limit > 0
    &&& v.next <= v.total
    &&& v.in_flight <= v.limit
    &&& v.succeeded + v.in_flight <= v.next
    &&& v.failure is None ==> v.succeeded + v.in_flight == v.next
    &&& v.failure matches Some((i, _)) ==> i < v.next
    &&& v.pending.finite()
    &&& v.pending.len() == v.in_flight
    &&& forall|i: nat| #[trigger] v.pending.contains(i) ==> i < v.next
}

impl Dispatcher {
    pub open spec fn wf(&self) -> bool {
        view_wf(self@)
    }

    /// A dispatcher for `total` records with at most `limit` writes in flight.
    pub fn new(total: usize, limit: usize) -> (r: Dispatcher)
        requires
            limit > 0,
        ensures
            r.wf(),
            r@ == (DispatcherView {
                total: total as nat,
                limit: limit as nat,
                next: 0,
                in_flight: 0,
                succeeded: 0,
                failure: None,
                pending: Set::empty(),
            }),
    {
        Dispatcher {
            total,
            limit,
            next: 0,
            in_flight: 0,
            succeeded: 0,
            failure: None,
            pending: Ghost(Set::empty()),
        }
    }

    /// The next step: start the next record when no write has failed, some
    /// record is left and fewer than `limit` are in flight; otherwise wait
    /// while any write is in flight; otherwise done.
    pub fn next_step(&mut self) -> (r: Step)
        requires
            old(self).wf(),
        ensures
            final(self).wf(),
            match r {
                Step::Dispatch(i) => {
                    &&& can_dispatch(old(self)@)
                    &&& i == old(self)@.next
                    &&& final(self)@ == (DispatcherView {
                        next: old(self)@.next + 1,
                        in_flight: old(self)@.in_flight + 1,
                        pending: old(self)@.pending.insert(i as nat),
                        ..old(self)@
                    })
                },
                Step::Wait => {
                    &&& !can_dispatch(old(self)@)
                    &&& old(self)@.in_flight > 0
                    &&& final(self)@ == old(self)@
                },
                Step::Done => {
                    &&& !can_dispatch(old(self)@)
                    &&& old(self)@.in_flight == 0
                    &&& is_done(old(self)@)
                    &&& final(self)@ == old(self)@
                },
            },
    {
        if self.failure.is_none() && self.next < self.total && self.in_flight < self.limit {
            let i = self.next;
            proof {
                assert(!self.pending@.contains(i as nat));
                self.pending@ = self.pending@.insert(i as nat);
            }
            self.next = self.next + 1;
            self.in_flight = self.in_flight + 1;
            Step::Dispatch(i)
        } else if self.in_flight > 0 {
            Step::Wait
        } else {
            Step::Done
        }
    }

    /// Reports that the write of the record at `record`, which is in flight,
    /// completed with `outcome`. The first failure reported is kept; later
    /// ones are not.
    pub fn complete(&mut self, record: usize, outcome: Result<(), String>)
        requires
            old(self).wf(),
            old(self)@.pending.contains(record as nat),
        ensures
            final(self).wf(),
            final(self)@.total == old(self)@.total,
            final(self)@.limit == old(self)@.limit,
            final(self)@.next == old(self)@.next,
            final(self)@.in_flight == old(self)@.in_flight - 1,
            final(self)@.pending == old(self)@.pending.remove(record as nat),
            final(self)@.succeeded == old(self)@.succeeded + if outcome is Ok {
                1nat
            } else {
                0nat
            },
            final(self)@.failure == match (old(self)@.failure, outcome) {
                (None, Err(m)) => Some((record as nat, m@)),
                (f, _) => f,
            },
    {
        proof {
            self.pending@ = self.pending@.remove(record as nat);
        }
        self.in_flight = self.in_flight - 1;
        match outcome {
            Ok(()) => {
                self.succeeded = self.succeeded + 1;
            },
            Err(message) => {
                if self.failure.is_none() {
                    self.failure = Some(PublishError { record, message });
                }
            },
        }
    }

    /// The outcome once done: success exactly when no write failed, which
    /// is when every record was written; otherwise the first failure.
    pub fn finish(self) -> (r: Result<(), PublishError>)
        requires
            self.wf(),
            is_done(self@),
        ensures
            r is Ok <==> self@.failure is None,
            r is Ok ==> self@.succeeded == self@.total,
            r matches Err(e) ==> self@.failure == Some((e.record as nat, e.message@)),
    {
        match self.failure {
            Some(e) => Err(e),
            None => Ok(()),
        }
    }
}

/// In every well-formed state at most `limit` writes are in flight, and a
/// new write starts only while no failure has been reported.
pub proof fn lemma_bounded_in_flight(d: Dispatcher)
    requires
        d.wf(),
    ensures
        d@.in_flight <= d@.limit,
        can_dispatch(d@) ==> d@.failure is None && d@.in_flight < d@.limit,
{
}

} // verus!
