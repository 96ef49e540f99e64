//! The queue of particles of a single event. The event starts with one phonon; each
//! down-conversion replaces a phonon by two secondary phonons, which join the queue and
//! are simulated in turn. Each phonon simulated gets the next track number.
use vstd::prelude::*;

verus! {

/// Particles of one event that wait to be simulated, last in first out.
pub struct ParticleQueue<P> {
    pending: Vec<P>,
    tracks_started: usize,
    secondary_pairs: Ghost<nat>,
}

impl<P> ParticleQueue<P> {
    /// Particles that wait, the one simulated next last.
    pub closed spec fn pending(&self) -> Seq<P> {
        self.pending@
    }

    /// Number of particles taken from the queue so far; the next one gets this track number.
    pub closed spec fn tracks(&self) -> nat {
        self.tracks_started as nat
    }

    /// Number of down-conversions whose two secondary phonons joined the queue.
    pub closed spec fn pairs(&self) -> nat {
        self.secondary_pairs@
    }

    /// Every particle ever queued is either simulated or waiting: the first phonon and
    /// two per down-conversion.
    pub open spec fn wf(&self) -> bool {
        self.tracks() + self.pending().len() == 1 + 2 * self.pairs()
    }

    /// A queue that holds the event's first phonon.
    pub fn new(first: P) -> (queue: Self)
        ensures
            queue.pending() == seq![first],
            queue.tracks() == 0,
            queue.pairs() == 0,
            queue.wf(),
    {
        let mut pending: Vec<P> = Vec::with_capacity(10);
        pending.push(first);
        ParticleQueue { pending, tracks_started: 0, secondary_pairs: Ghost(0) }
    }

    /// Number of particles taken from the queue so far.
    pub fn tracks_started(&self) -> (n: usize)
        ensures
            n == self.tracks(),
    {
        self.tracks_started
    }

    /// Takes the particle to simulate next, with its track number; `None` once the
    /// queue is empty, and then the event is done.
    pub fn next_particle(&mut self) -> (next: Option<(P, usize)>)
        requires
            old(self).tracks() < usize::MAX,
        ensures
            old(self).pending().len() == 0 ==> next is None && final(self).pending() == old(self).pending()
                && final(self).tracks() == old(self).tracks() && final(self).pairs() == old(
                self,
            ).pairs(),
            old(self).pending().len() > 0 ==> next == Some(
                (old(self).pending().last(), old(self).tracks() as usize),
            ) && final(self).pending() == old(self).pending().drop_last() && final(self).tracks()
                == old(self).tracks() + 1 && final(self).pairs() == old(self).pairs(),
            old(self).wf() ==> final(self).wf(),
    {
        match self.pending.pop() {
            Some(p) => {
                let track = self.tracks_started;
                self.tracks_started = track + 1;
                Some((p, track))
            },
            None => None,
        }
    }

    /// Queues the two secondary phonons of a down-conversion, if there was one; the
    /// second of the pair is simulated first.
    pub fn push_secondaries(&mut self, secondaries: Option<(P, P)>)
        ensures
            final(self).tracks() == old(self).tracks(),
            match secondaries {
                Some((a, b)) => final(self).pending() == old(self).pending().push(a).push(b)
                    && final(self).pairs() == old(self).pairs() + 1,
                None => final(self).pending() == old(self).pending() && final(self).pairs()
                    == old(self).pairs(),
            },
            old(self).wf() ==> final(self).wf(),
    {
        match secondaries {
            Some((a, b)) => {
                self.pending.push(a);
                self.pending.push(b);
                proof {
                    self.secondary_pairs = Ghost(self.secondary_pairs@ + 1);
                }
            },
            None => {},
        }
    }
}

/// Once the queue of an event is empty, the event has simulated one track for its first
/// phonon and two for each down-conversion.
pub proof fn lemma_tracks_of_finished_event<P>(queue: ParticleQueue<P>)
    requires
        queue.wf(),
        queue.pending().len() == 0,
    ensures
        queue.tracks() == 1 + 2 * queue.pairs(),
{
}

} // verus!
