use vstd::prelude::*;

verus! {

/// Quiet interval, in milliseconds, after which a pending message is emitted.
pub const DEBOUNCE_MS: u64 = 200;

/// What the debounce worker observed on its channel.
pub enum WorkerEvent {
    Received(String),
    /// A bounded wait elapsed with no message.
    TimedOut,
    /// No sender can ever send again.
    Disconnected,
}

/// What the debounce worker does next.
pub enum WorkerAction {
    /// Block until the next message arrives.
    Receive,
    /// Wait at most `DEBOUNCE_MS` for another message.
    ReceiveWithin(u64),
    /// Print the settled message, then block until the next message.
    Emit(String),
    /// Stop the worker.
    Stop,
}

/// The worker's state: the message of the current burst, if one is open.
pub struct DebounceWorker {
    pending: Option<String>,
}

impl DebounceWorker {
    pub closed spec fn pending_spec(&self) -> Option<Seq<char>> {
        match self.pending {
            Some(m) => Some(m@),
            None => None,
        }
    }

    /// A worker with no open burst.
    pub fn new() -> (r: DebounceWorker)
        ensures
            r.pending_spec() == None::<Seq<char>>,
    {
        DebounceWorker { pending: None }
    }

    /// The message of the open burst, if any.
    pub fn pending(&self) -> (r: Option<String>)
        ensures
            match r {
                Some(m) => self.pending_spec() == Some(m@),
                None => self.pending_spec() == None::<Seq<char>>,
            },
    {
        match &self.pending {
            Some(m) => Some(m.clone()),
            None => None,
        }
    }

    /// Moves the worker on by one observed event. A received message replaces
    /// the pending one and restarts the quiet wait; a quiet wait that elapses
    /// emits the pending message and closes the burst; disconnection stops
    /// the worker and drops what was pending.
    pub fn on_event(&mut self, ev: WorkerEvent) -> (r: WorkerAction)
        ensures
            match ev {
                WorkerEvent::Received(m) => final(self).pending_spec() == Some(m@)
                    && r == WorkerAction::ReceiveWithin(DEBOUNCE_MS),
                WorkerEvent::TimedOut => final(self).pending_spec() == None::<Seq<char>>
                    && match old(self).pending_spec() {
                    Some(p) => (match r {
                        WorkerAction::Emit(e) => e@ == p,
                        _ => false,
                    }),
                    None => r == WorkerAction::Receive,
                },
                WorkerEvent::Disconnected => final(self).pending_spec() == None::<Seq<char>>
                    && r == WorkerAction::Stop,
            },
    {
        match ev {
            WorkerEvent::Received(m) => {
                self.pending = Some(m);
                WorkerAction::ReceiveWithin(DEBOUNCE_MS)
            },
            WorkerEvent::TimedOut => {
                let p = self.pending.take();
                match p {
                    Some(m) => WorkerAction::Emit(m),
                    None => WorkerAction::Receive,
                }
            },
            WorkerEvent::Disconnected => {
                self.pending = None;
                WorkerAction::Stop
            },
        }
    }
}

/// A message handed to the channel, at a time relative to a common origin.
pub struct Submission {
    pub at_ms: u64,
    pub message: String,
}

/// A message printed by the worker, and when.
pub struct Emission {
    pub at_ms: u64,
    pub message: String,
}

pub open spec fn emission_view(e: Emission) -> (int, Seq<char>) {
    (e.at_ms as int, e.message@)
}

pub open spec fn emissions_view(es: Seq<Emission>) -> Seq<(int, Seq<char>)> {
    es.map_values(|e: Emission| emission_view(e))
}

/// Submissions come in time order, and every quiet wait ends within `u64`.
pub open spec fn well_timed(s: Seq<Submission>) -> bool {
    &&& forall|j: int| 0 < j < s.len() ==> s[j - 1].at_ms <= #[trigger] s[j].at_ms
    &&& forall|j: int| 0 <= j < s.len() ==> #[trigger] s[j].at_ms + DEBOUNCE_MS <= u64::MAX
}

/// Emissions of the bursts that the arrival of one of the first `k`
/// submissions has closed: a burst ends at submission `j` when the next one
/// comes `DEBOUNCE_MS` or more after it, and its last message is printed
/// `DEBOUNCE_MS` after that last submission.
pub open spec fn closed_bursts(s: Seq<Submission>, k: int) -> Seq<(int, Seq<char>)>
    decreases k,
{
    if k <= 1 {
        seq![]
    } else {
        closed_bursts(s, k - 1) + if s[k - 1].at_ms - s[k - 2].at_ms >= DEBOUNCE_MS {
            seq![(s[k - 2].at_ms + DEBOUNCE_MS, s[k - 2].message@)]
        } else {
            seq![]
        }
    }
}

/// Everything the worker prints for the submissions `s`: the last message of
/// each burst, `DEBOUNCE_MS` after it was submitted.
pub open spec fn schedule(s: Seq<Submission>) -> Seq<(int, Seq<char>)> {
    if s.len() == 0 {
        seq![]
    } else {
        closed_bursts(s, s.len() as int).push(
            (s.last().at_ms + DEBOUNCE_MS, s.last().message@),
        )
    }
}

/// Submission `j` is the last of its burst: nothing follows it within
/// `DEBOUNCE_MS`.
pub open spec fn closes_burst(s: Seq<Submission>, j: int) -> bool {
    0 <= j < s.len() && (j + 1 == s.len() || s[j + 1].at_ms - s[j].at_ms >= DEBOUNCE_MS)
}

/// The emission owed to submission `j` when it closes a burst.
pub open spec fn emission_for(s: Seq<Submission>, j: int) -> (int, Seq<char>) {
    (s[j].at_ms + DEBOUNCE_MS, s[j].message@)
}

/// `e` is the emission owed to some submission before `limit` that closes a
/// burst.
pub open spec fn owed_before(s: Seq<Submission>, limit: int, e: (int, Seq<char>)) -> bool {
    exists|j: int| 0 <= j < limit && closes_burst(s, j) && e == #[trigger] emission_for(s, j)
}

proof fn lemma_closed_bursts(s: Seq<Submission>, k: int)
    requires
        0 <= k <= s.len(),
    ensures
        forall|i: int|
            0 <= i < closed_bursts(s, k).len() ==> owed_before(s, k - 1, #[trigger] closed_bursts(s, k)[i]),
        forall|j: int|
            0 <= j < k - 1 && #[trigger] closes_burst(s, j) ==> exists|i: int|
                0 <= i < closed_bursts(s, k).len() && closed_bursts(s, k)[i] == emission_for(s, j),
    decreases k,
{
    if k > 1 {
        lemma_closed_bursts(s, k - 1);
        let prev = closed_bursts(s, k - 1);
        let cur = closed_bursts(s, k);
        assert forall|i: int| 0 <= i < cur.len() implies owed_before(s, k - 1, #[trigger] cur[i]) by {
            if i < prev.len() {
                assert(cur[i] == prev[i]);
                assert(owed_before(s, k - 2, prev[i]));
                let j = choose|j: int| 0 <= j < k - 2 && closes_burst(s, j) && prev[i] == #[trigger] emission_for(s, j);
                assert(0 <= j < k - 1 && closes_burst(s, j) && cur[i] == emission_for(s, j));
            } else {
                assert(cur[i] == emission_for(s, k - 2));
                assert(closes_burst(s, k - 2));
            }
        }
        assert forall|j: int| 0 <= j < k - 1 && #[trigger] closes_burst(s, j) implies exists|i: int|
            0 <= i < cur.len() && cur[i] == emission_for(s, j) by {
            if j < k - 2 {
                let i = choose|i: int| 0 <= i < prev.len() && prev[i] == emission_for(s, j);
                assert(cur[i] == prev[i]);
            } else {
                assert(cur[prev.len() as int] == emission_for(s, j));
            }
        }
    }
}

/// Only the last message of each burst is printed, `DEBOUNCE_MS` after it was
/// submitted, and the last message of every burst is printed.
pub proof fn lemma_last_of_each_burst(s: Seq<Submission>)
    ensures
        forall|i: int| 0 <= i < schedule(s).len() ==> owed_before(s, s.len() as int, #[trigger] schedule(s)[i]),
        forall|j: int|
            #[trigger] closes_burst(s, j) ==> exists|i: int|
                0 <= i < schedule(s).len() && schedule(s)[i] == emission_for(s, j),
{
    if s.len() > 0 {
        let n = s.len() as int;
        lemma_closed_bursts(s, n);
        let cb = closed_bursts(s, n);
        let sch = schedule(s);
        assert(sch[cb.len() as int] == emission_for(s, n - 1));
        assert forall|i: int| 0 <= i < sch.len() implies owed_before(s, n, #[trigger] sch[i]) by {
            if i < cb.len() {
                assert(sch[i] == cb[i]);
                assert(owed_before(s, n - 1, cb[i]));
                let j = choose|j: int| 0 <= j < n - 1 && closes_burst(s, j) && cb[i] == #[trigger] emission_for(s, j);
                assert(0 <= j < n && closes_burst(s, j) && sch[i] == emission_for(s, j));
            } else {
                assert(closes_burst(s, n - 1));
                assert(sch[i] == emission_for(s, n - 1));
            }
        }
        assert forall|j: int| #[trigger] closes_burst(s, j) implies exists|i: int|
            0 <= i < sch.len() && sch[i] == emission_for(s, j) by {
            if j < n - 1 {
                let i = choose|i: int| 0 <= i < cb.len() && cb[i] == emission_for(s, j);
                assert(sch[i] == cb[i]);
            } else {
                assert(sch[cb.len() as int] == emission_for(s, j));
            }
        }
    }
}

/// Runs a worker over the timeline `subs` and returns what it prints: the
/// worker sees each message as it arrives, and a quiet wait elapses wherever
/// the next submission is `DEBOUNCE_MS` or more away, and after the last one.
pub fn simulate(subs: &Vec<Submission>) -> (r: Vec<Emission>)
    requires
        well_timed(subs@),
    ensures
        emissions_view(r@) == schedule(subs@),
{
    let mut worker = DebounceWorker::new();
    let mut out: Vec<Emission> = Vec::new();
    let mut i: usize = 0;
    while i < subs.len()
        invariant
            0 <= i <= subs.len(),
            well_timed(subs@),
            emissions_view(out@) == closed_bursts(subs@, i as int),
            i == 0 ==> worker.pending_spec() == None::<Seq<char>>,
            i > 0 ==> worker.pending_spec() == Some(subs@[i - 1].message@),
        decreases subs.len() - i,
    {
        if i > 0 && subs[i].at_ms - subs[i - 1].at_ms >= DEBOUNCE_MS {
            let at = subs[i - 1].at_ms + DEBOUNCE_MS;
            let action = worker.on_event(WorkerEvent::TimedOut);
            match action {
                WorkerAction::Emit(m) => {
                    let ghost before = out@;
                    out.push(Emission { at_ms: at, message: m });
                    assert(emissions_view(out@) =~= emissions_view(before).push((at as int, m@)));
                },
                _ => {},
            }
        }
        assert(closed_bursts(subs@, i as int + 1) =~= if i > 0 && subs@[i as int].at_ms
            - subs@[i - 1].at_ms >= DEBOUNCE_MS {
            closed_bursts(subs@, i as int).push(
                (subs@[i - 1].at_ms + DEBOUNCE_MS, subs@[i - 1].message@),
            )
        } else {
            closed_bursts(subs@, i as int)
        });
        let m = subs[i].message.clone();
        worker.on_event(WorkerEvent::Received(m));
        i = i + 1;
    }
    if subs.len() > 0 {
        let at = subs[subs.len() - 1].at_ms + DEBOUNCE_MS;
        let action = worker.on_event(WorkerEvent::TimedOut);
        match action {
            WorkerAction::Emit(m) => {
                let ghost before = out@;
                out.push(Emission { at_ms: at, message: m });
                assert(emissions_view(out@) =~= emissions_view(before).push((at as int, m@)));
            },
            _ => {},
        }
    } else {
        assert(emissions_view(out@) =~= schedule(subs@));
    }
    out
}

} // verus!
