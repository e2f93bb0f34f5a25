use vstd::prelude::*;

verus! {

/// Where a batch of uploads stands.
#[derive(Clone, Copy, Debug, PartialEq, Eq, Structural)]
pub enum Phase {
    /// The next worklog is to be uploaded, or all of them have been.
    Uploading,
    /// The current worklog's upload has ended; its outcome is to be recorded.
    Recording { succeeded: bool },
    /// Recording an outcome failed: nothing more is done.
    Aborted,
}

/// What the caller is to do next.
#[derive(Clone, Copy, Debug, PartialEq, Eq, Structural)]
pub enum Action {
    /// Upload the worklog at this index.
    Upload(usize),
    /// Mark the source of the worklog at this index as logged.
    RecordSuccess(usize),
    /// Mark the source of the worklog at this index as failed.
    RecordFail(usize),
    /// Every worklog has been uploaded and recorded.
    Finish,
    /// Stop: an outcome could not be recorded.
    Abort,
}

/// What came of the last action.
#[derive(Clone, Copy, Debug, PartialEq, Eq, Structural)]
pub enum Event {
    UploadSucceeded,
    UploadFailed,
    Recorded,
    RecordFailed,
}

/// How a batch ended.
#[derive(Clone, Copy, Debug, PartialEq, Eq, Structural)]
pub enum RunOutcome {
    /// It has not ended.
    Running,
    /// Every upload succeeded.
    Complete,
    /// Every worklog was attempted and at least one upload failed.
    CompleteWithErrors,
    /// It stopped because an outcome could not be recorded.
    Aborted,
}

/// The state of a batch, as a mathematical value.
pub struct RunView {
    pub count: nat,
    pub next: nat,
    pub phase: Phase,
    pub failed: Seq<nat>,
}

/// Uploads a batch of worklogs one at a time, in order, recording each outcome before the next
/// upload. It performs nothing: it says what to do next and is told what came of it.
pub struct SyncRun {
    count: usize,
    next: usize,
    phase: Phase,
    failed: Vec<usize>,
}

pub open spec fn run_action(v: RunView) -> Action {
    match v.phase {
        Phase::Uploading => if v.next < v.count {
            Action::Upload(v.next as usize)
        } else {
            Action::Finish
        },
        Phase::Recording { succeeded } => if succeeded {
            Action::RecordSuccess(v.next as usize)
        } else {
            Action::RecordFail(v.next as usize)
        },
        Phase::Aborted => Action::Abort,
    }
}

/// The state after `e`. An event that does not answer the pending action changes nothing.
pub open spec fn run_step(v: RunView, e: Event) -> RunView {
    match v.phase {
        Phase::Uploading => if v.next < v.count && e == Event::UploadSucceeded {
            RunView { phase: Phase::Recording { succeeded: true }, ..v }
        } else if v.next < v.count && e == Event::UploadFailed {
            RunView { phase: Phase::Recording { succeeded: false }, failed: v.failed.push(v.next), ..v }
        } else {
            v
        },
        Phase::Recording { .. } => if e == Event::Recorded {
            RunView { phase: Phase::Uploading, next: v.next + 1, ..v }
        } else if e == Event::RecordFailed {
            RunView { phase: Phase::Aborted, ..v }
        } else {
            v
        },
        Phase::Aborted => v,
    }
}

/// The state after each of `events` in turn.
pub open spec fn run_steps(v: RunView, events: Seq<Event>) -> RunView
    decreases events.len(),
{
    if events.len() == 0 {
        v
    } else {
        run_steps(run_step(v, events[0]), events.drop_first())
    }
}

pub open spec fn run_outcome(v: RunView) -> RunOutcome {
    match v.phase {
        Phase::Aborted => RunOutcome::Aborted,
        Phase::Recording { .. } => RunOutcome::Running,
        Phase::Uploading => if v.next < v.count {
            RunOutcome::Running
        } else if v.failed.len() == 0 {
            RunOutcome::Complete
        } else {
            RunOutcome::CompleteWithErrors
        },
    }
}

impl View for SyncRun {
    type V = RunView;

    closed spec fn view(&self) -> RunView {
        RunView {
            count: self.count as nat,
            next: self.next as nat,
            phase: self.phase,
            failed: self.failed@.map_values(|i: usize| i as nat),
        }
    }
}

impl SyncRun {
    pub open spec fn well_formed(&self) -> bool {
        run_wf(self@)
    }

    /// A batch of `count` worklogs, none of them uploaded.
    pub fn new(count: usize) -> (r: SyncRun)
        ensures
            r.well_formed(),
            r@ == (RunView { count: count as nat, next: 0, phase: Phase::Uploading, failed: Seq::empty() }),
    {
        let r = SyncRun { count, next: 0, phase: Phase::Uploading, failed: Vec::new() };
        assert(r@.failed =~= Seq::<nat>::empty());
        r
    }

    /// What to do next.
    pub fn action(&self) -> (r: Action)
        requires
            self.well_formed(),
        ensures
            r == run_action(self@),
    {
        match self.phase {
            Phase::Uploading => if self.next < self.count {
                Action::Upload(self.next)
            } else {
                Action::Finish
            },
            Phase::Recording { succeeded } => if succeeded {
                Action::RecordSuccess(self.next)
            } else {
                Action::RecordFail(self.next)
            },
            Phase::Aborted => Action::Abort,
        }
    }

    /// Takes in what came of the last action.
    pub fn step(&mut self, e: Event)
        requires
            old(self).well_formed(),
        ensures
            final(self).well_formed(),
            final(self)@ == run_step(old(self)@, e),
    {
        let ghost before = self@;
        match self.phase {
            Phase::Uploading => {
                if self.next < self.count && e == Event::UploadSucceeded {
                    self.phase = Phase::Recording { succeeded: true };
                } else if self.next < self.count && e == Event::UploadFailed {
                    self.phase = Phase::Recording { succeeded: false };
                    self.failed.push(self.next);
                    assert(self@.failed =~= before.failed.push(before.next));
                }
            },
            Phase::Recording { .. } => {
                if e == Event::Recorded {
                    self.phase = Phase::Uploading;
                    self.next = self.next + 1;
                } else if e == Event::RecordFailed {
                    self.phase = Phase::Aborted;
                }
            },
            Phase::Aborted => {},
        }
        assert(self@ =~= run_step(before, e));
    }

    /// How the batch stands.
    pub fn outcome(&self) -> (r: RunOutcome)
        ensures
            r == run_outcome(self@),
    {
        match self.phase {
            Phase::Aborted => RunOutcome::Aborted,
            Phase::Recording { .. } => RunOutcome::Running,
            Phase::Uploading => if self.next < self.count {
                RunOutcome::Running
            } else if self.failed.len() == 0 {
                RunOutcome::Complete
            } else {
                RunOutcome::CompleteWithErrors
            },
        }
    }

    /// The indices of the worklogs whose upload failed, in order.
    pub fn failed(&self) -> (r: Vec<usize>)
        ensures
            r@.map_values(|i: usize| i as nat) == self@.failed,
    {
        self.failed.clone()
    }
}

/// A failure to record an outcome stops the batch for good: from then on every action is
/// `Abort`, whatever comes, and no worklog is uploaded again.
pub proof fn lemma_record_failure_aborts(v: RunView, events: Seq<Event>)
    requires
        v.phase is Recording,
    ensures
        run_action(run_step(v, Event::RecordFailed)) == Action::Abort,
        run_steps(run_step(v, Event::RecordFailed), events) == run_step(v, Event::RecordFailed),
        run_action(run_steps(run_step(v, Event::RecordFailed), events)) == Action::Abort,
    decreases events.len(),
{
    if events.len() > 0 {
        lemma_record_failure_aborts(v, events.drop_first());
    }
}

/// The counters of a batch stay within their bounds.
pub open spec fn run_wf(v: RunView) -> bool {
    &&& v.count <= usize::MAX
    &&& v.next <= v.count
    &&& (v.phase is Recording ==> v.next < v.count)
}

spec fn past(v: RunView, i: nat) -> bool {
    &&& run_wf(v)
    &&& (v.next > i || (v.next == i && !(v.phase is Uploading)))
}

proof fn lemma_past_stays(v: RunView, i: nat, events: Seq<Event>)
    requires
        past(v, i),
    ensures
        past(run_steps(v, events), i),
    decreases events.len(),
{
    if events.len() > 0 {
        lemma_past_stays(run_step(v, events[0]), i, events.drop_first());
    }
}

/// Once the upload of a worklog has ended, that worklog is never handed out for upload again in
/// the same batch, whatever comes after.
pub proof fn lemma_upload_once(v: RunView, i: usize, e: Event, events: Seq<Event>)
    requires
        run_wf(v),
        run_action(v) == Action::Upload(i),
        e == Event::UploadSucceeded || e == Event::UploadFailed,
    ensures
        run_action(run_steps(run_step(v, e), events)) != Action::Upload(i),
{
    let w = run_step(v, e);
    assert(past(w, i as nat));
    lemma_past_stays(w, i as nat, events);
    let z = run_steps(w, events);
    if run_action(z) == Action::Upload(i) {
        assert(z.phase is Uploading);
        assert(z.next as usize == i);
    }
}

/// The event that reports an upload's result.
pub open spec fn upload_event(succeeded: bool) -> Event {
    if succeeded {
        Event::UploadSucceeded
    } else {
        Event::UploadFailed
    }
}

/// The events of a batch in which upload `i` succeeds exactly when `ok[i]`, and every outcome is
/// recorded.
pub open spec fn trace(ok: Seq<bool>) -> Seq<Event>
    decreases ok.len(),
{
    if ok.len() == 0 {
        Seq::empty()
    } else {
        trace(ok.drop_last()) + seq![upload_event(ok.last()), Event::Recorded]
    }
}

/// The indices `i` with `!ok[i]`, in order.
pub open spec fn failures(ok: Seq<bool>) -> Seq<nat>
    decreases ok.len(),
{
    if ok.len() == 0 {
        Seq::empty()
    } else if ok.last() {
        failures(ok.drop_last())
    } else {
        failures(ok.drop_last()).push((ok.len() - 1) as nat)
    }
}

/// A batch of `count` worklogs that has not started.
pub open spec fn fresh(count: nat) -> RunView {
    RunView { count, next: 0, phase: Phase::Uploading, failed: Seq::empty() }
}

proof fn lemma_steps_append(v: RunView, a: Seq<Event>, b: Seq<Event>)
    ensures
        run_steps(v, a + b) == run_steps(run_steps(v, a), b),
    decreases a.len(),
{
    if a.len() > 0 {
        assert((a + b).drop_first() =~= a.drop_first() + b);
        assert((a + b)[0] == a[0]);
        lemma_steps_append(run_step(v, a[0]), a.drop_first(), b);
    } else {
        assert(a + b =~= b);
    }
}

proof fn lemma_trace_prefix(count: nat, ok: Seq<bool>)
    requires
        ok.len() <= count,
    ensures
        run_steps(fresh(count), trace(ok)) == (RunView {
            count,
            next: ok.len(),
            phase: Phase::Uploading,
            failed: failures(ok),
        }),
    decreases ok.len(),
{
    if ok.len() > 0 {
        let prev = ok.drop_last();
        lemma_trace_prefix(count, prev);
        let tail = seq![upload_event(ok.last()), Event::Recorded];
        lemma_steps_append(fresh(count), trace(prev), tail);
        let mid = run_steps(fresh(count), trace(prev));
        let after = run_step(mid, tail[0]);
        assert(tail.drop_first() =~= seq![Event::Recorded]);
        assert(seq![Event::Recorded].drop_first() =~= Seq::<Event>::empty());
        assert(run_steps(mid, tail) == run_steps(after, seq![Event::Recorded]));
        assert(seq![Event::Recorded][0] == Event::Recorded);
        assert(run_steps(run_step(after, Event::Recorded), Seq::<Event>::empty()) == run_step(
            after,
            Event::Recorded,
        ));
        assert(run_steps(after, seq![Event::Recorded]) == run_step(after, Event::Recorded));
    }
}

/// In a batch where every outcome is recorded, worklog `i` is uploaded once, in order, and its
/// outcome is recorded once, as a success or as a failure according to its upload; at the end
/// the failed worklogs are exactly those whose upload failed, and the batch ends complete, with
/// errors where any upload failed.
pub proof fn lemma_batch_trace(ok: Seq<bool>, i: int)
    requires
        ok.len() <= usize::MAX,
        0 <= i < ok.len(),
    ensures
        run_action(run_steps(fresh(ok.len()), trace(ok.take(i)))) == Action::Upload(i as usize),
        run_action(run_steps(fresh(ok.len()), trace(ok.take(i)).push(upload_event(ok[i]))))
            == (if ok[i] {
            Action::RecordSuccess(i as usize)
        } else {
            Action::RecordFail(i as usize)
        }),
        run_steps(fresh(ok.len()), trace(ok)).failed == failures(ok),
        run_action(run_steps(fresh(ok.len()), trace(ok))) == Action::Finish,
        run_outcome(run_steps(fresh(ok.len()), trace(ok))) == (if failures(ok).len() == 0 {
            RunOutcome::Complete
        } else {
            RunOutcome::CompleteWithErrors
        }),
{
    let n = ok.len();
    let pre = ok.take(i);
    lemma_trace_prefix(n, pre);
    lemma_trace_prefix(n, ok);
    let v = run_steps(fresh(n), trace(pre));
    lemma_steps_append(fresh(n), trace(pre), seq![upload_event(ok[i])]);
    assert(trace(pre).push(upload_event(ok[i])) =~= trace(pre) + seq![upload_event(ok[i])]);
    assert(seq![upload_event(ok[i])].drop_first() =~= Seq::<Event>::empty());
    assert(seq![upload_event(ok[i])][0] == upload_event(ok[i]));
    assert(run_steps(run_step(v, upload_event(ok[i])), Seq::<Event>::empty()) == run_step(
        v,
        upload_event(ok[i]),
    ));
    assert(run_steps(v, seq![upload_event(ok[i])]) == run_step(v, upload_event(ok[i])));
}

} // verus!
