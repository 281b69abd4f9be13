//! The process-wide progress counts: attempts made ("installed") and attempts
//! that failed ("errored"), and the progress and summary lines built from
//! them. In the running program the two counts live in atomic integers; this
//! is the model each increment follows, and the laws that hold of every run.

use vstd::prelude::*;
use crate::text::{dec_rep, u64_to_string};
use crate::worker::{step_spec, DownloadOutcome, WorkerEvent, WorkerState};
use vstd::string::StringExecFns;

verus! {

/// The two monotonically increasing progress counts.
#[derive(Clone, Copy, Debug, PartialEq, Eq, Structural)]
pub struct Counters {
    pub installed: u64,
    pub errored: u64,
}

/// The counts after one outcome is recorded: the attempt always, the failure
/// when the outcome is one.
pub open spec fn recorded(c: Counters, o: DownloadOutcome) -> Counters {
    Counters {
        installed: (c.installed + 1) as u64,
        errored: if o.is_failure() {
            (c.errored + 1) as u64
        } else {
            c.errored
        },
    }
}

/// The number of failures among a run of outcomes.
pub open spec fn count_failures(s: Seq<DownloadOutcome>) -> nat
    decreases s.len(),
{
    if s.len() == 0 {
        0
    } else {
        count_failures(s.drop_last()) + (if s.last().is_failure() {
            1nat
        } else {
            0nat
        })
    }
}

impl Counters {
    /// Errors never exceed attempts.
    pub open spec fn wf(self) -> bool {
        self.errored <= self.installed
    }

    /// Both counts start at zero.
    pub fn new() -> (c: Counters)
        ensures
            c.installed == 0,
            c.errored == 0,
            c.wf(),
    {
        Counters { installed: 0, errored: 0 }
    }

    /// Records one attempt, made before any network or filesystem work.
    pub fn record_attempt(&mut self)
        requires
            old(self).installed < u64::MAX,
        ensures
            final(self).installed == old(self).installed + 1,
            final(self).errored == old(self).errored,
    {
        self.installed = self.installed + 1;
    }

    /// Records one failure; the failing attempt was already recorded, so the
    /// error count stays strictly behind the attempt count beforehand.
    pub fn record_failure(&mut self)
        requires
            old(self).errored < old(self).installed,
        ensures
            final(self).installed == old(self).installed,
            final(self).errored == old(self).errored + 1,
            final(self).wf(),
    {
        self.errored = self.errored + 1;
    }

    /// Records one finished item: the attempt, and the failure if it failed.
    pub fn record_outcome(&mut self, o: &DownloadOutcome)
        requires
            old(self).wf(),
            old(self).installed < u64::MAX,
        ensures
            *final(self) == recorded(*old(self), *o),
            final(self).wf(),
    {
        self.record_attempt();
        if o.failed() {
            self.record_failure();
        }
    }

    /// Records every outcome of a run, in order.
    pub fn record_all(&mut self, outcomes: &Vec<DownloadOutcome>)
        requires
            old(self).wf(),
            old(self).installed + outcomes@.len() <= u64::MAX,
        ensures
            final(self).installed == old(self).installed + outcomes@.len(),
            final(self).errored == old(self).errored + count_failures(outcomes@),
            final(self).wf(),
    {
        proof {
            lemma_count_failures_bound(outcomes@);
        }
        let mut i: usize = 0;
        while i < outcomes.len()
            invariant
                i <= outcomes@.len(),
                old(self).wf(),
                old(self).installed + outcomes@.len() <= u64::MAX,
                self.installed == old(self).installed + i,
                self.errored == old(self).errored + count_failures(outcomes@.take(i as int)),
                self.wf(),
            decreases outcomes@.len() - i,
        {
            proof {
                lemma_count_failures_bound(outcomes@.take(i as int));
            }
            self.record_outcome(&outcomes[i]);
            proof {
                assert(outcomes@.take(i + 1).drop_last() =~= outcomes@.take(i as int));
                assert(outcomes@.take(i + 1).last() == outcomes@[i as int]);
            }
            i += 1;
        }
        proof {
            assert(outcomes@.take(outcomes@.len() as int) =~= outcomes@);
        }
    }

    /// The number of successful downloads: attempts minus failures.
    pub fn downloaded(&self) -> (r: u64)
        requires
            self.wf(),
        ensures
            r == self.installed - self.errored,
    {
        self.installed - self.errored
    }

    /// The final summary line: `Finished. Downloaded <installed - errored>/<expected>`.
    pub fn summary_line(&self, expected: u64) -> (s: String)
        requires
            self.wf(),
        ensures
            s@ == "Finished. Downloaded "@ + dec_rep((self.installed - self.errored) as nat)
                + "/"@ + dec_rep(expected as nat),
    {
        let mut s = "Finished. Downloaded ".to_owned();
        let count = u64_to_string(self.downloaded());
        s.append(count.as_str());
        s.append("/");
        let total = u64_to_string(expected);
        s.append(total.as_str());
        proof {
            assert(s@ =~= "Finished. Downloaded "@ + dec_rep(
                (self.installed - self.errored) as nat,
            ) + "/"@ + dec_rep(expected as nat));
        }
        s
    }
}

/// The reporter's line: `Downloading <installed>/<expected>`.
pub fn progress_line(installed: u64, expected: u64) -> (s: String)
    ensures
        s@ == "Downloading "@ + dec_rep(installed as nat) + "/"@ + dec_rep(expected as nat),
{
    let mut s = "Downloading ".to_owned();
    let count = u64_to_string(installed);
    s.append(count.as_str());
    s.append("/");
    let total = u64_to_string(expected);
    s.append(total.as_str());
    proof {
        assert(s@ =~= "Downloading "@ + dec_rep(installed as nat) + "/"@ + dec_rep(
            expected as nat,
        ));
    }
    s
}

/// Failures never outnumber the outcomes they occur in.
pub proof fn lemma_count_failures_bound(s: Seq<DownloadOutcome>)
    ensures
        count_failures(s) <= s.len(),
    decreases s.len(),
{
    if s.len() > 0 {
        lemma_count_failures_bound(s.drop_last());
    }
}

/// Law: at every observation point of a run — after any prefix of recorded
/// outcomes — the error count never exceeds the attempt count.
pub proof fn lemma_errors_never_exceed_attempts(outcomes: Seq<DownloadOutcome>, i: int)
    requires
        0 <= i <= outcomes.len(),
    ensures
        count_failures(outcomes.take(i)) <= i,
{
    lemma_count_failures_bound(outcomes.take(i));
}

/// Law: recording any outcome preserves the counter invariant, so errors
/// never exceed attempts whatever a download's outcome was.
pub proof fn lemma_recording_preserves_wf(c: Counters, o: DownloadOutcome)
    requires
        c.wf(),
        c.installed < u64::MAX,
    ensures
        recorded(c, o).wf(),
{
}

/// Law: an item whose destination file already exists increments only the
/// attempt count — the worker finishes without requesting, and recording its
/// outcome leaves the error count unchanged.
pub proof fn lemma_preexisting_counts_attempt_only(c: Counters, o: DownloadOutcome)
    requires
        c.installed < u64::MAX,
        WorkerState::Finished(o) == step_spec(WorkerState::Start, WorkerEvent::Exists(true)),
    ensures
        o == DownloadOutcome::AlreadyPresent,
        recorded(c, o).installed == c.installed + 1,
        recorded(c, o).errored == c.errored,
{
}

/// Law: an item whose GET returns a status other than 200 finishes as a bad
/// status, and recording it increments the attempt count and the error count
/// exactly once each.
pub proof fn lemma_bad_status_counts_both(c: Counters, status: u16)
    requires
        c.wf(),
        c.installed < u64::MAX,
        status != 200,
    ensures
        step_spec(WorkerState::AwaitResponse, WorkerEvent::Response(Some(status)))
            == WorkerState::Finished(DownloadOutcome::BadStatus(status)),
        recorded(c, DownloadOutcome::BadStatus(status)).installed == c.installed + 1,
        recorded(c, DownloadOutcome::BadStatus(status)).errored == c.errored + 1,
{
}

} // verus!
