use vstd::prelude::*;

verus! {

use vstd::string::StringExecFns;
use crate::rename::RenameOutcome;

/// The report line for one outcome.
pub open spec fn spec_line(o: RenameOutcome) -> Seq<char> {
    match o {
        RenameOutcome::Renamed { old_path, new_path } => old_path@ + " -> "@ + new_path@,
        RenameOutcome::Unchanged { path, reason } => path@ + " ("@ + reason@ + ")"@,
        RenameOutcome::Failed { path, error } => path@ + " failed: "@ + error@,
    }
}

/// The rendered report text of a non-empty batch: one line per outcome, each
/// ended by a newline.
pub open spec fn spec_render(outcomes: Seq<RenameOutcome>) -> Seq<char>
    decreases outcomes.len(),
{
    if outcomes.len() == 0 {
        Seq::empty()
    } else {
        spec_render(outcomes.drop_last()) + spec_line(outcomes.last()) + "\n"@
    }
}

/// The report line for one outcome, as `spec_line` defines it.
pub fn format_line(o: &RenameOutcome) -> (r: String)
    ensures
        r@ == spec_line(*o),
{
    match o {
        RenameOutcome::Renamed { old_path, new_path } => {
            let mut s = old_path.clone();
            s.append(" -> ");
            s.append(new_path.as_str());
            s
        },
        RenameOutcome::Unchanged { path, reason } => {
            let mut s = path.clone();
            s.append(" (");
            s.append(reason.as_str());
            s.append(")");
            s
        },
        RenameOutcome::Failed { path, error } => {
            let mut s = path.clone();
            s.append(" failed: ");
            s.append(error.as_str());
            s
        },
    }
}

/// The per-file outcomes of one batch run, in processing order, together
/// with the number of candidates the run set out to process. The completion
/// fraction after each step is the number of outcomes so far over the total.
pub struct BatchReport {
    outcomes: Vec<RenameOutcome>,
    total: usize,
}

impl BatchReport {
    /// The outcomes recorded so far, in processing order.
    pub closed spec fn outcomes_seq(&self) -> Seq<RenameOutcome> {
        self.outcomes@
    }

    /// The number of candidates of the batch.
    pub closed spec fn spec_total(&self) -> int {
        self.total as int
    }

    /// Never more outcomes than candidates, so the completion fraction stays
    /// within [0, 1].
    pub open spec fn wf(&self) -> bool {
        self.outcomes_seq().len() <= self.spec_total()
    }

    /// An empty report for a batch of `total` candidates.
    pub fn new(total: usize) -> (r: Self)
        ensures
            r.outcomes_seq() == Seq::<RenameOutcome>::empty(),
            r.spec_total() == total,
            r.wf(),
    {
        BatchReport { outcomes: Vec::new(), total }
    }

    /// Records the outcome of the next processed candidate.
    pub fn push(&mut self, o: RenameOutcome)
        requires
            old(self).wf(),
            old(self).outcomes_seq().len() < old(self).spec_total(),
        ensures
            final(self).outcomes_seq() == old(self).outcomes_seq().push(o),
            final(self).spec_total() == old(self).spec_total(),
            final(self).wf(),
    {
        self.outcomes.push(o);
    }

    /// How many candidates have been processed: the numerator of the
    /// completion fraction.
    pub fn processed(&self) -> (r: usize)
        ensures
            r == self.outcomes_seq().len(),
    {
        self.outcomes.len()
    }

    /// How many candidates the batch holds: the denominator of the
    /// completion fraction.
    pub fn total(&self) -> (r: usize)
        ensures
            r == self.spec_total(),
    {
        self.total
    }

    /// The recorded outcomes.
    pub fn outcomes(&self) -> (r: &Vec<RenameOutcome>)
        ensures
            r@ == self.outcomes_seq(),
    {
        &self.outcomes
    }

    /// The report lines, one per outcome, in processing order.
    pub fn lines(&self) -> (r: Vec<String>)
        ensures
            r.deep_view() == self.outcomes_seq().map_values(|o: RenameOutcome| spec_line(o)),
    {
        let mut r: Vec<String> = Vec::new();
        let mut i: usize = 0;
        while i < self.outcomes.len()
            invariant
                i <= self.outcomes.len(),
                r.deep_view() == self.outcomes@.subrange(0, i as int).map_values(
                    |o: RenameOutcome| spec_line(o),
                ),
            decreases self.outcomes.len() - i,
        {
            let ghost before = r.deep_view();
            let line = format_line(&self.outcomes[i]);
            let ghost line_view = line@;
            r.push(line);
            proof {
                let f = |o: RenameOutcome| spec_line(o);
                let next = self.outcomes@.subrange(0, i + 1 as int).map_values(f);
                assert(r.deep_view() =~= before.push(line_view));
                assert forall|k: int| 0 <= k < next.len() implies next[k] == r.deep_view()[k] by {
                    assert(next[k] == f(self.outcomes@[k]));
                    if k < i {
                        assert(before[k] == self.outcomes@.subrange(0, i as int).map_values(f)[k]);
                    }
                }
                assert(r.deep_view() =~= next);
            }
            i = i + 1;
        }
        proof {
            assert(self.outcomes@.subrange(0, self.outcomes@.len() as int) =~= self.outcomes@);
        }
        r
    }

    /// The rendered report: the distinguished message for an empty batch,
    /// otherwise one line per outcome, each ended by a newline.
    pub fn render(&self) -> (r: String)
        ensures
            r@ == if self.outcomes_seq().len() == 0 {
                "no files found"@
            } else {
                spec_render(self.outcomes_seq())
            },
    {
        if self.outcomes.len() == 0 {
            return "no files found".to_owned();
        }
        let mut s = String::new();
        let mut i: usize = 0;
        while i < self.outcomes.len()
            invariant
                i <= self.outcomes.len(),
                s@ == spec_render(self.outcomes@.subrange(0, i as int)),
            decreases self.outcomes.len() - i,
        {
            let line = format_line(&self.outcomes[i]);
            s.append(line.as_str());
            s.append("\n");
            proof {
                let next = self.outcomes@.subrange(0, i + 1 as int);
                assert(next.drop_last() =~= self.outcomes@.subrange(0, i as int));
                assert(next.last() == self.outcomes@[i as int]);
            }
            i = i + 1;
        }
        proof {
            assert(self.outcomes@.subrange(0, self.outcomes@.len() as int) =~= self.outcomes@);
        }
        s
    }
}

} // verus!
