use vstd::prelude::*;

use crate::cache::InstallError;

verus! {

/// One step of installing a release into its cache directory. The executable
/// only ever appears at its final path through `RenameIntoPlace`.
#[derive(Clone, Copy, Debug, PartialEq, Eq, Structural)]
pub enum InstallStep {
    /// Fetch side artifact `k` of the plan and write it at its final path.
    WriteVerbatim(usize),
    /// Fetch the payload, decode it, and write it to a temporary file in the
    /// release's cache directory.
    DecodeToTemp,
    /// Make the temporary file executable.
    MarkExecutable,
    /// Rename the temporary file to the executable's final path.
    RenameIntoPlace,
    /// The executable is installed.
    Done,
    /// Stop; the temporary file is discarded and the final path untouched.
    Abort(InstallError),
}

/// How the step that was just performed went.
#[derive(Clone, Copy, Debug, PartialEq, Eq, Structural)]
pub enum StepOutcome {
    Succeeded,
    Failed(InstallError),
}

pub open spec fn first_step(n: nat) -> InstallStep {
    if n > 0 { InstallStep::WriteVerbatim(0) } else { InstallStep::DecodeToTemp }
}

pub open spec fn is_final(s: InstallStep) -> bool {
    s is Done || s is Abort
}

pub open spec fn next_step(n: nat, s: InstallStep, o: StepOutcome) -> InstallStep {
    if is_final(s) {
        s
    } else {
        match o {
            StepOutcome::Failed(e) => InstallStep::Abort(e),
            StepOutcome::Succeeded => match s {
                InstallStep::WriteVerbatim(k) => if k + 1 < n { InstallStep::WriteVerbatim((k + 1) as usize) } else { InstallStep::DecodeToTemp },
                InstallStep::DecodeToTemp => InstallStep::MarkExecutable,
                InstallStep::MarkExecutable => InstallStep::RenameIntoPlace,
                _ => InstallStep::Done,
            },
        }
    }
}

/// The steps issued from `s` on, given the outcomes of the steps performed.
pub open spec fn run(n: nat, s: InstallStep, outs: Seq<StepOutcome>) -> Seq<InstallStep>
    decreases outs.len(),
{
    if outs.len() == 0 {
        seq![s]
    } else {
        seq![s] + run(n, next_step(n, s, outs[0]), outs.skip(1))
    }
}

/// The first step of installing with `verbatim_count` side artifacts.
pub fn first_install_step(verbatim_count: usize) -> (r: InstallStep)
    ensures
        r == first_step(verbatim_count as nat),
{
    if verbatim_count > 0 { InstallStep::WriteVerbatim(0) } else { InstallStep::DecodeToTemp }
}

/// The step that follows `step` given its outcome: any failure aborts.
pub fn next_install_step(verbatim_count: usize, step: InstallStep, outcome: StepOutcome) -> (r: InstallStep)
    ensures
        r == next_step(verbatim_count as nat, step, outcome),
{
    match step {
        InstallStep::Done | InstallStep::Abort(_) => step,
        _ => match outcome {
            StepOutcome::Failed(e) => InstallStep::Abort(e),
            StepOutcome::Succeeded => match step {
                InstallStep::WriteVerbatim(k) => if k < verbatim_count && k + 1 < verbatim_count {
                    InstallStep::WriteVerbatim(k + 1)
                } else {
                    InstallStep::DecodeToTemp
                },
                InstallStep::DecodeToTemp => InstallStep::MarkExecutable,
                InstallStep::MarkExecutable => InstallStep::RenameIntoPlace,
                _ => InstallStep::Done,
            },
        },
    }
}

/// Side artifact `k` was issued among the first `p` steps of `tr`.
pub open spec fn issued_before(tr: Seq<InstallStep>, p: int, k: nat) -> bool {
    exists|q: int| 0 <= q < p && tr[q] == InstallStep::WriteVerbatim(k as usize)
}

proof fn lemma_final_stays(n: nat, s: InstallStep, outs: Seq<StepOutcome>)
    requires
        is_final(s),
    ensures
        forall|p: int| 0 <= p < run(n, s, outs).len() ==> run(n, s, outs)[p] == s,
    decreases outs.len(),
{
    if outs.len() > 0 {
        lemma_final_stays(n, s, outs.skip(1));
    }
}

proof fn lemma_run_len(n: nat, s: InstallStep, outs: Seq<StepOutcome>)
    ensures
        run(n, s, outs).len() == outs.len() + 1,
    decreases outs.len(),
{
    if outs.len() > 0 {
        lemma_run_len(n, next_step(n, s, outs[0]), outs.skip(1));
    }
}

proof fn lemma_rename_after_success(n: nat, s: InstallStep, outs: Seq<StepOutcome>, p: int)
    requires
        0 <= p < run(n, s, outs).len(),
        run(n, s, outs)[p] == InstallStep::RenameIntoPlace,
    ensures
        forall|q: int| 0 <= q < p ==> outs[q] == StepOutcome::Succeeded,
    decreases outs.len(),
{
    lemma_run_len(n, s, outs);
    if p > 0 {
        let t = next_step(n, s, outs[0]);
        assert(run(n, s, outs)[p] == run(n, t, outs.skip(1))[p - 1]);
        if is_final(s) {
            lemma_final_stays(n, s, outs);
        } else if outs[0] != StepOutcome::Succeeded {
            lemma_final_stays(n, t, outs.skip(1));
        }
        lemma_rename_after_success(n, t, outs.skip(1), p - 1);
        assert forall|q: int| 0 <= q < p implies outs[q] == StepOutcome::Succeeded by {
            if q > 0 {
                assert(outs.skip(1)[q - 1] == outs[q]);
            }
        }
    }
}

proof fn lemma_verbatim_before_rename(n: nat, m: nat, outs: Seq<StepOutcome>, p: int)
    requires
        m < n,
        n <= usize::MAX,
        0 <= p < run(n, InstallStep::WriteVerbatim(m as usize), outs).len(),
        run(n, InstallStep::WriteVerbatim(m as usize), outs)[p] == InstallStep::RenameIntoPlace,
    ensures
        forall|k: nat| m <= k < n ==> #[trigger] issued_before(run(n, InstallStep::WriteVerbatim(m as usize), outs), p, k),
    decreases outs.len(),
{
    let s = InstallStep::WriteVerbatim(m as usize);
    let tr = run(n, s, outs);
    assert(p > 0);
    let t = next_step(n, s, outs[0]);
    assert(tr[p] == run(n, t, outs.skip(1))[p - 1]);
    lemma_rename_after_success(n, s, outs, p);
    assert(outs[0] == StepOutcome::Succeeded);
    assert(tr[0] == s);
    if m + 1 < n {
        lemma_verbatim_before_rename(n, m + 1, outs.skip(1), p - 1);
        assert forall|k: nat| m <= k < n implies #[trigger] issued_before(tr, p, k) by {
            if k > m {
                assert(issued_before(run(n, t, outs.skip(1)), p - 1, k));
                let q = choose|q: int| 0 <= q < p - 1 && run(n, t, outs.skip(1))[q] == InstallStep::WriteVerbatim(k as usize);
                assert(tr[q + 1] == run(n, t, outs.skip(1))[q]);
            } else {
                assert(tr[0] == InstallStep::WriteVerbatim(k as usize));
            }
        }
    } else {
        assert(tr[0] == InstallStep::WriteVerbatim(m as usize));
        assert(issued_before(tr, p, m));
    }
}

/// Installing is atomic: the executable is renamed into place only after every
/// earlier step succeeded, so a failure while fetching or decoding never
/// leaves a file at the final path; and every side artifact was written
/// before that rename.
pub proof fn lemma_install_atomic(verbatim_count: usize, outs: Seq<StepOutcome>, p: int)
    requires
        0 <= p < run(verbatim_count as nat, first_step(verbatim_count as nat), outs).len(),
        run(verbatim_count as nat, first_step(verbatim_count as nat), outs)[p] == InstallStep::RenameIntoPlace,
    ensures
        forall|q: int| 0 <= q < p ==> outs[q] == StepOutcome::Succeeded,
        forall|k: nat| k < verbatim_count ==> #[trigger] issued_before(run(verbatim_count as nat, first_step(verbatim_count as nat), outs), p, k),
{
    let n = verbatim_count as nat;
    lemma_rename_after_success(n, first_step(n), outs, p);
    if n > 0 {
        lemma_verbatim_before_rename(n, 0, outs, p);
    }
}

} // verus!
