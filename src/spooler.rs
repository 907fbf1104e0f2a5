//! The steps of a raw print job on the host's spooler. A job opens the
//! printer queue, starts a document, starts a page, writes the bytes, then
//! ends the page, ends the document and closes the queue. Every step is
//! checked; when one fails, what the earlier steps acquired is released, in
//! reverse order, and nothing else runs.
use vstd::prelude::*;

verus! {

/// One call into the spooler.
#[derive(Clone, Copy, Debug, PartialEq, Eq, Structural)]
pub enum SpoolStep {
    OpenPrinter,
    StartDoc,
    StartPage,
    WriteData,
    EndPage,
    EndDoc,
    ClosePrinter,
}

/// The step that follows `step`, given whether it succeeded; `None` where
/// the job is over.
pub open spec fn spool_successor(step: SpoolStep, ok: bool) -> Option<SpoolStep> {
    match step {
        SpoolStep::OpenPrinter => if ok {
            Some(SpoolStep::StartDoc)
        } else {
            None
        },
        SpoolStep::StartDoc => if ok {
            Some(SpoolStep::StartPage)
        } else {
            Some(SpoolStep::ClosePrinter)
        },
        SpoolStep::StartPage => if ok {
            Some(SpoolStep::WriteData)
        } else {
            Some(SpoolStep::EndDoc)
        },
        SpoolStep::WriteData => Some(SpoolStep::EndPage),
        SpoolStep::EndPage => Some(SpoolStep::EndDoc),
        SpoolStep::EndDoc => Some(SpoolStep::ClosePrinter),
        SpoolStep::ClosePrinter => None,
    }
}

/// The step that releases what `step` acquired, if it acquires anything.
pub open spec fn release_of(step: SpoolStep) -> Option<SpoolStep> {
    match step {
        SpoolStep::OpenPrinter => Some(SpoolStep::ClosePrinter),
        SpoolStep::StartDoc => Some(SpoolStep::EndDoc),
        SpoolStep::StartPage => Some(SpoolStep::EndPage),
        _ => None,
    }
}

/// The steps that run from `step` on, where every step from `step` on
/// succeeds except that `failed` fails (if it comes up).
pub open spec fn run_from(step: SpoolStep, failed: SpoolStep, fuel: nat) -> Seq<SpoolStep>
    decreases fuel,
{
    if fuel == 0 {
        Seq::empty()
    } else {
        match spool_successor(step, step != failed) {
            Some(next) => seq![step] + run_from(next, failed, (fuel - 1) as nat),
            None => seq![step],
        }
    }
}

/// The first step of every job.
pub fn spool_first_step() -> (r: SpoolStep)
    ensures
        r == SpoolStep::OpenPrinter,
{
    SpoolStep::OpenPrinter
}

/// The step that follows `step`, given whether it succeeded; `None` where
/// the job is over.
pub fn spool_next(step: SpoolStep, ok: bool) -> (r: Option<SpoolStep>)
    ensures
        r == spool_successor(step, ok),
{
    match step {
        SpoolStep::OpenPrinter => if ok {
            Some(SpoolStep::StartDoc)
        } else {
            None
        },
        SpoolStep::StartDoc => if ok {
            Some(SpoolStep::StartPage)
        } else {
            Some(SpoolStep::ClosePrinter)
        },
        SpoolStep::StartPage => if ok {
            Some(SpoolStep::WriteData)
        } else {
            Some(SpoolStep::EndDoc)
        },
        SpoolStep::WriteData => Some(SpoolStep::EndPage),
        SpoolStep::EndPage => Some(SpoolStep::EndDoc),
        SpoolStep::EndDoc => Some(SpoolStep::ClosePrinter),
        SpoolStep::ClosePrinter => None,
    }
}

/// Whatever step fails, a job ends within seven steps, and every step that
/// acquired something and succeeded is followed by the step that releases
/// it. A failed acquiring step is released by no one, and the data is
/// written only after the queue, the document and the page are open.
pub proof fn lemma_spool_releases(failed: SpoolStep)
    ensures
        ({
            let run = run_from(SpoolStep::OpenPrinter, failed, 7);
            &&& run.len() <= 7
            &&& run.last() == (if failed == SpoolStep::OpenPrinter {
                SpoolStep::OpenPrinter
            } else {
                SpoolStep::ClosePrinter
            })
            &&& forall|i: int|
                0 <= i < run.len() && (#[trigger] run[i]) != failed && release_of(run[i]) is Some
                    ==> exists|j: int| i < j < run.len() && run[j] == release_of(run[i])->Some_0
            &&& forall|i: int|
                0 <= i < run.len() && #[trigger] run[i] == failed ==> release_of(failed) is None
                    || forall|j: int| i < j < run.len() ==> run[j] != release_of(failed)->Some_0
            &&& forall|i: int|
                0 <= i < run.len() && #[trigger] run[i] == SpoolStep::WriteData ==> failed
                    != SpoolStep::OpenPrinter && failed != SpoolStep::StartDoc && failed
                    != SpoolStep::StartPage
        }),
{
    reveal_with_fuel(run_from, 8);
    let run = run_from(SpoolStep::OpenPrinter, failed, 7);
    match failed {
        SpoolStep::OpenPrinter => {
            assert(run =~= seq![SpoolStep::OpenPrinter]);
        },
        SpoolStep::StartDoc => {
            assert(run =~= seq![SpoolStep::OpenPrinter, SpoolStep::StartDoc, SpoolStep::ClosePrinter]);
        },
        SpoolStep::StartPage => {
            assert(run =~= seq![
                SpoolStep::OpenPrinter,
                SpoolStep::StartDoc,
                SpoolStep::StartPage,
                SpoolStep::EndDoc,
                SpoolStep::ClosePrinter,
            ]);
            assert(run[3] == SpoolStep::EndDoc);
            assert(run[4] == SpoolStep::ClosePrinter);
        },
        _ => {
            assert(run =~= seq![
                SpoolStep::OpenPrinter,
                SpoolStep::StartDoc,
                SpoolStep::StartPage,
                SpoolStep::WriteData,
                SpoolStep::EndPage,
                SpoolStep::EndDoc,
                SpoolStep::ClosePrinter,
            ]);
            assert(run[4] == SpoolStep::EndPage);
            assert(run[5] == SpoolStep::EndDoc);
            assert(run[6] == SpoolStep::ClosePrinter);
        },
    }
}

} // verus!
