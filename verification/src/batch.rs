//! Batches: one crop per input path, each with its own outcome, in input
//! order.

use crate::error::{CropError, CropErrorView};
use crate::geometry::CropSettings;
use crate::paths::{build_output_path, OutputPath};
use vstd::prelude::*;

verus! {

/// The outcome of one crop of a batch.
#[derive(Debug, Clone, PartialEq, Eq)]
pub struct CropResult {
    pub input_path: String,
    pub output_path: String,
    pub success: bool,
    /// The description of the failure; `None` on success.
    pub error: Option<String>,
}

/// A `CropResult` with its texts as character sequences.
pub struct CropResultView {
    pub input_path: Seq<char>,
    pub output_path: Seq<char>,
    pub success: bool,
    pub error: Option<Seq<char>>,
}

impl View for CropResult {
    type V = CropResultView;

    open spec fn view(&self) -> CropResultView {
        CropResultView {
            input_path: self.input_path@,
            output_path: self.output_path@,
            success: self.success,
            error: self.error.deep_view(),
        }
    }
}

/// What one crop came to, with the texts of a failure as character
/// sequences.
pub open spec fn outcome_view(outcome: Result<(), CropError>) -> Result<(), CropErrorView> {
    match outcome {
        Ok(_) => Ok(()),
        Err(e) => Err(e@),
    }
}

/// The record of a crop from `input_path` to `output_path` that ended as
/// `outcome`: marked a success without an error, or a failure with the
/// error's description.
pub open spec fn outcome_record(
    input_path: Seq<char>,
    output_path: Seq<char>,
    outcome: Result<(), CropErrorView>,
) -> CropResultView {
    CropResultView {
        input_path,
        output_path,
        success: outcome is Ok,
        error: match outcome {
            Ok(_) => None,
            Err(e) => Some(e.message()),
        },
    }
}

/// Records how the crop of one file ended.
pub fn crop_single(path: &str, output_path: &str, outcome: Result<(), CropError>) -> (r: CropResult)
    ensures
        r@ == outcome_record(path@, output_path@, outcome_view(outcome)),
{
    match outcome {
        Ok(_) => CropResult {
            input_path: String::from_str(path),
            output_path: String::from_str(output_path),
            success: true,
            error: None,
        },
        Err(e) => CropResult {
            input_path: String::from_str(path),
            output_path: String::from_str(output_path),
            success: false,
            error: Some(e.message()),
        },
    }
}

/// The records of `results`, each by its view.
pub open spec fn record_views(results: Seq<CropResult>) -> Seq<CropResultView> {
    Seq::new(results.len(), |i: int| results[i]@)
}

/// One crop to carry out: the file to read and where its cropped copy goes.
#[derive(Debug, Clone, PartialEq, Eq)]
pub struct Job {
    pub input_path: String,
    pub output: OutputPath,
}

/// The records that a batch over `jobs` holds after one more crop ended as
/// `outcome`: the record of the next job is appended, and a batch that is
/// already complete stays as it is.
pub open spec fn recorded(
    jobs: Seq<Job>,
    results: Seq<CropResultView>,
    outcome: Result<(), CropErrorView>,
) -> Seq<CropResultView> {
    if results.len() < jobs.len() {
        let job = jobs[results.len() as int];
        results.push(outcome_record(job.input_path@, job.output.path@, outcome))
    } else {
        results
    }
}

/// The records that a fresh batch over `jobs` holds after crops ended as
/// `outcomes`, in that order.
pub open spec fn recorded_all(jobs: Seq<Job>, outcomes: Seq<Result<(), CropErrorView>>) -> Seq<
    CropResultView,
>
    decreases outcomes.len(),
{
    if outcomes.len() == 0 {
        Seq::empty()
    } else {
        recorded(jobs, recorded_all(jobs, outcomes.drop_last()), outcomes.last())
    }
}

/// The number of records marked as successes.
pub open spec fn successes(results: Seq<CropResultView>) -> nat
    decreases results.len(),
{
    if results.len() == 0 {
        0
    } else {
        successes(results.drop_last()) + if results.last().success {
            1nat
        } else {
            0nat
        }
    }
}

/// The number of crops that failed.
pub open spec fn failures(outcomes: Seq<Result<(), CropErrorView>>) -> nat
    decreases outcomes.len(),
{
    if outcomes.len() == 0 {
        0
    } else {
        failures(outcomes.drop_last()) + if outcomes.last() is Err {
            1nat
        } else {
            0nat
        }
    }
}

/// After outcomes for the first jobs of a batch, however many, the batch
/// holds one record per outcome, in job order, each made from the paths of
/// its own job and from that job's own outcome. As many records are marked
/// failures as crops failed, each with a description, and all the others are
/// marked successes: a failure changes nothing about the records of other
/// jobs.
pub proof fn lemma_batch_records(jobs: Seq<Job>, outcomes: Seq<Result<(), CropErrorView>>)
    requires
        outcomes.len() <= jobs.len(),
    ensures
        recorded_all(jobs, outcomes).len() == outcomes.len(),
        forall|i: int|
            0 <= i < outcomes.len() ==> #[trigger] recorded_all(jobs, outcomes)[i]
                == outcome_record(jobs[i].input_path@, jobs[i].output.path@, outcomes[i]),
        forall|i: int|
            0 <= i < outcomes.len() ==> ((#[trigger] recorded_all(jobs, outcomes)[i]).success
                <==> outcomes[i] is Ok) && (recorded_all(jobs, outcomes)[i].error is Some
                <==> outcomes[i] is Err),
        successes(recorded_all(jobs, outcomes)) + failures(outcomes) == outcomes.len(),
    decreases outcomes.len(),
{
    if outcomes.len() > 0 {
        let earlier = outcomes.drop_last();
        lemma_batch_records(jobs, earlier);
        let before = recorded_all(jobs, earlier);
        let after = recorded_all(jobs, outcomes);
        assert(after.drop_last() =~= before);
        assert forall|i: int| 0 <= i < outcomes.len() implies #[trigger] after[i]
            == outcome_record(jobs[i].input_path@, jobs[i].output.path@, outcomes[i]) by {
            if i < earlier.len() {
                assert(after[i] == before[i]);
                assert(earlier[i] == outcomes[i]);
            }
        }
    }
}

/// A batch of crops under one shared set of margins.
///
/// The batch hands out its jobs one at a time, in input order, and takes
/// back the outcome of each. No outcome ends the batch early.
pub struct Batch {
    settings: CropSettings,
    jobs: Vec<Job>,
    results: Vec<CropResult>,
}

impl Batch {
    /// The jobs of the batch, in input order.
    pub closed spec fn jobs(&self) -> Seq<Job> {
        self.jobs@
    }

    /// The records made so far, in input order.
    pub closed spec fn results(&self) -> Seq<CropResultView> {
        record_views(self.results@)
    }

    /// The margins that every job of the batch is cropped by.
    pub closed spec fn margins(&self) -> CropSettings {
        self.settings
    }

    /// No more outcomes have been recorded than there are jobs, and each
    /// record is that of the job at its own position.
    #[verifier::type_invariant]
    closed spec fn orderly(&self) -> bool {
        &&& self.results.len() <= self.jobs.len()
        &&& forall|i: int|
            0 <= i < self.results.len() ==> {
                &&& (#[trigger] self.results[i]).input_path@ == self.jobs[i].input_path@
                &&& self.results[i].output_path@ == self.jobs[i].output.path@
            }
    }

    /// Every job has its record.
    pub open spec fn complete(&self) -> bool {
        self.results().len() == self.jobs().len()
    }

    /// Plans one crop for each path, in order: each job reads its own path
    /// and writes to the output location of that path under the override
    /// directory.
    pub fn new(paths: &Vec<String>, settings: CropSettings, output_dir: Option<&str>) -> (r: Batch)
        ensures
            r.margins() == settings,
            r.results().len() == 0,
            r.jobs().len() == paths.len(),
            forall|i: int|
                0 <= i < paths.len() ==> (#[trigger] r.jobs()[i]).input_path@ == paths[i]@,
            forall|i: int|
                0 <= i < paths.len() ==> (#[trigger] r.jobs()[i]).output.output_for(
                    paths[i]@,
                    output_dir.deep_view(),
                ),
    {
        let mut jobs: Vec<Job> = Vec::new();
        let count: usize = paths.len();
        for at in 0..count
            invariant
                count == paths.len(),
                jobs.len() == at,
                forall|i: int| 0 <= i < at ==> (#[trigger] jobs[i]).input_path@ == paths[i]@,
                forall|i: int|
                    0 <= i < at ==> (#[trigger] jobs[i]).output.output_for(
                        paths[i]@,
                        output_dir.deep_view(),
                    ),
        {
            let input_path = paths[at].clone();
            let output = build_output_path(input_path.as_str(), output_dir);
            jobs.push(Job { input_path, output });
        }
        Batch { settings, jobs, results: Vec::new() }
    }

    /// The margins shared by all jobs.
    pub fn settings(&self) -> (r: CropSettings)
        ensures
            r == self.margins(),
    {
        self.settings
    }

    /// Whether every job has its record.
    pub fn is_complete(&self) -> (r: bool)
        ensures
            r == self.complete(),
    {
        self.results.len() == self.jobs.len()
    }

    /// The job to carry out next: the first without a record, or `None` once
    /// the batch is complete.
    pub fn next_job(&self) -> (r: Option<&Job>)
        ensures
            match r {
                Some(job) => !self.complete() && *job == self.jobs()[self.results().len() as int],
                None => self.complete(),
            },
    {
        proof {
            use_type_invariant(self);
        }
        if self.results.len() < self.jobs.len() {
            Some(&self.jobs[self.results.len()])
        } else {
            None
        }
    }

    /// Takes the outcome of the job last handed out and records it. The
    /// batch goes on to the next job whatever the outcome was; on a
    /// complete batch nothing changes.
    pub fn record(&mut self, outcome: Result<(), CropError>)
        ensures
            final(self).jobs() == old(self).jobs(),
            final(self).margins() == old(self).margins(),
            final(self).results() == recorded(
                old(self).jobs(),
                old(self).results(),
                outcome_view(outcome),
            ),
    {
        proof {
            use_type_invariant(&*self);
        }
        if self.results.len() < self.jobs.len() {
            let job = &self.jobs[self.results.len()];
            let result = crop_single(job.input_path.as_str(), job.output.path.as_str(), outcome);
            // The records leave the batch while one is appended, so that the
            // batch is orderly at every step.
            let mut results: Vec<CropResult> = Vec::new();
            std::mem::swap(&mut self.results, &mut results);
            results.push(result);
            std::mem::swap(&mut self.results, &mut results);
            assert(self.results() =~= recorded(
                old(self).jobs(),
                old(self).results(),
                outcome_view(outcome),
            ));
        }
    }

    /// Hands over the records made: one for each job attempted, in input
    /// order, each naming the paths of its own job.
    pub fn into_results(self) -> (r: Vec<CropResult>)
        ensures
            record_views(r@) == self.results(),
            r@.len() == self.results().len(),
            r@.len() <= self.jobs().len(),
            forall|i: int| 0 <= i < r@.len() ==> (#[trigger] r@[i])@ == self.results()[i],
            forall|i: int|
                0 <= i < r@.len() ==> {
                    &&& (#[trigger] r@[i]).input_path@ == self.jobs()[i].input_path@
                    &&& r@[i].output_path@ == self.jobs()[i].output.path@
                },
    {
        proof {
            use_type_invariant(&self);
        }
        self.results
    }
}

} // verus!
