//! What the parts of a job hand back to the engine.

use crate::metadata::JobRunMetadata;
use crate::text::join_lines;
use std::collections::VecDeque;
use vstd::prelude::*;
use vstd::std_specs::convert::FromSpecImpl;

verus! {

/// The troubles that a run went on in spite of, in the order in which they came.
#[derive(Debug)]
pub struct JobRunErrors(pub Vec<String>);

impl View for JobRunErrors {
    type V = Seq<String>;

    open spec fn view(&self) -> Seq<String> {
        self.0@
    }
}

impl JobRunErrors {
    pub fn is_empty(&self) -> (r: bool)
        ensures
            r == (self@.len() == 0),
    {
        self.0.is_empty()
    }

    /// The troubles as one text, a line each.
    pub fn to_string(&self) -> (r: String)
        ensures
            r@ == crate::text::joined(self@, self@.len()),
    {
        join_lines(&self.0)
    }
}

impl Default for JobRunErrors {
    fn default() -> (r: Self)
        ensures
            r@ == Seq::<String>::empty(),
    {
        JobRunErrors(Vec::new())
    }
}

impl From<Vec<String>> for JobRunErrors {
    fn from(errors: Vec<String>) -> (r: Self) {
        JobRunErrors(errors)
    }
}

impl FromSpecImpl<Vec<String>> for JobRunErrors {
    open spec fn obeys_from_spec() -> bool {
        true
    }

    open spec fn from_spec(errors: Vec<String>) -> JobRunErrors {
        JobRunErrors(errors)
    }
}

/// The items of `items` as a queue, the first to come out first.
pub fn queue_of<T>(items: Vec<T>) -> (r: VecDeque<T>)
    ensures
        r@ == items@,
{
    let mut left: Vec<T> = items;
    let mut queue: VecDeque<T> = VecDeque::new();
    assert(left@ + queue@ =~= items@);
    while left.len() > 0
        invariant
            left@ + queue@ == items@,
        decreases left@.len(),
    {
        if let Some(item) = left.pop() {
            let ghost before = queue@;
            queue.push_front(item);
            assert(left@ + queue@ =~= left@.push(item) + before);
        }
    }
    assert(left@ + queue@ =~= queue@);
    queue
}

/// What the first part of a job comes up with: the steps to go through.
pub struct JobInitOutput<RunMetadata, Step> {
    pub run_metadata: RunMetadata,
    pub steps: VecDeque<Step>,
    pub errors: JobRunErrors,
}

impl<RunMetadata, Step> From<(RunMetadata, Vec<Step>)> for JobInitOutput<RunMetadata, Step> {
    fn from(output: (RunMetadata, Vec<Step>)) -> (r: Self)
        ensures
            r.run_metadata == output.0,
            r.steps@ == output.1@,
            r.errors@ == Seq::<String>::empty(),
    {
        let (run_metadata, steps) = output;
        JobInitOutput { run_metadata, steps: queue_of(steps), errors: JobRunErrors::default() }
    }
}

impl<RunMetadata, Step> FromSpecImpl<(RunMetadata, Vec<Step>)>
    for JobInitOutput<RunMetadata, Step> {
    open spec fn obeys_from_spec() -> bool {
        false
    }

    open spec fn from_spec(output: (RunMetadata, Vec<Step>)) -> Self {
        arbitrary()
    }
}

impl<RunMetadata: Default, Step> From<Vec<Step>> for JobInitOutput<RunMetadata, Step> {
    fn from(steps: Vec<Step>) -> (r: Self)
        ensures
            call_ensures(<RunMetadata as Default>::default, (), r.run_metadata),
            r.steps@ == steps@,
            r.errors@ == Seq::<String>::empty(),
    {
        JobInitOutput {
            run_metadata: RunMetadata::default(),
            steps: queue_of(steps),
            errors: JobRunErrors::default(),
        }
    }
}

impl<RunMetadata: Default, Step> FromSpecImpl<Vec<Step>> for JobInitOutput<RunMetadata, Step> {
    open spec fn obeys_from_spec() -> bool {
        false
    }

    open spec fn from_spec(steps: Vec<Step>) -> Self {
        arbitrary()
    }
}

impl<RunMetadata, Step> From<(RunMetadata, Vec<Step>, JobRunErrors)>
    for JobInitOutput<RunMetadata, Step> {
    fn from(output: (RunMetadata, Vec<Step>, JobRunErrors)) -> (r: Self)
        ensures
            r.run_metadata == output.0,
            r.steps@ == output.1@,
            r.errors == output.2,
    {
        let (run_metadata, steps, errors) = output;
        JobInitOutput { run_metadata, steps: queue_of(steps), errors }
    }
}

impl<RunMetadata, Step> FromSpecImpl<(RunMetadata, Vec<Step>, JobRunErrors)>
    for JobInitOutput<RunMetadata, Step> {
    open spec fn obeys_from_spec() -> bool {
        false
    }

    open spec fn from_spec(output: (RunMetadata, Vec<Step>, JobRunErrors)) -> Self {
        arbitrary()
    }
}

/// The step that a job is asked to take, and how many came before it.
pub struct CurrentStep<'step, Step> {
    pub step: &'step Step,
    pub step_number: usize,
}

/// What a step of a job comes up with.
pub struct JobStepOutput<Step, RunMetadata> {
    pub maybe_more_steps: Option<Vec<Step>>,
    pub maybe_more_metadata: Option<RunMetadata>,
    pub errors: JobRunErrors,
}

impl<Step, RunMetadata> JobStepOutput<Step, RunMetadata> {
    /// The steps that the step asks for on top, none where it asks for nothing.
    pub open spec fn more_steps(self) -> Seq<Step> {
        match self.maybe_more_steps {
            Some(steps) => steps@,
            None => Seq::empty(),
        }
    }
}

impl<Step, RunMetadata: JobRunMetadata> From<Vec<Step>> for JobStepOutput<Step, RunMetadata> {
    fn from(more_steps: Vec<Step>) -> (r: Self)
        ensures
            r.maybe_more_steps == Some(more_steps),
            r.maybe_more_metadata is None,
            r.errors@ == Seq::<String>::empty(),
    {
        JobStepOutput {
            maybe_more_steps: Some(more_steps),
            maybe_more_metadata: None,
            errors: JobRunErrors::default(),
        }
    }
}

impl<Step, RunMetadata: JobRunMetadata> FromSpecImpl<Vec<Step>>
    for JobStepOutput<Step, RunMetadata> {
    open spec fn obeys_from_spec() -> bool {
        false
    }

    open spec fn from_spec(more_steps: Vec<Step>) -> Self {
        arbitrary()
    }
}

impl<Step, RunMetadata: JobRunMetadata> From<RunMetadata> for JobStepOutput<Step, RunMetadata> {
    fn from(more_metadata: RunMetadata) -> (r: Self)
        ensures
            r.maybe_more_steps is None,
            r.maybe_more_metadata == Some(more_metadata),
            r.errors@ == Seq::<String>::empty(),
    {
        JobStepOutput {
            maybe_more_steps: None,
            maybe_more_metadata: Some(more_metadata),
            errors: JobRunErrors::default(),
        }
    }
}

impl<Step, RunMetadata: JobRunMetadata> FromSpecImpl<RunMetadata>
    for JobStepOutput<Step, RunMetadata> {
    open spec fn obeys_from_spec() -> bool {
        false
    }

    open spec fn from_spec(more_metadata: RunMetadata) -> Self {
        arbitrary()
    }
}

impl<Step, RunMetadata: JobRunMetadata> From<JobRunErrors> for JobStepOutput<Step, RunMetadata> {
    fn from(errors: JobRunErrors) -> (r: Self) {
        JobStepOutput { maybe_more_steps: None, maybe_more_metadata: None, errors }
    }
}

impl<Step, RunMetadata: JobRunMetadata> FromSpecImpl<JobRunErrors>
    for JobStepOutput<Step, RunMetadata> {
    open spec fn obeys_from_spec() -> bool {
        true
    }

    open spec fn from_spec(errors: JobRunErrors) -> Self {
        JobStepOutput { maybe_more_steps: None, maybe_more_metadata: None, errors }
    }
}

impl<Step, RunMetadata: JobRunMetadata> From<(Vec<Step>, RunMetadata)>
    for JobStepOutput<Step, RunMetadata> {
    fn from(output: (Vec<Step>, RunMetadata)) -> (r: Self)
        ensures
            r.maybe_more_steps == Some(output.0),
            r.maybe_more_metadata == Some(output.1),
            r.errors@ == Seq::<String>::empty(),
    {
        let (more_steps, more_metadata) = output;
        JobStepOutput {
            maybe_more_steps: Some(more_steps),
            maybe_more_metadata: Some(more_metadata),
            errors: JobRunErrors::default(),
        }
    }
}

impl<Step, RunMetadata: JobRunMetadata> FromSpecImpl<(Vec<Step>, RunMetadata)>
    for JobStepOutput<Step, RunMetadata> {
    open spec fn obeys_from_spec() -> bool {
        false
    }

    open spec fn from_spec(output: (Vec<Step>, RunMetadata)) -> Self {
        arbitrary()
    }
}

impl<Step, RunMetadata: JobRunMetadata> From<(RunMetadata, JobRunErrors)>
    for JobStepOutput<Step, RunMetadata> {
    fn from(output: (RunMetadata, JobRunErrors)) -> (r: Self) {
        let (more_metadata, errors) = output;
        JobStepOutput {
            maybe_more_steps: None,
            maybe_more_metadata: Some(more_metadata),
            errors,
        }
    }
}

impl<Step, RunMetadata: JobRunMetadata> FromSpecImpl<(RunMetadata, JobRunErrors)>
    for JobStepOutput<Step, RunMetadata> {
    open spec fn obeys_from_spec() -> bool {
        true
    }

    open spec fn from_spec(output: (RunMetadata, JobRunErrors)) -> Self {
        JobStepOutput {
            maybe_more_steps: None,
            maybe_more_metadata: Some(output.0),
            errors: output.1,
        }
    }
}

impl<Step, RunMetadata: JobRunMetadata> From<(Vec<Step>, RunMetadata, JobRunErrors)>
    for JobStepOutput<Step, RunMetadata> {
    fn from(output: (Vec<Step>, RunMetadata, JobRunErrors)) -> (r: Self) {
        let (more_steps, more_metadata, errors) = output;
        JobStepOutput {
            maybe_more_steps: Some(more_steps),
            maybe_more_metadata: Some(more_metadata),
            errors,
        }
    }
}

impl<Step, RunMetadata: JobRunMetadata> FromSpecImpl<(Vec<Step>, RunMetadata, JobRunErrors)>
    for JobStepOutput<Step, RunMetadata> {
    open spec fn obeys_from_spec() -> bool {
        true
    }

    open spec fn from_spec(output: (Vec<Step>, RunMetadata, JobRunErrors)) -> Self {
        JobStepOutput {
            maybe_more_steps: Some(output.0),
            maybe_more_metadata: Some(output.1),
            errors: output.2,
        }
    }
}

/// A step that comes up with nothing.
impl<Step, RunMetadata: JobRunMetadata> From<Option<()>> for JobStepOutput<Step, RunMetadata> {
    fn from(_output: Option<()>) -> (r: Self)
        ensures
            r.maybe_more_steps is None,
            r.maybe_more_metadata is None,
            r.errors@ == Seq::<String>::empty(),
    {
        JobStepOutput {
            maybe_more_steps: None,
            maybe_more_metadata: None,
            errors: JobRunErrors::default(),
        }
    }
}

impl<Step, RunMetadata: JobRunMetadata> FromSpecImpl<Option<()>>
    for JobStepOutput<Step, RunMetadata> {
    open spec fn obeys_from_spec() -> bool {
        false
    }

    open spec fn from_spec(output: Option<()>) -> Self {
        arbitrary()
    }
}

} // verus!
