//! The document and the session: a raw configuration document is validated —
//! ascii fields, a well-formed shape, at least one job, the aggregate value
//! bound — and then resolved into an immutable session: session-level
//! modifier defaults are merged into each job, once, and every optional field
//! is closed.

use vstd::prelude::*;

use crate::WEIGHT_LIMIT;
use crate::create::CreationError;
use crate::details::Details;
use crate::details::DetailsConfiguration;
use crate::details::Select;
use crate::details::Shape;
use crate::details::details_as_configuration;
use crate::details::details_valid;
use crate::details::lemma_details_resolution_idempotent;
use crate::details::shape_valid;
use crate::details::spec_resolve_details;
use crate::details::spec_validate_details;
use crate::job::Job;
use crate::job::JobConfiguration;
use crate::job::Jobs;
use crate::job::JobsConfiguration;
use crate::job::config_value;
use crate::job::job_as_configuration;
use crate::job::lemma_job_resolution_idempotent;
use crate::job::spec_resolve_job;
use crate::modifiers::ModifiersConfiguration;
use crate::modifiers::modifiers_as_configuration;
use crate::modifiers::modifiers_offending_field;
use crate::modifiers::spec_resolve_modifiers;
use crate::values::lemma_prefix_sum_mono;
use crate::values::prefix_sum;
use crate::values::seq_sum;

verus! {

/// A whole document or session: the session-level details and the ordered
/// jobs. `D` and `J` choose between the configuration form
/// ([`SessionConfiguration`]) and the resolved form ([`Session`]).
#[derive(Clone, Debug, PartialEq, Eq)]
pub struct SessionBase<D, J> {
    /// The session-level details.
    pub details: D,
    /// The ordered jobs of the run.
    pub jobs: J,
}

/// A raw document: details and jobs both in configuration form.
pub type SessionConfiguration = SessionBase<DetailsConfiguration, JobsConfiguration>;

/// The raw document under its older name.
pub type Config = SessionBase<DetailsConfiguration, JobsConfiguration>;

/// A resolved session: immutable for the run's duration.
pub type Session = SessionBase<Details, Jobs>;

/// The values of the configured jobs as they enter the aggregate bound; an
/// unset value counts as zero.
pub open spec fn config_values(jobs: Seq<JobConfiguration>) -> Seq<u64> {
    jobs.map_values(|j: JobConfiguration| config_value(j))
}

/// The values of the resolved jobs.
pub open spec fn job_values(jobs: Seq<Job>) -> Seq<u64> {
    jobs.map_values(|j: Job| j.value)
}

/// The bound that the summed job values must respect: the weight limit under
/// `Random`, the run's total step count under `Linear` and `Interleave`.
pub open spec fn value_bound(shape: Shape) -> int {
    match shape.select {
        Select::Random => WEIGHT_LIMIT as int,
        Select::Linear => shape.steps as int,
        Select::Interleave => shape.steps as int,
    }
}

/// The first job whose modifier overrides hold a non-ascii string, reported
/// as its validation error, if any.
pub open spec fn first_job_error(jobs: Seq<JobConfiguration>) -> Option<CreationError>
    decreases jobs.len(),
{
    if jobs.len() == 0 {
        None
    } else if modifiers_offending_field(jobs[0].modifiers) is Some {
        Some(CreationError::NotAscii(modifiers_offending_field(jobs[0].modifiers).unwrap()))
    } else {
        first_job_error(jobs.drop_first())
    }
}

/// The first violation that validating a document finds, in checking order —
/// session details, job list non-empty, per-job strings, aggregate value
/// bound — if any.
pub open spec fn spec_validate(config: SessionConfiguration) -> Option<CreationError> {
    if spec_validate_details(config.details) is Some {
        spec_validate_details(config.details)
    } else if config.jobs@.len() == 0 {
        Some(CreationError::EmptyJobs)
    } else if first_job_error(config.jobs@) is Some {
        first_job_error(config.jobs@)
    } else if seq_sum(config_values(config.jobs@)) > value_bound(config.details.shape) {
        Some(CreationError::WeightOrStepBoundViolated)
    } else {
        None
    }
}

/// Whether a document passes validation.
pub open spec fn config_valid(config: SessionConfiguration) -> bool {
    spec_validate(config) is None
}

/// Whether every job of a document carries a value, as resolution demands.
pub open spec fn all_values_present(jobs: Seq<JobConfiguration>) -> bool {
    forall|k: int| 0 <= k < jobs.len() ==> (#[trigger] jobs[k].value) is Some
}

/// What a session that came out of resolution satisfies, and all the step
/// scheduler needs of one: at least one job, a well-formed shape, and the
/// summed job values within the strategy's bound.
pub open spec fn session_runnable(s: Session) -> bool {
    &&& s.jobs@.len() > 0
    &&& shape_valid(s.details.shape)
    &&& seq_sum(job_values(s.jobs@)) <= value_bound(s.details.shape)
}

impl SessionConfiguration {
    /// Checks the aggregate constraint between the jobs' values and the
    /// shape: their sum may not exceed the weight limit under `Random`, nor
    /// the run's total step count under `Linear` and `Interleave`.
    pub fn check_value_constraints(&self) -> (r: Result<(), CreationError>)
        ensures
            r is Ok <==> seq_sum(config_values(self.jobs@)) <= value_bound(self.details.shape),
            r is Err ==> r.unwrap_err() == CreationError::WeightOrStepBoundViolated,
    {
        let limit: u64 = match self.details.shape.select {
            Select::Random => WEIGHT_LIMIT,
            Select::Linear => self.details.shape.steps,
            Select::Interleave => self.details.shape.steps,
        };
        let mut acc: u64 = 0;
        let mut i: usize = 0;
        while i < self.jobs.len()
            invariant
                0 <= i <= self.jobs@.len(),
                acc == prefix_sum(config_values(self.jobs@), i as int),
                acc <= limit,
                limit as int == value_bound(self.details.shape),
            decreases self.jobs@.len() - i,
        {
            let v: u64 = match self.jobs[i].value {
                Some(v) => v,
                None => 0,
            };
            assert(v == config_values(self.jobs@)[i as int]);
            if v > limit - acc {
                proof {
                    lemma_prefix_sum_mono(
                        config_values(self.jobs@),
                        i as int + 1,
                        config_values(self.jobs@).len() as int,
                    );
                }
                return Err(CreationError::WeightOrStepBoundViolated);
            }
            acc = acc + v;
            i = i + 1;
        }
        Ok(())
    }
}

/// Validation of a whole document, short-circuiting on the first violation:
/// the session details (name, modifier strings, shape), a non-empty job list,
/// each job's modifier strings, and the aggregate value bound. On success the
/// document is returned unchanged, now known valid.
#[verifier::loop_isolation(false)]
pub fn read_configuration(config: SessionConfiguration) -> (r: Result<
    SessionConfiguration,
    CreationError,
>)
    ensures
        r is Ok <==> config_valid(config),
        r is Ok ==> r.unwrap() == config,
        r is Err ==> r.unwrap_err() == spec_validate(config).unwrap(),
{
    match config.details.validate() {
        Ok(_) => {},
        Err(e) => {
            return Err(e);
        },
    }
    if config.jobs.len() == 0 {
        return Err(CreationError::EmptyJobs);
    }
    proof {
        assert(config.jobs@.skip(0) =~= config.jobs@);
    }
    let mut i: usize = 0;
    while i < config.jobs.len()
        invariant
            0 <= i <= config.jobs@.len(),
            first_job_error(config.jobs@.skip(i as int)) == first_job_error(config.jobs@),
        decreases config.jobs@.len() - i,
    {
        proof {
            assert(config.jobs@.skip(i as int)[0] == config.jobs@[i as int]);
        }
        match config.jobs[i].validate() {
            Ok(_) => {},
            Err(e) => {
                return Err(e);
            },
        }
        proof {
            assert(config.jobs@.skip(i as int).drop_first() =~= config.jobs@.skip(i as int + 1));
        }
        i = i + 1;
    }
    proof {
        assert(config.jobs@.skip(i as int).len() == 0);
    }
    match config.check_value_constraints() {
        Ok(_) => {},
        Err(e) => {
            return Err(e);
        },
    }
    Ok(config)
}

/// Resolved job values equal the configured ones wherever every value is
/// present.
proof fn lemma_resolved_values(jobs: Seq<JobConfiguration>, defaults: ModifiersConfiguration)
    requires
        all_values_present(jobs),
    ensures
        job_values(jobs.map_values(|j: JobConfiguration| spec_resolve_job(j, defaults)))
            == config_values(jobs),
{
    assert(job_values(jobs.map_values(|j: JobConfiguration| spec_resolve_job(j, defaults)))
        =~= config_values(jobs));
}

/// Creation of a session from a raw document: validation first, in document
/// order, then resolution. Resolution merges the session-level modifier
/// defaults into each job once, closes every output field, and demands a
/// value of every job — the first job without one fails the whole creation
/// with [`CreationError::MissingValue`].
#[verifier::loop_isolation(false)]
pub fn from_path(config: SessionConfiguration) -> (r: Result<Session, CreationError>)
    ensures
        r is Ok <==> config_valid(config) && all_values_present(config.jobs@),
        r is Ok ==> ({
            let s = r.unwrap();
            &&& s.details == spec_resolve_details(config.details)
            &&& s.jobs@ == config.jobs@.map_values(
                |j: JobConfiguration| spec_resolve_job(j, config.details.modifiers),
            )
            &&& session_runnable(s)
        }),
        r is Err ==> r.unwrap_err() == (if config_valid(config) {
            CreationError::MissingValue
        } else {
            spec_validate(config).unwrap()
        }),
{
    let ghost orig = config;
    let config = match read_configuration(config) {
        Ok(c) => c,
        Err(e) => {
            return Err(e);
        },
    };
    let SessionBase { details, jobs } = config;
    let mut resolved: Vec<Job> = Vec::new();
    let mut i: usize = 0;
    while i < jobs.len()
        invariant
            0 <= i <= jobs@.len(),
            details == orig.details,
            jobs@ == orig.jobs@,
            config_valid(orig),
            resolved@ == jobs@.subrange(0, i as int).map_values(
                |j: JobConfiguration| spec_resolve_job(j, details.modifiers),
            ),
            forall|k: int| 0 <= k < i ==> (#[trigger] jobs@[k].value) is Some,
        decreases jobs@.len() - i,
    {
        let job = match Job::resolve(&jobs[i], &details.modifiers) {
            Ok(j) => j,
            Err(e) => {
                return Err(e);
            },
        };
        resolved.push(job);
        proof {
            assert(jobs@.subrange(0, i as int + 1).map_values(
                |j: JobConfiguration| spec_resolve_job(j, details.modifiers),
            ) =~= jobs@.subrange(0, i as int).map_values(
                |j: JobConfiguration| spec_resolve_job(j, details.modifiers),
            ).push(spec_resolve_job(jobs@[i as int], details.modifiers)));
        }
        i = i + 1;
    }
    proof {
        assert(jobs@.subrange(0, i as int) =~= jobs@);
        assert(resolved@ == orig.jobs@.map_values(
            |j: JobConfiguration| spec_resolve_job(j, orig.details.modifiers),
        ));
        lemma_resolved_values(orig.jobs@, orig.details.modifiers);
    }
    let details = Details::resolve(details);
    Ok(SessionBase { details, jobs: resolved })
}

/// Law: every validated document carries a well-formed shape — `steps > 0`,
/// `parallel > 0` and `parallel <= steps`; the validator rejects any
/// violation.
pub proof fn lemma_validated_shape(config: SessionConfiguration)
    requires
        config_valid(config),
    ensures
        shape_valid(config.details.shape),
{
}

/// Law: under `Random`, every validated document keeps the summed job
/// weights within the weight limit.
pub proof fn lemma_random_weights_bounded(config: SessionConfiguration)
    requires
        config_valid(config),
        config.details.shape.select == Select::Random,
    ensures
        seq_sum(config_values(config.jobs@)) <= WEIGHT_LIMIT as int,
{
}

/// Law: under `Linear` and `Interleave`, every validated document keeps the
/// summed job values within the run's total step count.
pub proof fn lemma_values_within_steps(config: SessionConfiguration)
    requires
        config_valid(config),
        config.details.shape.select == Select::Linear || config.details.shape.select
            == Select::Interleave,
    ensures
        seq_sum(config_values(config.jobs@)) <= config.details.shape.steps as int,
{
}

/// Law: resolution is idempotent. Re-wrapping a resolved session as a
/// configuration document — every resolved field explicitly present — and
/// resolving that document again reproduces the same details and the same
/// jobs.
pub proof fn lemma_resolution_idempotent(config: SessionConfiguration)
    requires
        all_values_present(config.jobs@),
    ensures
        ({
            let details2 = details_as_configuration(spec_resolve_details(config.details));
            &&& spec_resolve_details(details2) == spec_resolve_details(config.details)
            &&& forall|i: int|
                0 <= i < config.jobs@.len() ==> spec_resolve_job(
                    job_as_configuration(
                        #[trigger] spec_resolve_job(config.jobs@[i], config.details.modifiers),
                    ),
                    details2.modifiers,
                ) == spec_resolve_job(config.jobs@[i], config.details.modifiers)
        }),
{
    lemma_details_resolution_idempotent(config.details);
    let details2 = details_as_configuration(spec_resolve_details(config.details));
    assert(details2.modifiers == modifiers_as_configuration(
        spec_resolve_modifiers(config.details.modifiers),
    ));
    assert forall|i: int| 0 <= i < config.jobs@.len() implies spec_resolve_job(
        job_as_configuration(
            #[trigger] spec_resolve_job(config.jobs@[i], config.details.modifiers),
        ),
        details2.modifiers,
    ) == spec_resolve_job(config.jobs@[i], config.details.modifiers) by {
        lemma_job_resolution_idempotent(config.jobs@[i], config.details.modifiers);
    }
}

} // verus!
