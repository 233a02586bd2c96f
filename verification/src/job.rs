//! Jobs: one external command together with its strategy-dependent `value`
//! and its execution modifiers. The configuration form may leave the value
//! unset and the modifiers open; the resolved form carries both closed.

use vstd::prelude::*;

use crate::create::CreationError;
use crate::modifiers::Modifiers;
use crate::modifiers::ModifiersConfiguration;
use crate::modifiers::modifiers_as_configuration;
use crate::modifiers::modifiers_ascii;
use crate::modifiers::modifiers_offending_field;
use crate::modifiers::spec_fill_in;
use crate::modifiers::spec_resolve_modifiers;

verus! {

/// One external command of a session. `V` and `M` choose between the
/// configuration form ([`JobConfiguration`]), where the value may be unset
/// and the modifiers open, and the resolved form ([`Job`]).
#[derive(Clone, Debug, PartialEq, Eq)]
pub struct JobBase<V, M> {
    /// The command line this job launches.
    pub cmd: String,
    /// The strategy-dependent count of this job: a weight under `Random`, an
    /// exhaustive run count under `Linear`, a chunk size under `Interleave`.
    pub value: V,
    /// Execution modifiers of this job; unset fields inherit the session
    /// defaults during resolution.
    pub modifiers: M,
}

/// A job as it stands in a raw document.
pub type JobConfiguration = JobBase<Option<u64>, ModifiersConfiguration>;

/// The ordered jobs of a raw document.
pub type JobsConfiguration = Vec<JobConfiguration>;

/// A fully resolved job: value present, modifiers closed.
pub type Job = JobBase<u64, Modifiers>;

/// The ordered jobs of a resolved session.
pub type Jobs = Vec<Job>;

/// The value of a configured job as it enters the aggregate bound: an unset
/// value counts as zero.
pub open spec fn config_value(j: JobConfiguration) -> u64 {
    match j.value {
        Some(v) => v,
        None => 0,
    }
}

/// What filling in one job from the session defaults yields: only the
/// modifiers change, by one-shot inheritance.
pub open spec fn spec_fill_in_job(
    j: JobConfiguration,
    defaults: ModifiersConfiguration,
) -> JobConfiguration {
    JobBase { cmd: j.cmd, value: j.value, modifiers: spec_fill_in(j.modifiers, defaults) }
}

/// What resolving one job yields, provided its value is present: the command
/// verbatim, the value unwrapped, and the modifiers filled in from the
/// session defaults and closed.
pub open spec fn spec_resolve_job(j: JobConfiguration, defaults: ModifiersConfiguration) -> Job {
    JobBase {
        cmd: j.cmd,
        value: j.value.unwrap(),
        modifiers: spec_resolve_modifiers(spec_fill_in(j.modifiers, defaults)),
    }
}

/// A resolved job re-wrapped as configuration form: its value and output
/// fields read as explicitly present.
pub open spec fn job_as_configuration(j: Job) -> JobConfiguration {
    JobBase {
        cmd: j.cmd,
        value: Some(j.value),
        modifiers: modifiers_as_configuration(j.modifiers),
    }
}

impl JobConfiguration {
    /// Copies each unset modifier field from the session-level defaults,
    /// once; the command and the value are untouched.
    pub fn fill_in(&mut self, modifiers: &ModifiersConfiguration)
        ensures
            *final(self) == spec_fill_in_job(*old(self), *modifiers),
    {
        self.modifiers.fill_in(modifiers);
    }

    /// Accepts the job exactly when its modifier overrides hold only ascii
    /// strings; the first offending field is reported otherwise.
    pub fn validate(&self) -> (r: Result<(), CreationError>)
        ensures
            r is Ok <==> modifiers_ascii(self.modifiers),
            r is Err ==> r.unwrap_err() == CreationError::NotAscii(
                modifiers_offending_field(self.modifiers).unwrap(),
            ),
    {
        match self.modifiers.validate() {
            Ok(_) => Ok(()),
            Err(e) => Err(e),
        }
    }

    /// An explicit copy, known to equal the original.
    pub fn duplicate(&self) -> (r: JobConfiguration)
        ensures
            r == *self,
    {
        JobBase {
            cmd: self.cmd.clone(),
            value: match self.value {
                Some(v) => Some(v),
                None => None,
            },
            modifiers: self.modifiers.duplicate(),
        }
    }
}

impl Job {
    /// Resolution of one job: fills the unset modifier fields from the
    /// session defaults, closes the output routing, and requires the value to
    /// be present — a job without a value fails with
    /// [`CreationError::MissingValue`], and exactly those jobs do.
    pub fn resolve(j: &JobConfiguration, defaults: &ModifiersConfiguration) -> (r: Result<
        Job,
        CreationError,
    >)
        ensures
            r is Ok <==> j.value is Some,
            r is Ok ==> r.unwrap() == spec_resolve_job(*j, *defaults),
            r is Err ==> r.unwrap_err() == CreationError::MissingValue,
    {
        let value: u64 = match j.value {
            Some(v) => v,
            None => {
                return Err(CreationError::MissingValue);
            },
        };
        let mut modifiers = j.modifiers.duplicate();
        modifiers.fill_in(defaults);
        Ok(JobBase { cmd: j.cmd.clone(), value, modifiers: Modifiers::resolve(modifiers) })
    }
}

/// Law: resolving a job is one-shot. A job resolved against the session
/// defaults, re-wrapped as configuration form and resolved again — against
/// the equally re-wrapped resolved defaults — comes out unchanged.
pub proof fn lemma_job_resolution_idempotent(
    j: JobConfiguration,
    defaults: ModifiersConfiguration,
)
    requires
        j.value is Some,
    ensures
        spec_resolve_job(
            job_as_configuration(spec_resolve_job(j, defaults)),
            modifiers_as_configuration(spec_resolve_modifiers(defaults)),
        ) == spec_resolve_job(j, defaults),
{
}

} // verus!
