//! Session-level description: the selection strategy and the numeric shape of
//! a run.

use vstd::prelude::*;
use vstd::string::StringExecFns;
use vstd::string::StringExecFnsIsAscii;
use vstd::utf8::is_ascii_chars;

use crate::create::{CreationError, Field};
use crate::modifiers::Modifiers;
use crate::modifiers::ModifiersConfiguration;
use crate::modifiers::modifiers_as_configuration;
use crate::modifiers::modifiers_offending_field;
use crate::modifiers::spec_resolve_modifiers;

verus! {

/// The ways in which the next job of a step may be selected.
#[derive(Clone, Copy, Debug, PartialEq, Eq, Structural)]
pub enum Select {
    /// Draw the next job at random; each job's `value` is its weight, and the
    /// weights together may not exceed the weight limit.
    Random,
    /// Visit the jobs in declared order; a job's `value` consecutive steps are
    /// exhausted before the next job is visited. A dispatch failure halts the
    /// run.
    Linear,
    /// Visit the jobs round-robin; each visit issues a chunk of up to `value`
    /// steps, wrapping to the first job after the last. A dispatch failure is
    /// recorded but does not halt the run.
    Interleave,
}

/// The strategy a document names with a given string, if any: the names are
/// the variant names themselves.
pub open spec fn spec_select_from_name(s: Seq<char>) -> Option<Select> {
    if s == "Random"@ {
        Some(Select::Random)
    } else if s == "Linear"@ {
        Some(Select::Linear)
    } else if s == "Interleave"@ {
        Some(Select::Interleave)
    } else {
        None
    }
}

impl Select {
    /// The strategy that a document names with this string: `"Random"`,
    /// `"Linear"` or `"Interleave"`. Any other string names no strategy.
    pub fn from_name(name: &String) -> (r: Option<Select>)
        ensures
            r == spec_select_from_name(name@),
    {
        let random: String = String::from_str("Random");
        let linear: String = String::from_str("Linear");
        let interleave: String = String::from_str("Interleave");
        if *name == random {
            Some(Select::Random)
        } else if *name == linear {
            Some(Select::Linear)
        } else if *name == interleave {
            Some(Select::Interleave)
        } else {
            None
        }
    }
}

impl Default for Select {
    /// A document that names no strategy selects `Linear`.
    fn default() -> (r: Self)
        ensures
            r == Select::Linear,
    {
        Select::Linear
    }
}

/// The numeric and strategy description of a run: how jobs are selected, how
/// many steps are issued in total, and how many may be in flight at once.
#[derive(Clone, Copy, Debug, PartialEq, Eq, Structural)]
pub struct Shape {
    /// The method of step/job selection for this run.
    pub select: Select,
    /// The total number of steps in this run.
    pub steps: u64,
    /// The number of steps that may be active at any point in time.
    pub parallel: u64,
}

/// What a well-formed [`Shape`] satisfies: both counts are positive and the
/// concurrency bound never exceeds the step total.
pub open spec fn shape_valid(s: Shape) -> bool {
    s.steps > 0 && s.parallel > 0 && s.parallel <= s.steps
}

impl Shape {
    /// Accepts the shape exactly when `steps > 0`, `parallel > 0` and
    /// `parallel <= steps`; any violation is rejected with
    /// [`CreationError::InvalidShape`].
    pub fn validate(&self) -> (r: Result<&Self, CreationError>)
        ensures
            r is Ok <==> shape_valid(*self),
            r is Ok ==> r.unwrap() == self,
            r is Err ==> r.unwrap_err() == CreationError::InvalidShape,
    {
        if self.steps == 0 || self.parallel == 0 {
            return Err(CreationError::InvalidShape);
        }
        if self.steps < self.parallel {
            return Err(CreationError::InvalidShape);
        }
        Ok(self)
    }
}

/// The session-level part of a document: its name, whether it logs, its
/// modifier defaults, and the shape of the run. `M` chooses between the
/// configuration form ([`DetailsConfiguration`]) and the resolved form
/// ([`Details`]).
#[derive(Clone, Debug, PartialEq, Eq)]
pub struct DetailBase<M> {
    /// Name of the session.
    pub name: String,
    /// Whether the run should emit a logging file.
    pub logging: bool,
    /// Modifier defaults inherited by every job that leaves a field unset.
    pub modifiers: M,
    /// The number, order and concurrency of the steps of the run.
    pub shape: Shape,
}

/// Session details as they stand in a raw document.
pub type DetailsConfiguration = DetailBase<ModifiersConfiguration>;

/// Session details with the modifier defaults resolved.
pub type Details = DetailBase<Modifiers>;

/// The first violation that validating the session details finds, in checking
/// order — name, modifiers, shape — if any.
pub open spec fn spec_validate_details(d: DetailsConfiguration) -> Option<CreationError> {
    if !is_ascii_chars(d.name@) {
        Some(CreationError::NotAscii(Field::Name))
    } else if modifiers_offending_field(d.modifiers) is Some {
        Some(CreationError::NotAscii(modifiers_offending_field(d.modifiers).unwrap()))
    } else if !shape_valid(d.shape) {
        Some(CreationError::InvalidShape)
    } else {
        None
    }
}

/// Whether the session details pass validation: name and modifier strings
/// are ascii and the shape is well-formed.
pub open spec fn details_valid(d: DetailsConfiguration) -> bool {
    spec_validate_details(d) is None
}

impl DetailsConfiguration {
    /// Accepts the details exactly when the session name is ascii, the
    /// modifier defaults hold only ascii strings, and the shape is
    /// well-formed; the first violation in that order is reported.
    pub fn validate(&self) -> (r: Result<(), CreationError>)
        ensures
            r is Ok <==> details_valid(*self),
            r is Err ==> r.unwrap_err() == spec_validate_details(*self).unwrap(),
    {
        if !self.name.is_ascii() {
            return Err(CreationError::NotAscii(Field::Name));
        }
        match self.modifiers.validate() {
            Ok(_) => {},
            Err(e) => {
                return Err(e);
            },
        }
        match self.shape.validate() {
            Ok(_) => {},
            Err(e) => {
                return Err(e);
            },
        }
        Ok(())
    }
}

/// What resolving the session details yields: name, logging flag and shape
/// verbatim, the modifier defaults resolved.
pub open spec fn spec_resolve_details(d: DetailsConfiguration) -> Details {
    DetailBase {
        name: d.name,
        logging: d.logging,
        modifiers: spec_resolve_modifiers(d.modifiers),
        shape: d.shape,
    }
}

/// Resolved session details re-wrapped as configuration form.
pub open spec fn details_as_configuration(d: Details) -> DetailsConfiguration {
    DetailBase {
        name: d.name,
        logging: d.logging,
        modifiers: modifiers_as_configuration(d.modifiers),
        shape: d.shape,
    }
}

impl Details {
    /// Resolution of the session details: closes the optional output fields
    /// of the modifier defaults and keeps everything else verbatim.
    pub fn resolve(d: DetailsConfiguration) -> (r: Details)
        ensures
            r == spec_resolve_details(d),
    {
        let DetailBase { name, logging, modifiers, shape } = d;
        DetailBase { name, logging, modifiers: Modifiers::resolve(modifiers), shape }
    }
}

/// Law: resolving the session details is one-shot — re-wrapping the resolved
/// details as configuration form and resolving again changes nothing.
pub proof fn lemma_details_resolution_idempotent(d: DetailsConfiguration)
    ensures
        spec_resolve_details(details_as_configuration(spec_resolve_details(d)))
            == spec_resolve_details(d),
{
}

} // verus!
