//! The satellite record and its state machine.
//!
//! A record is created once per satellite from its element set; the numeric
//! shell caches the refined mean elements and the perturbation coefficients
//! beside it at construction, so every later propagation call only reads.
//! Each call first asks the record whether it is still serviceable
//! ([`Satellite::check_ready`]), then runs the perturbation series, and
//! finally reports how the pass ended ([`Satellite::record_outcome`]), which
//! moves the record through the states `Initialized`, `Decayed` and `Error`.
//! `Decayed` and `Error` are absorbing: once entered, every further call
//! fails immediately with the same error, without recomputation.

use vstd::prelude::*;

use crate::elements::ElementSet;
use crate::errors::Error;

verus! {

/// The lifecycle state of a satellite record.
#[derive(Clone, Copy, Debug, PartialEq, Eq, Structural)]
pub enum Status {
    /// Constructed from a valid element set; propagation calls are served.
    Initialized,
    /// Secular integration detected reentry; every further call fails with
    /// `OrbitDecayed`.
    Decayed,
    /// A numerical singularity was detected; every further call fails with
    /// `NumericalInstability`.
    Error,
}

/// How one propagation pass through the numeric shell ended.
#[derive(Clone, Copy, Debug, PartialEq, Eq, Structural)]
pub enum PassOutcome {
    /// The pass produced a state vector.
    Completed,
    /// The decay assessment flagged the advanced elements as unphysical.
    DecayDetected,
    /// A computed divisor approached zero in the coefficients or the
    /// corrector.
    SingularityDetected,
    /// The Kepler solver exceeded its iteration bound.
    ConvergenceFailed,
}

/// The state a record is in after a pass with outcome `o` is reported to a
/// record in state `s`.  The absorbing states ignore the outcome; from
/// `Initialized`, a completed pass and a failed Kepler solve leave the
/// record serviceable, while decay and singularities latch.
pub open spec fn next_status(s: Status, o: PassOutcome) -> Status {
    match s {
        Status::Decayed => Status::Decayed,
        Status::Error => Status::Error,
        Status::Initialized => match o {
            PassOutcome::Completed => Status::Initialized,
            PassOutcome::DecayDetected => Status::Decayed,
            PassOutcome::SingularityDetected => Status::Error,
            PassOutcome::ConvergenceFailed => Status::Initialized,
        },
    }
}

/// The result surfaced to the caller when a pass with outcome `o` is
/// reported to a record in state `s`.
pub open spec fn pass_result(s: Status, o: PassOutcome) -> Result<(), Error> {
    match s {
        Status::Decayed => Err(Error::OrbitDecayed),
        Status::Error => Err(Error::NumericalInstability),
        Status::Initialized => match o {
            PassOutcome::Completed => Ok(()),
            PassOutcome::DecayDetected => Err(Error::OrbitDecayed),
            PassOutcome::SingularityDetected => Err(Error::NumericalInstability),
            PassOutcome::ConvergenceFailed => Err(Error::ConvergenceFailure),
        },
    }
}

/// A satellite record: the element set it was created from and its
/// lifecycle state.  The element set never changes after construction; only
/// reported pass outcomes move the state.
#[derive(Clone, Copy, Debug)]
pub struct Satellite {
    elements: ElementSet,
    status: Status,
}

impl Satellite {
    /// The element set the record was created from.
    pub closed spec fn spec_elements(self) -> ElementSet {
        self.elements
    }

    /// The record's lifecycle state.
    pub closed spec fn spec_status(self) -> Status {
        self.status
    }

    /// Creates a record from an element set: accepted, in state
    /// `Initialized`, exactly when the set is physically meaningful, and
    /// rejected as `InvalidElement` otherwise.
    pub fn new(elements: ElementSet) -> (r: Result<Satellite, Error>)
        ensures
            r is Ok <==> elements.valid(),
            r is Ok ==> {
                &&& r->Ok_0.spec_elements() == elements
                &&& r->Ok_0.spec_status() is Initialized
            },
            r is Err ==> r->Err_0 == Error::InvalidElement,
    {
        match elements.validate() {
            Ok(()) => Ok(Satellite { elements, status: Status::Initialized }),
            Err(e) => Err(e),
        }
    }

    /// The element set, for the numeric shell to evaluate.
    pub fn elements(&self) -> (e: ElementSet)
        ensures
            e == self.spec_elements(),
    {
        self.elements
    }

    /// The record's lifecycle state.
    pub fn status(&self) -> (s: Status)
        ensures
            s == self.spec_status(),
    {
        self.status
    }

    /// Whether a propagation call may proceed: yes exactly in state
    /// `Initialized`; a decayed record fails with `OrbitDecayed` and a
    /// record in `Error` fails with `NumericalInstability`, both without
    /// any recomputation.
    pub fn check_ready(&self) -> (r: Result<(), Error>)
        ensures
            r is Ok <==> self.spec_status() is Initialized,
            self.spec_status() is Decayed ==> r == Err::<(), Error>(Error::OrbitDecayed),
            self.spec_status() is Error
                ==> r == Err::<(), Error>(Error::NumericalInstability),
    {
        match self.status {
            Status::Initialized => Ok(()),
            Status::Decayed => Err(Error::OrbitDecayed),
            Status::Error => Err(Error::NumericalInstability),
        }
    }

    /// Reports how a pass ended and moves the record accordingly; returns
    /// what the propagation call surfaces to its caller.  The element set is
    /// untouched, the new state is `next_status` of the old, and the result
    /// is `pass_result` of the old state and the outcome.
    pub fn record_outcome(&mut self, outcome: PassOutcome) -> (r: Result<(), Error>)
        ensures
            final(self).spec_elements() == old(self).spec_elements(),
            final(self).spec_status() == next_status(old(self).spec_status(), outcome),
            r == pass_result(old(self).spec_status(), outcome),
    {
        match self.status {
            Status::Decayed => Err(Error::OrbitDecayed),
            Status::Error => Err(Error::NumericalInstability),
            Status::Initialized => match outcome {
                PassOutcome::Completed => Ok(()),
                PassOutcome::DecayDetected => {
                    self.status = Status::Decayed;
                    Err(Error::OrbitDecayed)
                },
                PassOutcome::SingularityDetected => {
                    self.status = Status::Error;
                    Err(Error::NumericalInstability)
                },
                PassOutcome::ConvergenceFailed => Err(Error::ConvergenceFailure),
            },
        }
    }
}

/// A decayed record stays decayed: whatever outcome a later pass would
/// report, the state remains `Decayed` and the call fails with
/// `OrbitDecayed` — decay detection is permanent and later calls never see
/// a finite-looking state again.
pub proof fn lemma_decayed_absorbs(o: PassOutcome)
    ensures
        next_status(Status::Decayed, o) is Decayed,
        pass_result(Status::Decayed, o) == Err::<(), Error>(Error::OrbitDecayed),
{
}

/// A record in `Error` stays there: whatever outcome a later pass would
/// report, the state remains `Error` and the call fails with
/// `NumericalInstability` — there is no silent recovery from a singularity.
pub proof fn lemma_error_absorbs(o: PassOutcome)
    ensures
        next_status(Status::Error, o) is Error,
        pass_result(Status::Error, o) == Err::<(), Error>(Error::NumericalInstability),
{
}

/// A pass whose advanced elements were flagged decayed never surfaces a
/// state vector: whatever state the record was in, reporting decay yields
/// an error — from a serviceable record, `OrbitDecayed` — and leaves the
/// record out of service.
pub proof fn lemma_flagged_decay_never_surfaces(s: Status)
    ensures
        pass_result(s, PassOutcome::DecayDetected) is Err,
        s is Initialized ==> pass_result(s, PassOutcome::DecayDetected)
            == Err::<(), Error>(Error::OrbitDecayed),
        next_status(s, PassOutcome::DecayDetected) !is Initialized,
{
}

/// A completed pass leaves the record serviceable and surfaces success:
/// successful propagation never changes the record's state, only the
/// ephemeral outputs of the call.
pub proof fn lemma_completed_pass_keeps_ready()
    ensures
        next_status(Status::Initialized, PassOutcome::Completed) is Initialized,
        pass_result(Status::Initialized, PassOutcome::Completed) == Ok::<(), Error>(()),
{
}

/// Propagation decisions are a function of their inputs alone: records in
/// equal states given equal pass outcomes move to equal states and surface
/// equal results.  Together with the exact contracts above, repeating a call
/// on the same record with the same elapsed time and the same reported
/// outcome yields the identical decision.
pub proof fn lemma_decisions_deterministic(
    s1: Status,
    s2: Status,
    o1: PassOutcome,
    o2: PassOutcome,
)
    requires
        s1 == s2,
        o1 == o2,
    ensures
        next_status(s1, o1) == next_status(s2, o2),
        pass_result(s1, o1) == pass_result(s2, o2),
{
}

} // verus!
