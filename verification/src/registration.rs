//! Runtime program registration.
//!
//! The worker derives a program's keys and verification baseline, answers with the
//! baseline, and compiles, installs and publishes the program in the background.

use vstd::prelude::*;
use vstd::string::*;

use crate::program::ProgramRef;

verus! {

/// How a `register_program` request was classified. The accepting variants carry the
/// program's verification baseline, absent where no keys are derived.
pub enum RegistrationResult {
    /// The verifying key is derived and the compilation is running.
    Accepted(Option<Vec<u8>>),
    /// The same program, ELF and config are already here.
    AlreadyRegistered(Option<Vec<u8>>),
    /// Incompatible with what this worker already serves.
    Conflict(String),
    /// The request could not be parsed.
    Invalid(String),
}

/// How the artifact store classified a registration.
pub enum RegistrationOutcome {
    Accepted,
    AlreadyRegistered,
    Conflict(String),
}

/// What follows the classification of a registration.
pub enum RegistrationStep {
    Done(RegistrationResult),
    /// Start preparing the program, then wait for its baseline.
    PrepareAndWait,
    /// Wait for the baseline that an earlier registration derives.
    Wait,
}

/// Refuse a request whose VM config cannot be parsed.
pub fn invalid_vm_config(e: &str) -> (r: RegistrationResult)
    ensures
        r is Invalid,
        r->Invalid_0@ == "vm_config is not a valid SdkVmConfig: "@ + e@,
{
    let mut out = "vm_config is not a valid SdkVmConfig: ".to_owned();
    out.append(e);
    RegistrationResult::Invalid(out)
}

/// Decide what follows the classification of a registration. Only a new one is
/// prepared; a duplicate waits like it, so that the answer always carries the key.
pub fn registration_step(outcome: RegistrationOutcome) -> (r: RegistrationStep)
    ensures
        r == match outcome {
            RegistrationOutcome::Conflict(reason) => RegistrationStep::Done(
                RegistrationResult::Conflict(reason),
            ),
            RegistrationOutcome::AlreadyRegistered => RegistrationStep::Wait,
            RegistrationOutcome::Accepted => RegistrationStep::PrepareAndWait,
        },
{
    match outcome {
        RegistrationOutcome::Conflict(reason) => RegistrationStep::Done(
            RegistrationResult::Conflict(reason),
        ),
        RegistrationOutcome::AlreadyRegistered => RegistrationStep::Wait,
        RegistrationOutcome::Accepted => RegistrationStep::PrepareAndWait,
    }
}

/// Conclude a registration once the wait for its baseline is over.
pub fn conclude_registration(program: &ProgramRef, baseline: Option<Vec<u8>>, fresh: bool) -> (r:
    RegistrationResult)
    ensures
        baseline is Some && fresh ==> r == RegistrationResult::Accepted(baseline),
        baseline is Some && !fresh ==> r == RegistrationResult::AlreadyRegistered(baseline),
        baseline is None ==> r is Invalid && r->Invalid_0@
            == "Failed to derive a verifying key for "@ + program.rendered(),
{
    match baseline {
        Some(bytes) => {
            if fresh {
                RegistrationResult::Accepted(Some(bytes))
            } else {
                RegistrationResult::AlreadyRegistered(Some(bytes))
            }
        },
        None => {
            let mut out = "Failed to derive a verifying key for ".to_owned();
            let shown = program.render();
            out.append(shown.as_str());
            RegistrationResult::Invalid(out)
        },
    }
}

/// How a background task ended.
#[derive(Debug, Clone, Copy, PartialEq, Eq, Structural)]
pub enum TaskEnd {
    Done,
    Failed,
    Panicked,
}

/// Where the preparation of a program stands.
#[derive(Debug, Clone, Copy, PartialEq, Eq, Structural)]
pub enum Preparation {
    /// Keys and baseline are being derived.
    Deriving,
    /// The baseline is recorded; the program is being compiled.
    Compiling,
    /// The program is installed; idle app workers load it.
    Preloading,
    /// The program is published.
    Published,
    /// The reservation was released, so that the program can be registered again.
    Released,
    /// The registration failed after its baseline was recorded.
    Failed,
}

/// What is done to the artifact store.
#[derive(Debug, Clone, Copy, PartialEq, Eq, Structural)]
pub enum StoreAction {
    RecordBaseline,
    InstallRegistration,
    PublishRegistration,
    ReleaseRegistration,
    FailRegistration,
}

impl Preparation {
    /// Whether nothing more is done.
    pub open spec fn is_over(self) -> bool {
        self == Preparation::Published || self == Preparation::Released || self
            == Preparation::Failed
    }

    /// Whether the store has the baseline of the program.
    pub open spec fn has_baseline(self) -> bool {
        self != Preparation::Deriving && self != Preparation::Released
    }

    /// The state that follows when the running task ends.
    pub open spec fn after(self, end: TaskEnd) -> Preparation {
        match self {
            Preparation::Deriving => if end == TaskEnd::Done {
                Preparation::Compiling
            } else {
                Preparation::Released
            },
            Preparation::Compiling => if end == TaskEnd::Done {
                Preparation::Preloading
            } else {
                Preparation::Failed
            },
            Preparation::Preloading => Preparation::Published,
            other => other,
        }
    }

    /// A task of the preparation ended. Returns what is done to the store.
    ///
    /// A derivation that fails or panics releases the reservation, or the program
    /// could never be retried. A compilation that does fails the registration, whose
    /// baseline is already known. Preloading cannot fail the registration: workers
    /// load the program at their first job otherwise.
    pub fn advance(&mut self, end: TaskEnd) -> (r: StoreAction)
        requires
            !old(self).is_over(),
        ensures
            *final(self) == old(self).after(end),
            r == match *old(self) {
                Preparation::Deriving => if end == TaskEnd::Done {
                    StoreAction::RecordBaseline
                } else {
                    StoreAction::ReleaseRegistration
                },
                Preparation::Compiling => if end == TaskEnd::Done {
                    StoreAction::InstallRegistration
                } else {
                    StoreAction::FailRegistration
                },
                _ => StoreAction::PublishRegistration,
            },
    {
        match *self {
            Preparation::Deriving => {
                if end == TaskEnd::Done {
                    *self = Preparation::Compiling;
                    StoreAction::RecordBaseline
                } else {
                    *self = Preparation::Released;
                    StoreAction::ReleaseRegistration
                }
            },
            Preparation::Compiling => {
                if end == TaskEnd::Done {
                    *self = Preparation::Preloading;
                    StoreAction::InstallRegistration
                } else {
                    *self = Preparation::Failed;
                    StoreAction::FailRegistration
                }
            },
            _ => {
                *self = Preparation::Published;
                StoreAction::PublishRegistration
            },
        }
    }
}

/// Every preparation ends: within three tasks the reservation is released, or a
/// baseline is on record and the program is published or failed. So a waiting
/// request always gets an answer.
pub proof fn preparation_ends(first: TaskEnd, second: TaskEnd, third: TaskEnd)
    ensures
        ({
            let a = Preparation::Deriving.after(first);
            let b = a.after(second);
            let c = b.after(third);
            &&& c.is_over()
            &&& a == Preparation::Released || a.has_baseline()
            &&& c == Preparation::Released <==> first != TaskEnd::Done
            &&& c == Preparation::Published <==> first == TaskEnd::Done && second == TaskEnd::Done
            &&& c == Preparation::Published ==> a.has_baseline() && b == Preparation::Preloading
        }),
{
}

/// Only a new registration is prepared. A conflict is answered at once with its reason,
/// and nothing else is.
pub proof fn only_new_registrations_are_prepared(outcome: RegistrationOutcome, r: RegistrationStep)
    requires
        call_ensures(registration_step, (outcome,), r),
    ensures
        r is PrepareAndWait <==> outcome is Accepted,
        r is Done <==> outcome is Conflict,
        r is Done ==> r->Done_0 is Conflict && r->Done_0->Conflict_0 == outcome->Conflict_0,
{
}

/// A registration is answered well exactly if there is a baseline, which the answer then
/// carries; whether it was a new one shows in the answer.
pub proof fn answers_carry_the_baseline(
    program: &ProgramRef,
    baseline: Option<Vec<u8>>,
    fresh: bool,
    r: RegistrationResult,
)
    requires
        call_ensures(conclude_registration, (program, baseline, fresh), r),
    ensures
        r is Accepted <==> baseline is Some && fresh,
        r is AlreadyRegistered <==> baseline is Some && !fresh,
        r is Accepted ==> r->Accepted_0 == baseline,
        r is AlreadyRegistered ==> r->AlreadyRegistered_0 == baseline,
        r is Invalid <==> baseline is None,
{
}

/// The store follows the preparation: it is given the baseline when the derivation is
/// done, the program when the compilation is, and makes it public after the preloading,
/// however that ended. A derivation that is not done gives the reservation back, and a
/// compilation that is not done fails the registration.
pub proof fn the_store_follows_the_preparation(
    preparation: &mut Preparation,
    end: TaskEnd,
    r: StoreAction,
)
    requires
        call_ensures(Preparation::advance, (preparation, end), r),
    ensures
        *old(preparation) is Deriving && end is Done ==> *final(preparation) is Compiling
            && r is RecordBaseline,
        *old(preparation) is Deriving && !(end is Done) ==> *final(preparation) is Released
            && r is ReleaseRegistration,
        *old(preparation) is Compiling && end is Done ==> *final(preparation) is Preloading
            && r is InstallRegistration,
        *old(preparation) is Compiling && !(end is Done) ==> *final(preparation) is Failed
            && r is FailRegistration,
        *old(preparation) is Preloading ==> *final(preparation) is Published
            && r is PublishRegistration,
{
}

} // verus!
