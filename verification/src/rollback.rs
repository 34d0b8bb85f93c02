use vstd::prelude::*;
use crate::error::UpdateError;

verus! {

/// The health of the running partition as the platform's boot accounting
/// reports it.
#[derive(Clone, Copy, Debug, PartialEq, Eq, Structural)]
pub enum BootImageState {
    /// Running normally without ever having been verified.
    Unverified,
    /// Freshly installed: reverted on the next boot unless confirmed.
    PendingVerify,
    /// Confirmed as working.
    Valid,
    /// Marked as not working.
    Invalid,
}

/// What the rollback guard does once the boot state was queried.
#[derive(Clone, Copy, Debug, PartialEq, Eq, Structural)]
pub enum GuardAction {
    /// Mark the running image valid and cancel the pending rollback.
    ConfirmImage,
    /// Leave the boot accounting as it is.
    Nothing,
    /// Report this error.
    Fail(UpdateError),
}

/// The guard's decision as a function of the outcome of the state query:
/// `None` stands for a query that failed.
pub open spec fn guard_decision(queried: Option<BootImageState>) -> GuardAction {
    match queried {
        Some(BootImageState::PendingVerify) => GuardAction::ConfirmImage,
        Some(_) => GuardAction::Nothing,
        None => GuardAction::Fail(UpdateError::Platform),
    }
}

/// Decides what to do at process start, given the state of the running
/// partition or `None` where it could not be queried. Only an image that is
/// pending verification is confirmed.
pub fn on_boot_state(queried: Option<BootImageState>) -> (action: GuardAction)
    ensures
        action == guard_decision(queried),
        action is ConfirmImage <==> queried == Some(BootImageState::PendingVerify),
{
    match queried {
        Some(BootImageState::PendingVerify) => GuardAction::ConfirmImage,
        Some(_) => GuardAction::Nothing,
        None => GuardAction::Fail(UpdateError::Platform),
    }
}

/// The result of the guard once the action it asked for was carried out:
/// `confirmed` says whether a requested confirmation succeeded.
pub fn guard_result(action: GuardAction, confirmed: bool) -> (r: Result<(), UpdateError>)
    ensures
        r == (match action {
            GuardAction::ConfirmImage => if confirmed {
                Ok::<(), UpdateError>(())
            } else {
                Err::<(), UpdateError>(UpdateError::Platform)
            },
            GuardAction::Nothing => Ok::<(), UpdateError>(()),
            GuardAction::Fail(e) => Err::<(), UpdateError>(e),
        }),
{
    match action {
        GuardAction::ConfirmImage => if confirmed {
            Ok(())
        } else {
            Err(UpdateError::Platform)
        },
        GuardAction::Nothing => Ok(()),
        GuardAction::Fail(e) => Err(e),
    }
}

} // verus!
