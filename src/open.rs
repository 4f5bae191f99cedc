use vstd::prelude::*;

use crate::bfd::raw_of_format;
use crate::bfd::Format;
use crate::error::error_of_codes;
use crate::error::BfdError;
use crate::error::BfdErrorType;

verus! {

/// Where an open of a path stands.
#[derive(Clone, Copy, Debug, PartialEq, Eq, Structural)]
pub enum OpenStage {
    /// Waiting for the one-time initialisation of the library.
    Initializing,
    /// Waiting for the handle from the read-only open.
    Opening,
    /// Holding a handle, waiting for the format check.
    Checking,
    /// The check failed with this error; waiting for the handle's release.
    Releasing(BfdError),
    /// Finished; no handle is held by the open any more.
    Done,
}

/// What the library did in answer to the last action. Error codes are those
/// read from the library's error slot right after the call, before any other
/// call into the library.
#[derive(Clone, Copy, Debug, PartialEq, Eq, Structural)]
pub enum OpenEvent {
    Initialized,
    OpenReturned { handle_null: bool, error_code: u32, os_error: i32 },
    CheckReturned { matched: bool, error_code: u32, os_error: i32 },
    Released,
}

/// What to do next.
#[derive(Clone, Copy, Debug, PartialEq, Eq, Structural)]
pub enum OpenAction {
    /// Run the library's one-time initialisation.
    EnsureInit,
    /// Open the path read-only.
    OpenRead,
    /// Check the handle's format against this raw format code.
    CheckFormat(u32),
    /// Close the handle.
    Release,
    /// Hand the handle to the caller.
    Accept,
    /// Report this error to the caller.
    Fail(BfdError),
}

/// The stage and action that follow `stage` on `event` when opening as
/// `bfd_type`. An event that does not answer the stage's action ends the open
/// with an invalid-operation error.
pub open spec fn open_next(stage: OpenStage, event: OpenEvent, bfd_type: Format) -> (OpenStage, OpenAction) {
    match (stage, event) {
        (OpenStage::Initializing, OpenEvent::Initialized) => (OpenStage::Opening, OpenAction::OpenRead),
        (OpenStage::Opening, OpenEvent::OpenReturned { handle_null, error_code, os_error }) => {
            if handle_null {
                (OpenStage::Done, OpenAction::Fail(error_of_codes(error_code, os_error)))
            } else {
                (OpenStage::Checking, OpenAction::CheckFormat(raw_of_format(bfd_type)))
            }
        },
        (OpenStage::Checking, OpenEvent::CheckReturned { matched, error_code, os_error }) => {
            if matched {
                (OpenStage::Done, OpenAction::Accept)
            } else {
                (
                    OpenStage::Releasing(error_of_codes(error_code, os_error)),
                    OpenAction::Release,
                )
            }
        },
        (OpenStage::Releasing(err), OpenEvent::Released) => (OpenStage::Done, OpenAction::Fail(err)),
        _ => (
            OpenStage::Done,
            OpenAction::Fail(BfdError::Bfd(BfdErrorType::InvalidOperation)),
        ),
    }
}

/// The first stage and action of an open.
pub fn open_start() -> (r: (OpenStage, OpenAction))
    ensures
        r == (OpenStage::Initializing, OpenAction::EnsureInit),
{
    (OpenStage::Initializing, OpenAction::EnsureInit)
}

/// One step of opening a path as `bfd_type`.
pub fn open_step(stage: OpenStage, event: OpenEvent, bfd_type: Format) -> (r: (OpenStage, OpenAction))
    ensures
        r == open_next(stage, event, bfd_type),
{
    match (stage, event) {
        (OpenStage::Initializing, OpenEvent::Initialized) => (OpenStage::Opening, OpenAction::OpenRead),
        (OpenStage::Opening, OpenEvent::OpenReturned { handle_null, error_code, os_error }) => {
            if handle_null {
                (OpenStage::Done, OpenAction::Fail(BfdError::from_codes(error_code, os_error)))
            } else {
                (OpenStage::Checking, OpenAction::CheckFormat(bfd_type.to_raw()))
            }
        },
        (OpenStage::Checking, OpenEvent::CheckReturned { matched, error_code, os_error }) => {
            if matched {
                (OpenStage::Done, OpenAction::Accept)
            } else {
                (
                    OpenStage::Releasing(BfdError::from_codes(error_code, os_error)),
                    OpenAction::Release,
                )
            }
        },
        (OpenStage::Releasing(err), OpenEvent::Released) => (OpenStage::Done, OpenAction::Fail(err)),
        _ => (
            OpenStage::Done,
            OpenAction::Fail(BfdError::Bfd(BfdErrorType::InvalidOperation)),
        ),
    }
}

/// An open whose read-only open gives no handle fails, whatever the codes.
pub proof fn lemma_missing_handle_fails(error_code: u32, os_error: i32, bfd_type: Format)
    ensures
        open_next(
            OpenStage::Opening,
            OpenEvent::OpenReturned { handle_null: true, error_code, os_error },
            bfd_type,
        ) == (OpenStage::Done, OpenAction::Fail(error_of_codes(error_code, os_error))),
{
}

/// A file whose format does not match the one asked for is not accepted: its
/// handle is released, and then the open fails with the error read right
/// after the check.
pub proof fn lemma_mismatch_releases_then_fails(
    error_code: u32,
    os_error: i32,
    bfd_type: Format,
)
    ensures
        ({
            let (s1, a1) = open_next(
                OpenStage::Checking,
                OpenEvent::CheckReturned { matched: false, error_code, os_error },
                bfd_type,
            );
            let (s2, a2) = open_next(s1, OpenEvent::Released, bfd_type);
            &&& a1 == OpenAction::Release
            &&& s2 == OpenStage::Done
            &&& a2 == OpenAction::Fail(error_of_codes(error_code, os_error))
        }),
{
}

/// A handle is released at most once: the step after a release never asks
/// for another.
pub proof fn lemma_release_once(
    stage: OpenStage,
    e1: OpenEvent,
    e2: OpenEvent,
    bfd_type: Format,
)
    requires
        open_next(stage, e1, bfd_type).1 == OpenAction::Release,
    ensures
        open_next(open_next(stage, e1, bfd_type).0, e2, bfd_type).1 != OpenAction::Release,
{
}

/// While a handle is held, the open never fails without first releasing it:
/// from the checking stage the action is to accept, or to release.
pub proof fn lemma_no_leak_on_failure(e: OpenEvent, bfd_type: Format)
    requires
        e is CheckReturned,
    ensures
        open_next(OpenStage::Checking, e, bfd_type).1 == OpenAction::Accept
            || open_next(OpenStage::Checking, e, bfd_type).1 == OpenAction::Release,
{
}

/// An open is accepted only from the checking stage, on a matching format,
/// and the format checked is the one asked for.
pub proof fn lemma_accept_only_after_check(stage: OpenStage, e: OpenEvent, bfd_type: Format)
    requires
        open_next(stage, e, bfd_type).1 == OpenAction::Accept,
    ensures
        stage == OpenStage::Checking,
        e matches OpenEvent::CheckReturned { matched, .. } && matched,
{
}

} // verus!
