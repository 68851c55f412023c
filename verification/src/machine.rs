//! The install procedure as a state machine.
//!
//! A run is a strict linear chain: resolve the platform, create the
//! installation directory, fetch the binary, place it on disk. The library
//! decides; an unverified driver performs each emitted [`Action`] and
//! reports its outcome back as an [`Event`]. The first failure moves the
//! machine into the terminal [`State::Aborted`], from which it accepts
//! nothing further; no transition ever returns to an earlier step.

use vstd::prelude::*;
use crate::errors::InstallError;
use crate::platform::{Arch, Os, Target, resolve_target, spec_supported};

verus! {

/// Where a run stands. Every non-aborted state remembers the resolved
/// target; `Installed` and `Aborted` are terminal.
pub enum State {
    /// Waiting for the installation directory to be created.
    DirPending { target: Target },
    /// Directory ready; waiting for the downloaded binary.
    FetchPending { target: Target },
    /// Binary handed to the driver for placement; waiting for the outcome.
    PlacePending { target: Target },
    /// Terminal success.
    Installed { target: Target },
    /// Terminal failure.
    Aborted { error: InstallError },
}

/// What the driver reports back after carrying out an action.
pub enum Event {
    /// The installation directory exists now (created, or already present).
    DirCreated,
    /// The directory could not be created.
    DirFailed,
    /// The fetch succeeded with this complete response body.
    Fetched { body: Vec<u8> },
    /// Connection failure, a non-success status, or a truncated transfer.
    FetchFailed,
    /// The binary was written, and its mode set where one was requested.
    Placed,
    /// Writing the binary failed.
    WriteFailed,
    /// The binary was written but could not be marked executable.
    PermissionFailed,
}

/// What the driver must do next. `Report` and `Fail` end the run; the
/// driver performs no filesystem or network operation for either.
pub enum Action {
    /// Create this directory and all missing ancestors.
    CreateDir { dir: &'static str },
    /// Fetch this URL and hand back the full response body.
    FetchUrl { url: &'static str },
    /// Write `bytes` to `dir`/`filename`, overwriting any existing file,
    /// then set the file's permission bits to `mode` if one is given.
    Place { dir: &'static str, filename: &'static str, bytes: Vec<u8>, mode: Option<u32> },
    /// Success: print the one confirmation line naming the directory.
    Report { dir: &'static str },
    /// Failure: report the error and exit with its non-zero status.
    Fail { error: InstallError },
}

/// The permission bits the installed binary gets on POSIX-like systems:
/// rwxr-xr-x.
pub const EXEC_MODE: u32 = 0o755;

/// Which events a state can answer. Terminal states accept none; every
/// other state accepts exactly the outcomes of the action it is waiting on.
pub open spec fn accepts(s: State, e: Event) -> bool {
    match s {
        State::DirPending { .. } => e is DirCreated || e is DirFailed,
        State::FetchPending { .. } => e is Fetched || e is FetchFailed,
        State::PlacePending { .. } => e is Placed || e is WriteFailed || e is PermissionFailed,
        State::Installed { .. } => false,
        State::Aborted { .. } => false,
    }
}

/// How far along the linear chain a state stands. Both terminal states
/// rank last: a run is over in either.
pub open spec fn phase_rank(s: State) -> int {
    match s {
        State::DirPending { .. } => 0,
        State::FetchPending { .. } => 1,
        State::PlacePending { .. } => 2,
        State::Installed { .. } => 3,
        State::Aborted { .. } => 3,
    }
}

/// Every non-aborted state carries a target resolved from the platform
/// tables.
pub open spec fn state_inv(s: State) -> bool {
    match s {
        State::DirPending { target } => target.well_formed(),
        State::FetchPending { target } => target.well_formed(),
        State::PlacePending { target } => target.well_formed(),
        State::Installed { target } => target.well_formed(),
        State::Aborted { .. } => true,
    }
}

/// Begin a run: resolve the platform. On a supported pair the first and
/// only side-effecting request is the directory creation; on any other pair
/// the run is aborted as unsupported before any filesystem or network
/// action is requested.
pub fn start(os: Os, arch: Arch) -> (r: (State, Action))
    ensures
        state_inv(r.0),
        r.1 is Fail <==> r.0 is Aborted,
        spec_supported(os, arch) ==> (r.0 is DirPending && r.0->DirPending_target.os == os && r.1
            == (Action::CreateDir { dir: r.0->DirPending_target.dir })),
        !spec_supported(os, arch) ==> (r.0 == (State::Aborted {
            error: InstallError::UnsupportedPlatform,
        }) && r.1 == (Action::Fail { error: InstallError::UnsupportedPlatform })),
{
    match resolve_target(os, arch) {
        Ok(target) => {
            let dir = target.dir;
            (State::DirPending { target }, Action::CreateDir { dir })
        },
        Err(error) => (State::Aborted { error }, Action::Fail { error }),
    }
}

/// One transition of the machine: from the current state and the reported
/// outcome to the next state and the next action.
///
/// The contract pins every transition: each success outcome advances the
/// chain one step, each failure outcome aborts with the error class of the
/// failing step, and a `Place` action is emitted only for a successful
/// fetch and carries that fetch's body byte for byte, with mode rwxr-xr-x
/// exactly on non-Windows targets.
///
/// Every transition strictly raises [`phase_rank`] and never returns to an
/// earlier step, so a run performs at most four actions; it ends with
/// `Report` exactly when it reaches `Installed` and with `Fail` exactly
/// when it aborts.
pub fn step(s: State, e: Event) -> (r: (State, Action))
    requires
        accepts(s, e),
        state_inv(s),
    ensures
        state_inv(r.0),
        phase_rank(r.0) > phase_rank(s),
        r.1 is Fail <==> r.0 is Aborted,
        r.1 is Report <==> r.0 is Installed,
        s is DirPending && e is DirCreated ==> r.0 == (State::FetchPending {
            target: s->DirPending_target,
        }) && r.1 == (Action::FetchUrl { url: s->DirPending_target.url }),
        (s is DirPending && e is DirFailed) ==> (r.0 == (State::Aborted {
            error: InstallError::DirectoryCreationError,
        }) && r.1 == (Action::Fail { error: InstallError::DirectoryCreationError })),
        s is FetchPending && e is Fetched ==> r.0 == (State::PlacePending {
            target: s->FetchPending_target,
        }) && r.1 == (Action::Place {
            dir: s->FetchPending_target.dir,
            filename: s->FetchPending_target.filename,
            bytes: e->Fetched_body,
            mode: if s->FetchPending_target.os == Os::Windows {
                Option::<u32>::None
            } else {
                Option::Some(EXEC_MODE)
            },
        }),
        (s is FetchPending && e is FetchFailed) ==> (r.0 == (State::Aborted {
            error: InstallError::NetworkError,
        }) && r.1 == (Action::Fail { error: InstallError::NetworkError })),
        s is PlacePending && e is Placed ==> r.0 == (State::Installed {
            target: s->PlacePending_target,
        }) && r.1 == (Action::Report { dir: s->PlacePending_target.dir }),
        (s is PlacePending && e is WriteFailed) ==> (r.0 == (State::Aborted {
            error: InstallError::WriteError,
        }) && r.1 == (Action::Fail { error: InstallError::WriteError })),
        (s is PlacePending && e is PermissionFailed) ==> (r.0 == (State::Aborted {
            error: InstallError::PermissionError,
        }) && r.1 == (Action::Fail { error: InstallError::PermissionError })),
        r.1 is Place ==> s is FetchPending && e is Fetched && r.1->Place_bytes
            == e->Fetched_body,
{
    match (s, e) {
        (State::DirPending { target }, Event::DirCreated) => {
            let url = target.url;
            (State::FetchPending { target }, Action::FetchUrl { url })
        },
        (State::DirPending { .. }, Event::DirFailed) => {
            let error = InstallError::DirectoryCreationError;
            (State::Aborted { error }, Action::Fail { error })
        },
        (State::FetchPending { target }, Event::Fetched { body }) => {
            let mode: Option<u32> = if target.os == Os::Windows {
                None
            } else {
                Some(EXEC_MODE)
            };
            let dir = target.dir;
            let filename = target.filename;
            (State::PlacePending { target }, Action::Place { dir, filename, bytes: body, mode })
        },
        (State::FetchPending { .. }, Event::FetchFailed) => {
            let error = InstallError::NetworkError;
            (State::Aborted { error }, Action::Fail { error })
        },
        (State::PlacePending { target }, Event::Placed) => {
            let dir = target.dir;
            (State::Installed { target }, Action::Report { dir })
        },
        (State::PlacePending { .. }, Event::WriteFailed) => {
            let error = InstallError::WriteError;
            (State::Aborted { error }, Action::Fail { error })
        },
        (State::PlacePending { .. }, Event::PermissionFailed) => {
            let error = InstallError::PermissionError;
            (State::Aborted { error }, Action::Fail { error })
        },
        _ => vstd::pervasive::unreached(),
    }
}

/// Whether `s` can answer `e`: the executable mirror of [`accepts`], for a
/// driver that wants to check before calling [`step`].
pub fn accepts_event(s: &State, e: &Event) -> (r: bool)
    ensures
        r == accepts(*s, *e),
{
    match (s, e) {
        (State::DirPending { .. }, Event::DirCreated) => true,
        (State::DirPending { .. }, Event::DirFailed) => true,
        (State::FetchPending { .. }, Event::Fetched { .. }) => true,
        (State::FetchPending { .. }, Event::FetchFailed) => true,
        (State::PlacePending { .. }, Event::Placed) => true,
        (State::PlacePending { .. }, Event::WriteFailed) => true,
        (State::PlacePending { .. }, Event::PermissionFailed) => true,
        _ => false,
    }
}

} // verus!
