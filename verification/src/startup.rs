//! The order in which the process starts.
//!
//! Startup is a fixed sequence with nothing running side by side: set up
//! diagnostics, build the site, bind the listening socket, serve. Each stage
//! does outside work, so the caller performs it and reports how it went;
//! `advance` decides what comes next. A stage that fails ends the process:
//! nothing is retried. A request that fails while the server runs is not a
//! failure of the serve stage; it is answered on its own (see `serve`).

use vstd::prelude::*;

verus! {

/// A stage of startup.
#[derive(Clone, Copy, Debug, PartialEq, Eq)]
pub enum Stage {
    /// Set up logging and the reporting of errors and panics.
    Diagnostics,
    /// Build the site into the output directory.
    Build,
    /// Acquire the listening socket.
    Bind,
    /// Serve requests until the server stops.
    Serve,
}

/// Why the process gave up.
#[derive(Clone, Copy, Debug, PartialEq, Eq)]
pub enum Fatal {
    /// Diagnostics could not be set up.
    Startup,
    /// A page did not render, or a file could not be written.
    Build,
    /// The listening socket could not be acquired.
    Bind,
    /// The server met an error it could not recover from.
    Server,
}

/// What the process does next.
#[derive(Clone, Copy, Debug, PartialEq, Eq)]
pub enum Step {
    /// Perform this stage.
    Run(Stage),
    /// Give up for this reason.
    Abort(Fatal),
    /// The server stopped without an error: leave.
    Finish,
}

/// The failure that ends the process when `stage` fails.
pub open spec fn failure_of(stage: Stage) -> Fatal {
    match stage {
        Stage::Diagnostics => Fatal::Startup,
        Stage::Build => Fatal::Build,
        Stage::Bind => Fatal::Bind,
        Stage::Serve => Fatal::Server,
    }
}

/// What follows `stage` when it went well.
pub open spec fn successor(stage: Stage) -> Step {
    match stage {
        Stage::Diagnostics => Step::Run(Stage::Build),
        Stage::Build => Step::Run(Stage::Bind),
        Stage::Bind => Step::Run(Stage::Serve),
        Stage::Serve => Step::Finish,
    }
}

/// The stage every process starts with.
pub fn first() -> (stage: Stage)
    ensures
        stage == Stage::Diagnostics,
{
    Stage::Diagnostics
}

/// Decides what follows `stage`, given whether it succeeded.
///
/// In particular the socket is bound only after a build that succeeded, and
/// requests are served only after a bind that succeeded.
pub fn advance(stage: Stage, succeeded: bool) -> (step: Step)
    ensures
        succeeded ==> step == successor(stage),
        !succeeded ==> step == Step::Abort(failure_of(stage)),
        step == Step::Run(Stage::Bind) <==> succeeded && stage == Stage::Build,
        step == Step::Run(Stage::Serve) <==> succeeded && stage == Stage::Bind,
{
    if succeeded {
        match stage {
            Stage::Diagnostics => Step::Run(Stage::Build),
            Stage::Build => Step::Run(Stage::Bind),
            Stage::Bind => Step::Run(Stage::Serve),
            Stage::Serve => Step::Finish,
        }
    } else {
        match stage {
            Stage::Diagnostics => Step::Abort(Fatal::Startup),
            Stage::Build => Step::Abort(Fatal::Build),
            Stage::Bind => Step::Abort(Fatal::Bind),
            Stage::Serve => Step::Abort(Fatal::Server),
        }
    }
}

/// The exit code of a process that gave up for the reason `end`, or that
/// left without one: zero only in the second case.
pub fn exit_code(end: Option<Fatal>) -> (code: u8)
    ensures
        code == (if end is Some { 1u8 } else { 0u8 }),
{
    match end {
        Some(_) => 1,
        None => 0,
    }
}

} // verus!
