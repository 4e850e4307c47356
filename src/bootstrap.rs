use vstd::prelude::*;

use crate::layout::{successor, Provision, Subdirectory};

verus! {

/// A start-up failure that stops the application before it serves anything.
#[derive(Clone, Copy, Debug, PartialEq, Eq, Structural)]
pub enum FatalError {
    /// The host could not name a data root.
    EnvironmentUnavailable,
    /// The data root, or one of its missing ancestors, could not be created.
    RootUncreatable,
}

/// Where start-up stands. Before a `Bootstrap` exists the application is
/// uninitialized; `Ready` and `Failed` are final.
#[derive(Clone, Debug)]
pub enum Phase {
    /// Waiting for the host to name the data root.
    RootResolving,
    /// The root is known; waiting for it to be created.
    RootResolved { root: String },
    /// The root exists; waiting for the outcome of creating `current`.
    Provisioning { root: String, current: Subdirectory, report: Provision },
    /// Start-up is done; the frontend may be served.
    Ready { root: String, report: Provision },
    /// Start-up stopped on a fatal error.
    Failed { error: FatalError },
}

/// What the host reports after carrying out the pending action.
#[derive(Clone, Debug)]
pub enum Event {
    /// The host named the data root.
    RootLocated { root: String },
    /// The host cannot name a data root.
    RootUnavailable,
    /// The requested directory exists now, whether it was just created or
    /// was already there.
    Created,
    /// The requested directory could not be created. A path that exists but
    /// is not a directory is reported this way too.
    CreationFailed,
}

/// The work that the host is asked to do next.
#[derive(Clone, Debug)]
pub enum Action {
    /// Name the application's data root.
    ResolveRoot,
    /// Create `root` with every missing ancestor.
    CreateRoot { root: String },
    /// Create the child `dir` of `root`.
    CreateSubdirectory { root: String, dir: Subdirectory },
    /// Start serving the frontend.
    Serve,
    /// Stop start-up with `error`.
    Abort { error: FatalError },
}

/// Whether `p` is one of the final phases.
pub open spec fn is_final(p: Phase) -> bool {
    p is Ready || p is Failed
}

/// The action that the machine waits on in phase `p`.
pub open spec fn pending_of(p: Phase) -> Action {
    match p {
        Phase::RootResolving => Action::ResolveRoot,
        Phase::RootResolved { root } => Action::CreateRoot { root },
        Phase::Provisioning { root, current, .. } => Action::CreateSubdirectory { root, dir: current },
        Phase::Ready { .. } => Action::Serve,
        Phase::Failed { error } => Action::Abort { error },
    }
}

/// The phase after `current` has been recorded with outcome `ok`.
pub open spec fn after_subdirectory(
    root: String,
    current: Subdirectory,
    report: Provision,
    ok: bool,
) -> Phase {
    let report = report.with(current, ok);
    match successor(current) {
        Some(next) => Phase::Provisioning { root, current: next, report },
        None => Phase::Ready { root, report },
    }
}

/// The phase that follows `p` on event `e`. An event that does not answer
/// the pending action leaves the phase as it is, so the action is asked
/// for again; final phases never change.
pub open spec fn next_phase(p: Phase, e: Event) -> Phase {
    match p {
        Phase::RootResolving => match e {
            Event::RootLocated { root } => Phase::RootResolved { root },
            Event::RootUnavailable => Phase::Failed { error: FatalError::EnvironmentUnavailable },
            _ => p,
        },
        Phase::RootResolved { root } => match e {
            Event::Created => Phase::Provisioning {
                root,
                current: Subdirectory::Photos,
                report: Provision::none_available(),
            },
            Event::CreationFailed => Phase::Failed { error: FatalError::RootUncreatable },
            _ => p,
        },
        Phase::Provisioning { root, current, report } => match e {
            Event::Created => after_subdirectory(root, current, report, true),
            Event::CreationFailed => after_subdirectory(root, current, report, false),
            _ => p,
        },
        _ => p,
    }
}

/// The start-up sequence: resolve the data root, create it (fatal on
/// failure), create each managed subdirectory (tolerated on failure), then
/// serve. The machine decides; the host carries out each action and reports
/// its outcome as an event.
pub struct Bootstrap {
    phase: Phase,
}

impl Bootstrap {
    /// The current phase.
    pub closed spec fn phase_of(&self) -> Phase {
        self.phase
    }

    /// A fresh start-up, waiting for the data root.
    pub fn new() -> (r: Bootstrap)
        ensures
            r.phase_of() == Phase::RootResolving,
    {
        Bootstrap { phase: Phase::RootResolving }
    }

    /// The current phase.
    pub fn phase(&self) -> (r: &Phase)
        ensures
            *r == self.phase_of(),
    {
        &self.phase
    }

    /// Whether start-up has ended, either ready or failed.
    pub fn is_done(&self) -> (r: bool)
        ensures
            r == is_final(self.phase_of()),
    {
        match self.phase {
            Phase::Ready { .. } | Phase::Failed { .. } => true,
            _ => false,
        }
    }

    /// The action that the machine waits on.
    pub fn pending(&self) -> (r: Action)
        ensures
            r == pending_of(self.phase_of()),
    {
        match &self.phase {
            Phase::RootResolving => Action::ResolveRoot,
            Phase::RootResolved { root } => Action::CreateRoot { root: root.clone() },
            Phase::Provisioning { root, current, .. } => Action::CreateSubdirectory {
                root: root.clone(),
                dir: *current,
            },
            Phase::Ready { .. } => Action::Serve,
            Phase::Failed { error } => Action::Abort { error: *error },
        }
    }

    /// Takes the host's report on the pending action and returns the next
    /// action.
    pub fn advance(&mut self, event: Event) -> (r: Action)
        ensures
            final(self).phase_of() == next_phase(old(self).phase_of(), event),
            r == pending_of(final(self).phase_of()),
    {
        let next = match &self.phase {
            Phase::RootResolving => match event {
                Event::RootLocated { root } => Some(Phase::RootResolved { root }),
                Event::RootUnavailable => Some(
                    Phase::Failed { error: FatalError::EnvironmentUnavailable },
                ),
                _ => None,
            },
            Phase::RootResolved { root } => match event {
                Event::Created => Some(
                    Phase::Provisioning {
                        root: root.clone(),
                        current: Subdirectory::first(),
                        report: Provision::empty(),
                    },
                ),
                Event::CreationFailed => Some(Phase::Failed { error: FatalError::RootUncreatable }),
                _ => None,
            },
            Phase::Provisioning { root, current, report } => {
                let ok = match event {
                    Event::Created => Some(true),
                    Event::CreationFailed => Some(false),
                    _ => None,
                };
                match ok {
                    Some(ok) => {
                        let mut report = *report;
                        report.record(*current, ok);
                        match current.following() {
                            Some(next) => Some(
                                Phase::Provisioning { root: root.clone(), current: next, report },
                            ),
                            None => Some(Phase::Ready { root: root.clone(), report }),
                        }
                    },
                    None => None,
                }
            },
            _ => None,
        };
        if let Some(p) = next {
            self.phase = p;
        }
        self.pending()
    }
}

} // verus!
