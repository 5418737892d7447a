use vstd::prelude::*;
use crate::layout::{
    after_probe, base_components, entry_components, first_probe, next_resolution, resolve_spec,
    BackendLocation, LayoutKind, NotFound, Resolution,
};

verus! {

/// The interpreter that runs the backend's entry point.
pub const INTERPRETER: &'static str = "node";

/// The process creation flag that keeps a child from opening a console window,
/// on platforms that have one.
pub const CREATE_NO_WINDOW: u32 = 0x0800_0000;

/// One observation of the diagnostics trace, in the order it was made.
#[derive(Debug)]
pub enum DiagEntry {
    /// Opens the session of one run.
    SessionHeader,
    /// The resource directory the candidates are looked up in.
    ResourceDir,
    /// A candidate's entry point was tested for presence.
    Probed { kind: LayoutKind, exists: bool },
    /// The backend will be started from this location.
    Selected(BackendLocation),
    /// The backend started with this process id.
    Launched { pid: u32 },
    /// Starting the backend failed with this error text.
    LaunchFailed { error: String },
    /// Advice to check that the interpreter is installed.
    InstallHint,
    /// Debug builds only: how to start the backend by hand.
    DevHint,
    /// No candidate exists.
    Missing(NotFound),
}

/// Where the start-up routine stands.
#[derive(Clone, Copy, Debug, PartialEq, Eq, Structural)]
pub enum Phase {
    /// The presence of this candidate is to be tested next.
    Resolving(LayoutKind),
    /// The backend is to be launched from this location.
    Launching(BackendLocation),
    /// Nothing more is to be done.
    Finished,
}

/// What the start-up routine asks its driver to do next.
#[derive(Clone, Copy, Debug, PartialEq, Eq, Structural)]
pub enum Action {
    /// Test whether this candidate's entry point exists.
    Probe(LayoutKind),
    /// Launch the backend from this location.
    Launch(BackendLocation),
    /// Write the trace out; start-up is over.
    Done,
}

/// The decisions of the start-up routine. The driver performs each action
/// and reports back; the session keeps the trace for the diagnostics log.
pub struct Startup {
    pub phase: Phase,
    pub debug_build: bool,
    pub trace: Vec<DiagEntry>,
}

/// The phase that follows a resolution step.
pub open spec fn phase_of(r: Resolution) -> Phase {
    match r {
        Resolution::Probe(kind) => Phase::Resolving(kind),
        Resolution::Found(loc) => Phase::Launching(loc),
        Resolution::Missing(_) => Phase::Finished,
    }
}

/// The trace entries recorded when the presence test of `kind` gave `exists`.
pub open spec fn probe_entries(kind: LayoutKind, exists: bool, debug_build: bool) -> Seq<DiagEntry> {
    let probed = DiagEntry::Probed { kind, exists };
    if exists {
        seq![probed, DiagEntry::Selected(BackendLocation { kind })]
    } else {
        match kind {
            LayoutKind::Production => seq![probed],
            LayoutKind::Development => if debug_build {
                seq![probed, DiagEntry::DevHint]
            } else {
                seq![probed, DiagEntry::Missing(NotFound {  })]
            },
        }
    }
}

/// The trace entries recorded for the outcome of a launch.
pub open spec fn launch_entries(outcome: Result<u32, String>) -> Seq<DiagEntry> {
    match outcome {
        Ok(pid) => seq![DiagEntry::Launched { pid }],
        Err(error) => seq![DiagEntry::LaunchFailed { error }, DiagEntry::InstallHint],
    }
}

/// The action asked for in `phase`.
pub open spec fn action_of(phase: Phase) -> Action {
    match phase {
        Phase::Resolving(kind) => Action::Probe(kind),
        Phase::Launching(loc) => Action::Launch(loc),
        Phase::Finished => Action::Done,
    }
}

impl Startup {
    /// A session for one run; `debug_build` tells whether this is a
    /// development build.
    pub fn new(debug_build: bool) -> (r: Startup)
        ensures
            r.phase == Phase::Resolving(LayoutKind::Production),
            r.debug_build == debug_build,
            r.trace@ == seq![DiagEntry::SessionHeader, DiagEntry::ResourceDir],
    {
        let phase = match first_probe() {
            Resolution::Probe(kind) => Phase::Resolving(kind),
            Resolution::Found(loc) => Phase::Launching(loc),
            Resolution::Missing(_) => Phase::Finished,
        };
        Startup {
            phase,
            debug_build,
            trace: vec![DiagEntry::SessionHeader, DiagEntry::ResourceDir],
        }
    }

    pub fn next_action(&self) -> (r: Action)
        ensures
            r == action_of(self.phase),
    {
        match self.phase {
            Phase::Resolving(kind) => Action::Probe(kind),
            Phase::Launching(loc) => Action::Launch(loc),
            Phase::Finished => Action::Done,
        }
    }

    /// Records the result of the presence test that `Action::Probe` asked for.
    pub fn on_probe(&mut self, exists: bool)
        requires
            old(self).phase is Resolving,
        ensures
            final(self).phase == phase_of(next_resolution(old(self).phase->Resolving_0, exists)),
            final(self).debug_build == old(self).debug_build,
            final(self).trace@ == old(self).trace@ + probe_entries(
                old(self).phase->Resolving_0,
                exists,
                old(self).debug_build,
            ),
    {
        let kind = match self.phase {
            Phase::Resolving(kind) => kind,
            _ => LayoutKind::Production,
        };
        self.trace.push(DiagEntry::Probed { kind, exists });
        match after_probe(kind, exists) {
            Resolution::Probe(next) => {
                self.phase = Phase::Resolving(next);
            },
            Resolution::Found(loc) => {
                self.trace.push(DiagEntry::Selected(loc));
                self.phase = Phase::Launching(loc);
            },
            Resolution::Missing(nf) => {
                if self.debug_build {
                    self.trace.push(DiagEntry::DevHint);
                } else {
                    self.trace.push(DiagEntry::Missing(nf));
                }
                self.phase = Phase::Finished;
            },
        }
        proof {
            assert(self.trace@ =~= old(self).trace@ + probe_entries(kind, exists, self.debug_build));
        }
    }

    /// Records the outcome of the launch that `Action::Launch` asked for:
    /// the process id, or the error text. Returns whether the handle is to
    /// be stored; a failed launch is not retried.
    pub fn on_launch(&mut self, outcome: Result<u32, String>) -> (store: bool)
        requires
            old(self).phase is Launching,
        ensures
            store == (outcome is Ok),
            final(self).phase == Phase::Finished,
            final(self).debug_build == old(self).debug_build,
            final(self).trace@ == old(self).trace@ + launch_entries(outcome),
    {
        let ghost before = self.trace@;
        let store = match outcome {
            Ok(pid) => {
                self.trace.push(DiagEntry::Launched { pid });
                true
            },
            Err(error) => {
                self.trace.push(DiagEntry::LaunchFailed { error });
                self.trace.push(DiagEntry::InstallHint);
                false
            },
        };
        self.phase = Phase::Finished;
        proof {
            assert(self.trace@ =~= before + launch_entries(outcome));
        }
        store
    }
}

/// The phase the session reaches from its start once every probe it asks
/// for has been answered: `production` and `development` are the presence
/// of the two candidates.
pub open spec fn resolved_phase(production: bool, development: bool) -> Phase {
    let first = phase_of(next_resolution(LayoutKind::Production, production));
    match first {
        Phase::Resolving(kind) => phase_of(next_resolution(kind, development)),
        _ => first,
    }
}

/// The session launches exactly the location that resolution selects, and
/// finishes without launching where resolution fails.
pub proof fn lemma_session_follows_resolution(production: bool, development: bool)
    ensures
        resolved_phase(production, development) == (match resolve_spec(production, development) {
            Ok(loc) => Phase::Launching(loc),
            Err(_) => Phase::Finished,
        }),
{
}

/// Where the production candidate exists it is selected, whatever the
/// development candidate's state, and the session asks for the launch right
/// after that one probe: the development candidate is never tested.
pub proof fn lemma_production_selected(development: bool, debug_build: bool)
    ensures
        resolve_spec(true, development) == Ok::<BackendLocation, NotFound>(
            BackendLocation { kind: LayoutKind::Production },
        ),
        action_of(phase_of(next_resolution(LayoutKind::Production, true))) == Action::Launch(
            BackendLocation { kind: LayoutKind::Production },
        ),
        probe_entries(LayoutKind::Production, true, debug_build) == seq![
            DiagEntry::Probed { kind: LayoutKind::Production, exists: true },
            DiagEntry::Selected(BackendLocation { kind: LayoutKind::Production }),
        ],
{
}

/// Where neither candidate exists, resolution fails and the session tests
/// both candidates, then finishes: no launch is ever asked for.
pub proof fn lemma_nothing_found_never_launches(debug_build: bool)
    ensures
        resolve_spec(false, false) is Err,
        action_of(Phase::Resolving(LayoutKind::Production)) == Action::Probe(LayoutKind::Production),
        phase_of(next_resolution(LayoutKind::Production, false)) == Phase::Resolving(
            LayoutKind::Development,
        ),
        phase_of(next_resolution(LayoutKind::Development, false)) == Phase::Finished,
        action_of(Phase::Finished) == Action::Done,
        probe_entries(LayoutKind::Production, false, debug_build)[0] == (DiagEntry::Probed {
            kind: LayoutKind::Production,
            exists: false,
        }),
        probe_entries(LayoutKind::Development, false, debug_build)[0] == (DiagEntry::Probed {
            kind: LayoutKind::Development,
            exists: false,
        }),
{
}

/// How the backend process is to be started.
pub struct LaunchPlan {
    /// The program run: the interpreter.
    pub program: &'static str,
    /// Its one argument: the entry point, as components below the resource directory.
    pub entry: Vec<&'static str>,
    /// The working directory, as components below the resource directory.
    pub working_dir: Vec<&'static str>,
    /// Whether standard output goes to its capture file; else it is inherited.
    pub stdout_to_file: bool,
    /// Whether standard error goes to its capture file; else it is inherited.
    pub stderr_to_file: bool,
    /// Creation flags to apply, on platforms that know them.
    pub creation_flags: Option<u32>,
}

/// Plans the launch from `location`. A capture file that could not be opened
/// leaves its stream inherited rather than stopping the launch; the console
/// flag is set only where `console_platform` says the platform has consoles.
pub fn plan_launch(location: BackendLocation, stdout_opened: bool, stderr_opened: bool, console_platform: bool) -> (r: LaunchPlan)
    ensures
        r.program == INTERPRETER,
        r.entry@ == entry_components(location.kind),
        r.working_dir@ == base_components(location.kind),
        r.stdout_to_file == stdout_opened,
        r.stderr_to_file == stderr_opened,
        r.creation_flags == (if console_platform { Some(CREATE_NO_WINDOW) } else { None::<u32> }),
{
    LaunchPlan {
        program: INTERPRETER,
        entry: location.entry_path(),
        working_dir: location.working_dir(),
        stdout_to_file: stdout_opened,
        stderr_to_file: stderr_opened,
        creation_flags: if console_platform { Some(CREATE_NO_WINDOW) } else { None },
    }
}

} // verus!
