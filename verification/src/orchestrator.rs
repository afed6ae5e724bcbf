use vstd::prelude::*;

verus! {

/// What the orchestrator asks its driver to do next.
#[derive(Clone, Copy, PartialEq, Eq, Structural, Debug)]
pub enum Action {
    /// Launch the managed executable. `persistent_console` is set on the
    /// already-installed path, where the console must stay visible for the
    /// maintenance messages that follow.
    RunApp { persistent_console: bool },
    /// Invoke the external toolchain updater.
    UpdateToolchain,
    /// Invoke the external package installer.
    InstallPackage,
    /// A problem occurred: block for explicit user acknowledgment, so the
    /// diagnostics stay readable, then exit.
    HoldForAcknowledgment,
    /// A clean run: exit immediately.
    ExitQuietly,
}

/// What the driver reports back to the orchestrator.
#[derive(Clone, Copy, PartialEq, Eq, Structural, Debug)]
pub enum Event {
    /// The manifest loaded; `exe_exists` says whether the managed executable
    /// is already installed.
    Loaded { exe_exists: bool },
    /// The manifest could not be loaded.
    LoadFailed,
    /// The phase requested by the previous action finished, well or badly.
    PhaseDone { success: bool },
}

/// The stages of a launch, named for the phase whose report is awaited.
#[derive(Clone, Copy, PartialEq, Eq, Structural, Debug)]
pub enum Stage {
    /// Awaiting the manifest-load report.
    Start,
    /// The executable already existed: it runs first.
    RunningFirst,
    /// Toolchain update, preparing the next launch after an initial run.
    UpdatingAfterRun,
    /// Package install, preparing the next launch after an initial run.
    InstallingAfterRun,
    /// Toolchain update before a fresh install and first run.
    UpdatingBeforeRun,
    /// Package install before the first run.
    InstallingBeforeRun,
    /// The freshly installed executable runs once, last.
    RunningLast,
    /// No manifest: a best-effort toolchain update and nothing else.
    UpdatingWithoutManifest,
    /// The run is over; only the exit behavior remains.
    Finished,
}

/// The launch orchestrator: sequences update, install and run, accumulates
/// the sticky problem flag, and decides the final exit behavior.
#[derive(Clone, Copy, PartialEq, Eq, Structural, Debug)]
pub struct Orchestrator {
    pub stage: Stage,
    pub problem: bool,
}

/// True of an event that reports a failure.
pub open spec fn event_fails(e: Event) -> bool {
    match e {
        Event::Loaded { .. } => false,
        Event::LoadFailed => true,
        Event::PhaseDone { success } => !success,
    }
}

impl Orchestrator {
    /// The machine before anything happened: at the start, with no problem.
    pub open spec fn spec_new() -> Orchestrator {
        Orchestrator { stage: Stage::Start, problem: false }
    }

    /// Which events the machine is prepared to take in its current stage.
    pub open spec fn accepts(self, e: Event) -> bool {
        match self.stage {
            Stage::Start => e is Loaded || e is LoadFailed,
            Stage::Finished => false,
            _ => e is PhaseDone,
        }
    }

    /// The stage after taking `e`; an event the stage does not accept
    /// changes nothing.
    pub open spec fn next_stage(self, e: Event) -> Stage {
        match (self.stage, e) {
            (Stage::Start, Event::Loaded { exe_exists }) => if exe_exists {
                Stage::RunningFirst
            } else {
                Stage::UpdatingBeforeRun
            },
            (Stage::Start, Event::LoadFailed) => Stage::UpdatingWithoutManifest,
            (Stage::RunningFirst, Event::PhaseDone { .. }) => Stage::UpdatingAfterRun,
            (Stage::UpdatingAfterRun, Event::PhaseDone { .. }) => Stage::InstallingAfterRun,
            (Stage::InstallingAfterRun, Event::PhaseDone { .. }) => Stage::Finished,
            (Stage::UpdatingBeforeRun, Event::PhaseDone { .. }) => Stage::InstallingBeforeRun,
            (Stage::InstallingBeforeRun, Event::PhaseDone { .. }) => Stage::RunningLast,
            (Stage::RunningLast, Event::PhaseDone { .. }) => Stage::Finished,
            (Stage::UpdatingWithoutManifest, Event::PhaseDone { .. }) => Stage::Finished,
            _ => self.stage,
        }
    }

    /// The machine after taking `e`: the next stage, with the problem flag
    /// raised if the accepted event reported a failure and never lowered.
    pub open spec fn spec_next(self, e: Event) -> Orchestrator {
        Orchestrator {
            stage: self.next_stage(e),
            problem: self.problem || (self.accepts(e) && event_fails(e)),
        }
    }

    /// The action issued on taking `e`: whatever the new stage awaits, or the
    /// exit behavior once the run is finished.
    pub open spec fn spec_action(self, e: Event) -> Action {
        match self.next_stage(e) {
            // The next stage is `Start` only for an event the stage does not
            // accept, which `step` never takes.
            Stage::Start => Action::ExitQuietly,
            Stage::RunningFirst => Action::RunApp { persistent_console: true },
            Stage::UpdatingAfterRun => Action::UpdateToolchain,
            Stage::InstallingAfterRun => Action::InstallPackage,
            Stage::UpdatingBeforeRun => Action::UpdateToolchain,
            Stage::InstallingBeforeRun => Action::InstallPackage,
            Stage::RunningLast => Action::RunApp { persistent_console: false },
            Stage::UpdatingWithoutManifest => Action::UpdateToolchain,
            Stage::Finished => if self.spec_next(e).problem {
                Action::HoldForAcknowledgment
            } else {
                Action::ExitQuietly
            },
        }
    }

    /// A fresh machine: nothing loaded, no problem recorded.
    pub fn new() -> (r: Orchestrator)
        ensures
            r == Orchestrator::spec_new(),
    {
        Orchestrator { stage: Stage::Start, problem: false }
    }

    /// Whether `step` may take `e` now; a driver checks this before stepping.
    pub fn accepts_event(&self, e: &Event) -> (r: bool)
        ensures
            r == self.accepts(*e),
    {
        match self.stage {
            Stage::Start => match e {
                Event::Loaded { .. } => true,
                Event::LoadFailed => true,
                Event::PhaseDone { .. } => false,
            },
            Stage::Finished => false,
            _ => match e {
                Event::PhaseDone { .. } => true,
                _ => false,
            },
        }
    }

    /// Takes one event and returns the next action for the driver. The
    /// problem flag only ever goes from false to true.
    pub fn step(&mut self, e: Event) -> (a: Action)
        requires
            old(self).accepts(e),
        ensures
            *final(self) == old(self).spec_next(e),
            a == old(self).spec_action(e),
            old(self).problem ==> final(self).problem,
    {
        let failed = match e {
            Event::Loaded { .. } => false,
            Event::LoadFailed => true,
            Event::PhaseDone { success } => !success,
        };
        self.problem = self.problem || failed;
        self.stage = match self.stage {
            Stage::Start => match e {
                Event::Loaded { exe_exists } => if exe_exists {
                    Stage::RunningFirst
                } else {
                    Stage::UpdatingBeforeRun
                },
                _ => Stage::UpdatingWithoutManifest,
            },
            Stage::RunningFirst => Stage::UpdatingAfterRun,
            Stage::UpdatingAfterRun => Stage::InstallingAfterRun,
            Stage::InstallingAfterRun => Stage::Finished,
            Stage::UpdatingBeforeRun => Stage::InstallingBeforeRun,
            Stage::InstallingBeforeRun => Stage::RunningLast,
            Stage::RunningLast => Stage::Finished,
            Stage::UpdatingWithoutManifest => Stage::Finished,
            Stage::Finished => Stage::Finished,
        };
        match self.stage {
            Stage::Start => Action::ExitQuietly,
            Stage::RunningFirst => Action::RunApp { persistent_console: true },
            Stage::UpdatingAfterRun => Action::UpdateToolchain,
            Stage::InstallingAfterRun => Action::InstallPackage,
            Stage::UpdatingBeforeRun => Action::UpdateToolchain,
            Stage::InstallingBeforeRun => Action::InstallPackage,
            Stage::RunningLast => Action::RunApp { persistent_console: false },
            Stage::UpdatingWithoutManifest => Action::UpdateToolchain,
            Stage::Finished => if self.problem {
                Action::HoldForAcknowledgment
            } else {
                Action::ExitQuietly
            },
        }
    }

    /// The run is over: the machine takes no further event.
    pub fn is_finished(&self) -> (r: bool)
        ensures
            r == (self.stage is Finished),
    {
        match self.stage {
            Stage::Finished => true,
            _ => false,
        }
    }
}

} // verus!
